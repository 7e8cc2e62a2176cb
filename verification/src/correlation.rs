//! Correlation ids: the client-minted ids that tie a response frame to the request waiting on it.

use vstd::prelude::*;
use crate::text::{hex_digit, hex_string, hex_text, push_char, push_str};

verus! {

/// The text of the correlation id minted at `nanos` nanoseconds after the Unix epoch as the
/// `n`-th id of the process: both numbers in lowercase hexadecimal, joined by a hyphen.
pub open spec fn correlation_id_text(nanos: nat, n: nat) -> Seq<char> {
    hex_text(nanos) + seq!['-'] + hex_text(n)
}

/// Mints the correlation id for the clock reading `nanos` (nanoseconds since the Unix epoch) and
/// the per-process sequence number `n`.
pub fn new_correlation_id(nanos: u128, n: u64) -> (r: String)
    ensures
        r@ == correlation_id_text(nanos as nat, n as nat),
{
    let mut out = hex_string(nanos);
    push_char(&mut out, '-');
    let tail = hex_string(n as u128);
    push_str(&mut out, tail.as_str());
    out
}

/// The per-process sequence of correlation ids: each id is minted from a clock reading and the
/// next sequence number, which then advances (wrapping after `u64::MAX`).
pub struct CorrelationIds {
    next: u64,
}

/// The sequence number after `n`, wrapping after `u64::MAX`.
pub open spec fn next_sequence(n: u64) -> u64 {
    if n == u64::MAX {
        0
    } else {
        (n + 1) as u64
    }
}

/// The sequence number of the `i`-th id minted by a sequence that starts at `start`.
pub open spec fn sequence_at(start: u64, i: nat) -> u64 {
    ((start + i) % 0x1_0000_0000_0000_0000) as u64
}

impl CorrelationIds {
    /// The sequence number the next id will carry.
    pub closed spec fn next(&self) -> u64 {
        self.next
    }

    /// A sequence whose first id carries the sequence number 0.
    pub fn new() -> (c: Self)
        ensures
            c.next() == 0,
    {
        CorrelationIds { next: 0 }
    }

    /// Mints the next correlation id for the clock reading `nanos` (nanoseconds since the Unix
    /// epoch).
    pub fn mint(&mut self, nanos: u128) -> (r: String)
        ensures
            r@ == correlation_id_text(nanos as nat, old(self).next() as nat),
            final(self).next() == next_sequence(old(self).next()),
    {
        let n = self.next;
        self.next = if n == u64::MAX {
            0
        } else {
            n + 1
        };
        new_correlation_id(nanos, n)
    }
}

/// Minting advances the sequence number one step at a time: after `i` more ids it is
/// [`sequence_at`]`(start, i)`.
pub proof fn lemma_next_sequence_at(start: u64, i: nat)
    ensures
        next_sequence(sequence_at(start, i)) == sequence_at(start, i + 1),
{
    let m: int = 0x1_0000_0000_0000_0000;
    let a = start + i;
    assert(sequence_at(start, i) == a % m);
    if a % m == u64::MAX {
        assert((a + 1) % m == 0) by (nonlinear_arith)
            requires
                a % m == m - 1,
                m > 0,
                a >= 0,
        ;
    } else {
        assert((a + 1) % m == a % m + 1) by (nonlinear_arith)
            requires
                a % m < m - 1,
                m > 0,
                a >= 0,
        ;
    }
}

/// Fewer than 2^64 ids minted in a row by one sequence are pairwise different, whatever the
/// clock readings: the `i`-th and the `j`-th id differ.
pub proof fn lemma_minted_ids_differ(start: u64, i: nat, j: nat, nanos_i: nat, nanos_j: nat)
    requires
        i < j < 0x1_0000_0000_0000_0000,
    ensures
        correlation_id_text(nanos_i, sequence_at(start, i) as nat) != correlation_id_text(
            nanos_j,
            sequence_at(start, j) as nat,
        ),
{
    let m: int = 0x1_0000_0000_0000_0000;
    assert((start + i) % m != (start + j) % m) by (nonlinear_arith)
        requires
            0 <= i < j < m,
            0 <= start < m,
    {
        if (start + i) % m == (start + j) % m {
            let qi = (start + i) / m;
            let qj = (start + j) / m;
            assert(start + i == qi * m + (start + i) % m);
            assert(start + j == qj * m + (start + j) % m);
            assert((qj - qi) * m == j - i);
        }
    }
    lemma_correlation_id_injective(nanos_i, sequence_at(start, i) as nat, nanos_j, sequence_at(start, j) as nat);
}

/// `c` is a lowercase hexadecimal digit.
pub open spec fn is_hex_digit(c: char) -> bool {
    ('0' <= c && c <= '9') || ('a' <= c && c <= 'f')
}

proof fn lemma_hex_digit_code(d: nat)
    requires
        d < 16,
    ensures
        d < 10 ==> (hex_digit(d) as u32) == d + 48,
        d >= 10 ==> (hex_digit(d) as u32) == d + 87,
        d < 10 ==> (hex_digit(d) as int) == d + 48,
        d >= 10 ==> (hex_digit(d) as int) == d + 87,
        is_hex_digit(hex_digit(d)),
{
}

/// The hexadecimal text of a number is non-empty and made of lowercase hexadecimal digits.
pub proof fn lemma_hex_text_digits(n: nat)
    ensures
        hex_text(n).len() > 0,
        forall|i: int| 0 <= i < hex_text(n).len() ==> is_hex_digit(#[trigger] hex_text(n)[i]),
    decreases n,
{
    if n < 16 {
        lemma_hex_digit_code(n);
    } else {
        lemma_hex_text_digits(n / 16);
        lemma_hex_digit_code(n % 16);
        let t = hex_text(n);
        assert forall|i: int| 0 <= i < t.len() implies is_hex_digit(#[trigger] t[i]) by {
            if i < t.len() - 1 {
                assert(t[i] == hex_text(n / 16)[i]);
            }
        }
    }
}

/// The number that a text of lowercase hexadecimal digits stands for, most significant first.
pub open spec fn hex_number(s: Seq<char>) -> nat
    decreases s.len(),
{
    if s.len() == 0 {
        0
    } else {
        let c = s.last() as int;
        let d: int = if c <= 57 {
            c - 48
        } else {
            c - 87
        };
        hex_number(s.drop_last()) * 16 + (if d < 0 {
            0
        } else {
            d
        }) as nat
    }
}

/// The hexadecimal text of a number stands for that number.
pub proof fn lemma_hex_text_value(n: nat)
    ensures
        hex_number(hex_text(n)) == n,
    decreases n,
{
    if n < 16 {
        lemma_hex_digit_code(n);
        assert(hex_text(n).drop_last() =~= Seq::<char>::empty());
        assert(hex_text(n).last() == hex_digit(n));
        assert(hex_number(hex_text(n).drop_last()) == 0);
        assert(hex_number(hex_text(n)) == hex_number(hex_text(n).drop_last()) * 16 + n);
    } else {
        lemma_hex_text_value(n / 16);
        lemma_hex_digit_code(n % 16);
        assert(hex_text(n).drop_last() =~= hex_text(n / 16));
        assert(hex_text(n).last() == hex_digit(n % 16));
        assert(hex_number(hex_text(n)) == hex_number(hex_text(n / 16)) * 16 + n % 16);
        assert(n == (n / 16) * 16 + n % 16);
    }
}

/// A correlation id is the hexadecimal text of the clock reading, a hyphen, and the hexadecimal
/// text of the sequence number, in that order.
pub proof fn lemma_correlation_id_parts(nanos: nat, n: nat)
    ensures
        ({
            let id = correlation_id_text(nanos, n);
            let h = hex_text(nanos).len() as int;
            &&& hex_number(id.subrange(0, h)) == nanos
            &&& id[h] == '-'
            &&& hex_number(id.subrange(h + 1, id.len() as int)) == n
        }),
{
    let id = correlation_id_text(nanos, n);
    let h = hex_text(nanos).len() as int;
    assert(id.subrange(0, h) =~= hex_text(nanos));
    assert(id.subrange(h + 1, id.len() as int) =~= hex_text(n));
    lemma_hex_text_value(nanos);
    lemma_hex_text_value(n);
}

/// Different numbers have different hexadecimal texts.
pub proof fn lemma_hex_text_injective(a: nat, b: nat)
    requires
        hex_text(a) == hex_text(b),
    ensures
        a == b,
    decreases a,
{
    if a < 16 && b < 16 {
        lemma_hex_digit_code(a);
        lemma_hex_digit_code(b);
        assert(hex_text(a)[0] == hex_digit(a));
        assert(hex_text(b)[0] == hex_digit(b));
        assert((hex_digit(a) as u32) == (hex_digit(b) as u32));
    } else if a < 16 {
        lemma_hex_text_digits(b / 16);
        assert(hex_text(b).len() == hex_text(b / 16).len() + 1);
    } else if b < 16 {
        lemma_hex_text_digits(a / 16);
        assert(hex_text(a).len() == hex_text(a / 16).len() + 1);
    } else {
        lemma_hex_digit_code(a % 16);
        lemma_hex_digit_code(b % 16);
        assert(hex_text(a).last() == hex_digit(a % 16));
        assert(hex_text(b).last() == hex_digit(b % 16));
        assert((hex_digit(a % 16) as u32) == (hex_digit(b % 16) as u32));
        assert(a % 16 == b % 16);
        assert(hex_text(a).drop_last() =~= hex_text(a / 16));
        assert(hex_text(b).drop_last() =~= hex_text(b / 16));
        lemma_hex_text_injective(a / 16, b / 16);
        assert(a == (a / 16) * 16 + a % 16);
        assert(b == (b / 16) * 16 + b % 16);
    }
}

/// Two correlation ids are equal exactly when they were minted from the same clock reading and
/// the same sequence number; in particular, ids with different sequence numbers differ whatever
/// the clock said.
pub proof fn lemma_correlation_id_injective(nanos1: nat, n1: nat, nanos2: nat, n2: nat)
    ensures
        (correlation_id_text(nanos1, n1) == correlation_id_text(nanos2, n2)) <==> (nanos1
            == nanos2 && n1 == n2),
{
    let x = correlation_id_text(nanos1, n1);
    let y = correlation_id_text(nanos2, n2);
    if x == y {
        let h1 = hex_text(nanos1);
        let h2 = hex_text(nanos2);
        lemma_hex_text_digits(nanos1);
        lemma_hex_text_digits(nanos2);
        lemma_hex_text_digits(n1);
        lemma_hex_text_digits(n2);
        assert(x[h1.len() as int] == '-');
        assert(y[h2.len() as int] == '-');
        if h1.len() < h2.len() {
            assert(y[h1.len() as int] == h2[h1.len() as int]);
            assert(is_hex_digit(h2[h1.len() as int]));
        } else if h2.len() < h1.len() {
            assert(x[h2.len() as int] == h1[h2.len() as int]);
            assert(is_hex_digit(h1[h2.len() as int]));
        }
        assert(h1 =~= x.subrange(0, h1.len() as int));
        assert(h2 =~= y.subrange(0, h2.len() as int));
        lemma_hex_text_injective(nanos1, nanos2);
        assert(hex_text(n1) =~= x.subrange(h1.len() + 1 as int, x.len() as int));
        assert(hex_text(n2) =~= y.subrange(h2.len() + 1 as int, y.len() as int));
        lemma_hex_text_injective(n1, n2);
    }
}

} // verus!
