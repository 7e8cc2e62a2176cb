//! Request planning for the HTTP and WebSocket transports: the method and URL of every REST
//! operation, which HTTP statuses carry a response body to decode, and the URLs of the streaming
//! subscriptions.

use vstd::prelude::*;
use crate::text::{chars_of, push_char, push_str};
use vstd::utf8::encode_utf8;

verus! {

/// An HTTP method.
#[derive(Clone, Copy, Debug, PartialEq, Eq, Structural)]
pub enum HttpMethod {
    Get,
    Post,
    Delete,
    Patch,
}

/// One REST operation of the cache server, with the path parameters it needs.
#[derive(Clone, Copy, Debug)]
pub enum ApiCall<'a> {
    CreateCache,
    PutItem { cache_id: &'a str },
    PutTimedItem { cache_id: &'a str },
    GetItem { cache_id: &'a str, key: &'a str },
    DeleteItem { cache_id: &'a str, key: &'a str },
    DeleteCache { cache_id: &'a str },
    BulkOps,
    GetCacheItems { cache_id: &'a str },
    ClearCache { cache_id: &'a str },
    PatchItem { cache_id: &'a str, key: &'a str },
    CancelItemRemoval { cache_id: &'a str, key: &'a str },
    GetCaches,
    GetStats,
    GetTimers,
    CreateCounterCache,
    PutCounter { cache_id: &'a str },
    PutTimedCounter { cache_id: &'a str },
    GetCounter { cache_id: &'a str, key: &'a str },
    DeleteCounter { cache_id: &'a str, key: &'a str },
    DeleteCounterCache { cache_id: &'a str },
    IncrementCounter { cache_id: &'a str },
    DecrementCounter { cache_id: &'a str },
    SetCounter { cache_id: &'a str },
    GetCounterItems { cache_id: &'a str },
    ClearCounterCache { cache_id: &'a str },
    CancelCounterItemRemoval { cache_id: &'a str, key: &'a str },
    GetCounterCaches,
    GetCounterStats,
}

/// The method and URL of a planned request.
#[derive(Clone, Debug)]
pub struct HttpRequest {
    pub method: HttpMethod,
    pub url: String,
}

impl<'a> ApiCall<'a> {
    /// The HTTP method of this operation.
    pub open spec fn spec_method(self) -> HttpMethod {
        match self {
            ApiCall::CreateCache => HttpMethod::Post,
            ApiCall::PutItem { .. } => HttpMethod::Post,
            ApiCall::PutTimedItem { .. } => HttpMethod::Post,
            ApiCall::GetItem { .. } => HttpMethod::Get,
            ApiCall::DeleteItem { .. } => HttpMethod::Delete,
            ApiCall::DeleteCache { .. } => HttpMethod::Delete,
            ApiCall::BulkOps => HttpMethod::Post,
            ApiCall::GetCacheItems { .. } => HttpMethod::Get,
            ApiCall::ClearCache { .. } => HttpMethod::Patch,
            ApiCall::PatchItem { .. } => HttpMethod::Patch,
            ApiCall::CancelItemRemoval { .. } => HttpMethod::Post,
            ApiCall::GetCaches => HttpMethod::Get,
            ApiCall::GetStats => HttpMethod::Get,
            ApiCall::GetTimers => HttpMethod::Get,
            ApiCall::CreateCounterCache => HttpMethod::Post,
            ApiCall::PutCounter { .. } => HttpMethod::Post,
            ApiCall::PutTimedCounter { .. } => HttpMethod::Post,
            ApiCall::GetCounter { .. } => HttpMethod::Get,
            ApiCall::DeleteCounter { .. } => HttpMethod::Delete,
            ApiCall::DeleteCounterCache { .. } => HttpMethod::Delete,
            ApiCall::IncrementCounter { .. } => HttpMethod::Post,
            ApiCall::DecrementCounter { .. } => HttpMethod::Post,
            ApiCall::SetCounter { .. } => HttpMethod::Post,
            ApiCall::GetCounterItems { .. } => HttpMethod::Get,
            ApiCall::ClearCounterCache { .. } => HttpMethod::Patch,
            ApiCall::CancelCounterItemRemoval { .. } => HttpMethod::Post,
            ApiCall::GetCounterCaches => HttpMethod::Get,
            ApiCall::GetCounterStats => HttpMethod::Get,
        }
    }

    /// The path of this operation, to be appended to the server's base URL.
    pub open spec fn spec_path(self) -> Seq<char> {
        match self {
            ApiCall::CreateCache => "/api/v1/cache"@,
            ApiCall::PutItem { cache_id } => "/api/v1/cache/"@ + cache_id@,
            ApiCall::PutTimedItem { cache_id } => "/api/v1/cache/timed/"@ + cache_id@,
            ApiCall::GetItem { cache_id, key } => "/api/v1/cache/"@ + cache_id@ + "/"@ + key@,
            ApiCall::DeleteItem { cache_id, key } => "/api/v1/cache/"@ + cache_id@ + "/"@ + key@,
            ApiCall::DeleteCache { cache_id } => "/api/v1/cache/"@ + cache_id@,
            ApiCall::BulkOps => "/api/v1/cache/bulkops"@,
            ApiCall::GetCacheItems { cache_id } => "/api/v1/cache/"@ + cache_id@,
            ApiCall::ClearCache { cache_id } => "/api/v1/cache/"@ + cache_id@,
            ApiCall::PatchItem { cache_id, key } => "/api/v1/cache/"@ + cache_id@ + "/"@ + key@,
            ApiCall::CancelItemRemoval { cache_id, key } => "/api/v1/cache/"@ + cache_id@ + "/"@ + key@ + "/cancel-removal"@,
            ApiCall::GetCaches => "/api/v1/caches"@,
            ApiCall::GetStats => "/api/v1/stats"@,
            ApiCall::GetTimers => "/api/v1/timers"@,
            ApiCall::CreateCounterCache => "/api/v1/counters/"@,
            ApiCall::PutCounter { cache_id } => "/api/v1/counters/"@ + cache_id@,
            ApiCall::PutTimedCounter { cache_id } => "/api/v1/counters/timed/"@ + cache_id@,
            ApiCall::GetCounter { cache_id, key } => "/api/v1/counters/"@ + cache_id@ + "/"@ + key@,
            ApiCall::DeleteCounter { cache_id, key } => "/api/v1/counters/"@ + cache_id@ + "/"@ + key@,
            ApiCall::DeleteCounterCache { cache_id } => "/api/v1/counters/"@ + cache_id@,
            ApiCall::IncrementCounter { cache_id } => "/api/v1/counters/increment/"@ + cache_id@,
            ApiCall::DecrementCounter { cache_id } => "/api/v1/counters/decrement/"@ + cache_id@,
            ApiCall::SetCounter { cache_id } => "/api/v1/counters/set/"@ + cache_id@,
            ApiCall::GetCounterItems { cache_id } => "/api/v1/counters/"@ + cache_id@,
            ApiCall::ClearCounterCache { cache_id } => "/api/v1/counters/"@ + cache_id@,
            ApiCall::CancelCounterItemRemoval { cache_id, key } => "/api/v1/counters/"@ + cache_id@ + "/"@ + key@ + "/cancel-removal"@,
            ApiCall::GetCounterCaches => "/api/v1/counters-caches"@,
            ApiCall::GetCounterStats => "/api/v1/counters-stats"@,
        }
    }

    /// Whether a response with HTTP status `code` carries a body to decode: any success, and
    /// the "business error" statuses 400 and 404 (and 401, except for the snapshot and clear
    /// operations of a cache).
    pub open spec fn spec_accepts(self, code: u16) -> bool {
        match self {
            ApiCall::GetCacheItems { .. } | ApiCall::ClearCache { .. } => (200 <= code && code <= 299)
                || code == 404 || code == 400,
            _ => (200 <= code && code <= 299) || code == 400 || code == 401 || code == 404,
        }
    }

    /// Plans the request of this operation against the server at `base_url`.
    pub fn request(self, base_url: &str) -> (r: HttpRequest)
        ensures
            r.method == self.spec_method(),
            r.url@ == base_url@ + self.spec_path(),
    {
        let mut url = String::new();
        push_str(&mut url, base_url);
        let method = match self {
            ApiCall::CreateCache => {
                push_str(&mut url, "/api/v1/cache");
                HttpMethod::Post
            },
            ApiCall::PutItem { cache_id } => {
                push_str(&mut url, "/api/v1/cache/");
                push_str(&mut url, cache_id);
                HttpMethod::Post
            },
            ApiCall::PutTimedItem { cache_id } => {
                push_str(&mut url, "/api/v1/cache/timed/");
                push_str(&mut url, cache_id);
                HttpMethod::Post
            },
            ApiCall::GetItem { cache_id, key } => {
                push_str(&mut url, "/api/v1/cache/");
                push_str(&mut url, cache_id);
                push_str(&mut url, "/");
                push_str(&mut url, key);
                HttpMethod::Get
            },
            ApiCall::DeleteItem { cache_id, key } => {
                push_str(&mut url, "/api/v1/cache/");
                push_str(&mut url, cache_id);
                push_str(&mut url, "/");
                push_str(&mut url, key);
                HttpMethod::Delete
            },
            ApiCall::DeleteCache { cache_id } => {
                push_str(&mut url, "/api/v1/cache/");
                push_str(&mut url, cache_id);
                HttpMethod::Delete
            },
            ApiCall::BulkOps => {
                push_str(&mut url, "/api/v1/cache/bulkops");
                HttpMethod::Post
            },
            ApiCall::GetCacheItems { cache_id } => {
                push_str(&mut url, "/api/v1/cache/");
                push_str(&mut url, cache_id);
                HttpMethod::Get
            },
            ApiCall::ClearCache { cache_id } => {
                push_str(&mut url, "/api/v1/cache/");
                push_str(&mut url, cache_id);
                HttpMethod::Patch
            },
            ApiCall::PatchItem { cache_id, key } => {
                push_str(&mut url, "/api/v1/cache/");
                push_str(&mut url, cache_id);
                push_str(&mut url, "/");
                push_str(&mut url, key);
                HttpMethod::Patch
            },
            ApiCall::CancelItemRemoval { cache_id, key } => {
                push_str(&mut url, "/api/v1/cache/");
                push_str(&mut url, cache_id);
                push_str(&mut url, "/");
                push_str(&mut url, key);
                push_str(&mut url, "/cancel-removal");
                HttpMethod::Post
            },
            ApiCall::GetCaches => {
                push_str(&mut url, "/api/v1/caches");
                HttpMethod::Get
            },
            ApiCall::GetStats => {
                push_str(&mut url, "/api/v1/stats");
                HttpMethod::Get
            },
            ApiCall::GetTimers => {
                push_str(&mut url, "/api/v1/timers");
                HttpMethod::Get
            },
            ApiCall::CreateCounterCache => {
                push_str(&mut url, "/api/v1/counters/");
                HttpMethod::Post
            },
            ApiCall::PutCounter { cache_id } => {
                push_str(&mut url, "/api/v1/counters/");
                push_str(&mut url, cache_id);
                HttpMethod::Post
            },
            ApiCall::PutTimedCounter { cache_id } => {
                push_str(&mut url, "/api/v1/counters/timed/");
                push_str(&mut url, cache_id);
                HttpMethod::Post
            },
            ApiCall::GetCounter { cache_id, key } => {
                push_str(&mut url, "/api/v1/counters/");
                push_str(&mut url, cache_id);
                push_str(&mut url, "/");
                push_str(&mut url, key);
                HttpMethod::Get
            },
            ApiCall::DeleteCounter { cache_id, key } => {
                push_str(&mut url, "/api/v1/counters/");
                push_str(&mut url, cache_id);
                push_str(&mut url, "/");
                push_str(&mut url, key);
                HttpMethod::Delete
            },
            ApiCall::DeleteCounterCache { cache_id } => {
                push_str(&mut url, "/api/v1/counters/");
                push_str(&mut url, cache_id);
                HttpMethod::Delete
            },
            ApiCall::IncrementCounter { cache_id } => {
                push_str(&mut url, "/api/v1/counters/increment/");
                push_str(&mut url, cache_id);
                HttpMethod::Post
            },
            ApiCall::DecrementCounter { cache_id } => {
                push_str(&mut url, "/api/v1/counters/decrement/");
                push_str(&mut url, cache_id);
                HttpMethod::Post
            },
            ApiCall::SetCounter { cache_id } => {
                push_str(&mut url, "/api/v1/counters/set/");
                push_str(&mut url, cache_id);
                HttpMethod::Post
            },
            ApiCall::GetCounterItems { cache_id } => {
                push_str(&mut url, "/api/v1/counters/");
                push_str(&mut url, cache_id);
                HttpMethod::Get
            },
            ApiCall::ClearCounterCache { cache_id } => {
                push_str(&mut url, "/api/v1/counters/");
                push_str(&mut url, cache_id);
                HttpMethod::Patch
            },
            ApiCall::CancelCounterItemRemoval { cache_id, key } => {
                push_str(&mut url, "/api/v1/counters/");
                push_str(&mut url, cache_id);
                push_str(&mut url, "/");
                push_str(&mut url, key);
                push_str(&mut url, "/cancel-removal");
                HttpMethod::Post
            },
            ApiCall::GetCounterCaches => {
                push_str(&mut url, "/api/v1/counters-caches");
                HttpMethod::Get
            },
            ApiCall::GetCounterStats => {
                push_str(&mut url, "/api/v1/counters-stats");
                HttpMethod::Get
            },
        };
        assert(url@ =~= base_url@ + self.spec_path());
        HttpRequest { method, url }
    }

    /// Whether a response with HTTP status `code` to this operation carries a body to decode;
    /// any other status is reported as an error.
    pub fn accepts(self, code: u16) -> (r: bool)
        ensures
            r == self.spec_accepts(code),
    {
        match self {
            ApiCall::GetCacheItems { .. } | ApiCall::ClearCache { .. } => (200 <= code && code <= 299)
                || code == 404 || code == 400,
            _ => (200 <= code && code <= 299) || code == 400 || code == 401 || code == 404,
        }
    }
}

/// Every REST operation goes to its own route of the server's API: creating, reading, writing,
/// patching, clearing and deleting use `POST`, `GET`, `POST`, `PATCH`, `PATCH` and `DELETE` on
/// `/api/v1/cache...` for caches and `/api/v1/counters...` for counters; an item's routes end in
/// `/{cache id}/{key}`, a timed put goes to `.../timed/{cache id}`, and each counter amount
/// operation to `/api/v1/counters/{increment|decrement|set}/{cache id}`, by its own name.
pub proof fn lemma_rest_routes<'a>(c: &'a str, k: &'a str)
    ensures
        ApiCall::CreateCache.spec_method() == HttpMethod::Post,
        ApiCall::CreateCache.spec_path() == "/api/v1/cache"@,
        (ApiCall::PutItem { cache_id: c }).spec_method() == HttpMethod::Post,
        (ApiCall::PutItem { cache_id: c }).spec_path() == "/api/v1/cache/"@ + c@,
        (ApiCall::PutTimedItem { cache_id: c }).spec_method() == HttpMethod::Post,
        (ApiCall::PutTimedItem { cache_id: c }).spec_path() == "/api/v1/cache/timed/"@ + c@,
        (ApiCall::GetItem { cache_id: c, key: k }).spec_method() == HttpMethod::Get,
        (ApiCall::GetItem { cache_id: c, key: k }).spec_path() == "/api/v1/cache/"@ + c@ + "/"@ + k@,
        (ApiCall::DeleteItem { cache_id: c, key: k }).spec_method() == HttpMethod::Delete,
        (ApiCall::DeleteItem { cache_id: c, key: k }).spec_path() == "/api/v1/cache/"@ + c@ + "/"@ + k@,
        (ApiCall::DeleteCache { cache_id: c }).spec_method() == HttpMethod::Delete,
        (ApiCall::DeleteCache { cache_id: c }).spec_path() == "/api/v1/cache/"@ + c@,
        ApiCall::BulkOps.spec_method() == HttpMethod::Post,
        ApiCall::BulkOps.spec_path() == "/api/v1/cache/bulkops"@,
        (ApiCall::GetCacheItems { cache_id: c }).spec_method() == HttpMethod::Get,
        (ApiCall::GetCacheItems { cache_id: c }).spec_path() == "/api/v1/cache/"@ + c@,
        (ApiCall::ClearCache { cache_id: c }).spec_method() == HttpMethod::Patch,
        (ApiCall::ClearCache { cache_id: c }).spec_path() == "/api/v1/cache/"@ + c@,
        (ApiCall::PatchItem { cache_id: c, key: k }).spec_method() == HttpMethod::Patch,
        (ApiCall::PatchItem { cache_id: c, key: k }).spec_path() == "/api/v1/cache/"@ + c@ + "/"@ + k@,
        (ApiCall::CancelItemRemoval { cache_id: c, key: k }).spec_method() == HttpMethod::Post,
        (ApiCall::CancelItemRemoval { cache_id: c, key: k }).spec_path() == "/api/v1/cache/"@ + c@ + "/"@ + k@ + "/cancel-removal"@,
        ApiCall::GetCaches.spec_method() == HttpMethod::Get,
        ApiCall::GetCaches.spec_path() == "/api/v1/caches"@,
        ApiCall::GetStats.spec_method() == HttpMethod::Get,
        ApiCall::GetStats.spec_path() == "/api/v1/stats"@,
        ApiCall::GetTimers.spec_method() == HttpMethod::Get,
        ApiCall::GetTimers.spec_path() == "/api/v1/timers"@,
        ApiCall::CreateCounterCache.spec_method() == HttpMethod::Post,
        ApiCall::CreateCounterCache.spec_path() == "/api/v1/counters/"@,
        (ApiCall::PutCounter { cache_id: c }).spec_method() == HttpMethod::Post,
        (ApiCall::PutCounter { cache_id: c }).spec_path() == "/api/v1/counters/"@ + c@,
        (ApiCall::PutTimedCounter { cache_id: c }).spec_method() == HttpMethod::Post,
        (ApiCall::PutTimedCounter { cache_id: c }).spec_path() == "/api/v1/counters/timed/"@ + c@,
        (ApiCall::GetCounter { cache_id: c, key: k }).spec_method() == HttpMethod::Get,
        (ApiCall::GetCounter { cache_id: c, key: k }).spec_path() == "/api/v1/counters/"@ + c@ + "/"@ + k@,
        (ApiCall::DeleteCounter { cache_id: c, key: k }).spec_method() == HttpMethod::Delete,
        (ApiCall::DeleteCounter { cache_id: c, key: k }).spec_path() == "/api/v1/counters/"@ + c@ + "/"@ + k@,
        (ApiCall::DeleteCounterCache { cache_id: c }).spec_method() == HttpMethod::Delete,
        (ApiCall::DeleteCounterCache { cache_id: c }).spec_path() == "/api/v1/counters/"@ + c@,
        (ApiCall::IncrementCounter { cache_id: c }).spec_method() == HttpMethod::Post,
        (ApiCall::IncrementCounter { cache_id: c }).spec_path() == "/api/v1/counters/increment/"@ + c@,
        (ApiCall::DecrementCounter { cache_id: c }).spec_method() == HttpMethod::Post,
        (ApiCall::DecrementCounter { cache_id: c }).spec_path() == "/api/v1/counters/decrement/"@ + c@,
        (ApiCall::SetCounter { cache_id: c }).spec_method() == HttpMethod::Post,
        (ApiCall::SetCounter { cache_id: c }).spec_path() == "/api/v1/counters/set/"@ + c@,
        (ApiCall::GetCounterItems { cache_id: c }).spec_method() == HttpMethod::Get,
        (ApiCall::GetCounterItems { cache_id: c }).spec_path() == "/api/v1/counters/"@ + c@,
        (ApiCall::ClearCounterCache { cache_id: c }).spec_method() == HttpMethod::Patch,
        (ApiCall::ClearCounterCache { cache_id: c }).spec_path() == "/api/v1/counters/"@ + c@,
        (ApiCall::CancelCounterItemRemoval { cache_id: c, key: k }).spec_method() == HttpMethod::Post,
        (ApiCall::CancelCounterItemRemoval { cache_id: c, key: k }).spec_path() == "/api/v1/counters/"@ + c@ + "/"@ + k@ + "/cancel-removal"@,
        ApiCall::GetCounterCaches.spec_method() == HttpMethod::Get,
        ApiCall::GetCounterCaches.spec_path() == "/api/v1/counters-caches"@,
        ApiCall::GetCounterStats.spec_method() == HttpMethod::Get,
        ApiCall::GetCounterStats.spec_path() == "/api/v1/counters-stats"@,
{
}

/// The three counter amount operations go to three different routes, named after the
/// operation, all with `POST`.
pub proof fn lemma_counter_amount_routes_differ<'a>(c: &'a str)
    ensures
        (ApiCall::IncrementCounter { cache_id: c }).spec_path() != (ApiCall::DecrementCounter { cache_id: c }).spec_path(),
        (ApiCall::IncrementCounter { cache_id: c }).spec_path() != (ApiCall::SetCounter { cache_id: c }).spec_path(),
        (ApiCall::DecrementCounter { cache_id: c }).spec_path() != (ApiCall::SetCounter { cache_id: c }).spec_path(),
{
    reveal_strlit("/api/v1/counters/increment/");
    reveal_strlit("/api/v1/counters/decrement/");
    reveal_strlit("/api/v1/counters/set/");
    let i = (ApiCall::IncrementCounter { cache_id: c }).spec_path();
    let d = (ApiCall::DecrementCounter { cache_id: c }).spec_path();
    let t = (ApiCall::SetCounter { cache_id: c }).spec_path();
    assert(i[17] == 'i' && d[17] == 'd' && t[17] == 's');
}

/// A response carries a body to decode exactly for a success status (2xx), 400 and 404, and for
/// 401 except when taking a snapshot of or clearing a cache.
pub proof fn lemma_accepted_statuses<'a>(call: ApiCall<'a>, code: u16)
    ensures
        call.spec_accepts(code) <==> ((200 <= code <= 299) || code == 400 || code == 404 || (code
            == 401 && !(call is GetCacheItems) && !(call is ClearCache))),
{
}

/// The status that a put-item reply reports when its body does not carry one.
pub fn default_status() -> (s: String)
    ensures
        s@ == "OK"@,
{
    "OK".to_owned()
}

/// A byte that `application/x-www-form-urlencoded` serialization leaves as it is.
pub open spec fn form_unchanged(b: u8) -> bool {
    b == 42 || b == 45 || b == 46 || (48 <= b && b <= 57) || (65 <= b && b <= 90) || b == 95 || (97
        <= b && b <= 122)
}

/// The uppercase hexadecimal digit of `d` (for `d < 16`).
pub open spec fn upper_hex_digit(d: nat) -> char {
    if d < 10 {
        ((d + 48) as u8) as char
    } else {
        ((d + 55) as u8) as char
    }
}

/// The `application/x-www-form-urlencoded` serialization of one byte: `*`, `-`, `.`, `_` and
/// ASCII alphanumerics stand for themselves, a space becomes `+`, and every other byte becomes
/// `%XX` in uppercase hex.
pub open spec fn form_byte(b: u8) -> Seq<char> {
    if form_unchanged(b) {
        seq![b as char]
    } else if b == 32 {
        seq!['+']
    } else {
        seq!['%', upper_hex_digit((b / 16) as nat), upper_hex_digit((b % 16) as nat)]
    }
}

/// The `application/x-www-form-urlencoded` serialization of a byte string.
pub open spec fn form_encoded(bs: Seq<u8>) -> Seq<char>
    decreases bs.len(),
{
    if bs.len() == 0 {
        Seq::empty()
    } else {
        form_encoded(bs.drop_last()) + form_byte(bs.last())
    }
}

/// Serializes the UTF-8 bytes of `s` as an `application/x-www-form-urlencoded` component
/// (`url::form_urlencoded::byte_serialize`, collected). The claim is that the result is the
/// concatenation of [`form_byte`] over the bytes, as that function's source does byte by byte.
#[verifier::external_body]
fn form_urlencode(s: &str) -> (r: String)
    ensures
        r@ == form_encoded(encode_utf8(s@)),
{
    url::form_urlencoded::byte_serialize(s.as_bytes()).collect()
}

/// The query string of a subscription: empty when neither key filter nor mode is set, otherwise
/// `?keys=...&mode=...` with each present value form-encoded.
pub open spec fn ws_query_text(keys: Option<Seq<char>>, mode: Option<Seq<char>>) -> Seq<char> {
    match (keys, mode) {
        (None, None) => Seq::empty(),
        (Some(k), None) => "?keys="@ + form_encoded(encode_utf8(k)),
        (None, Some(m)) => "?mode="@ + form_encoded(encode_utf8(m)),
        (Some(k), Some(m)) => "?keys="@ + form_encoded(encode_utf8(k)) + "&mode="@ + form_encoded(
            encode_utf8(m),
        ),
    }
}

/// The view of an optional string.
pub open spec fn opt_view(o: Option<&str>) -> Option<Seq<char>> {
    match o {
        Some(s) => Some(s@),
        None => None,
    }
}

/// Builds the optional query string of a subscription from its key filter and mode.
pub fn ws_query(keys: Option<&str>, mode: Option<&str>) -> (r: String)
    ensures
        r@ == ws_query_text(opt_view(keys), opt_view(mode)),
{
    let mut q = String::new();
    match keys {
        Some(k) => {
            push_str(&mut q, "?keys=");
            let e = form_urlencode(k);
            push_str(&mut q, e.as_str());
        },
        None => {},
    }
    match mode {
        Some(m) => {
            match keys {
                Some(_) => push_str(&mut q, "&mode="),
                None => push_str(&mut q, "?mode="),
            }
            let e = form_urlencode(m);
            push_str(&mut q, e.as_str());
        },
        None => {},
    }
    q
}

/// `s` without its trailing `/` characters.
pub open spec fn trim_trailing_slashes(s: Seq<char>) -> Seq<char>
    decreases s.len(),
{
    if s.len() > 0 && s.last() == '/' {
        trim_trailing_slashes(s.drop_last())
    } else {
        s
    }
}

/// Returns `s` without its trailing `/` characters (as `str::trim_end_matches('/')`).
pub fn trim_end_slashes(s: &str) -> (r: String)
    ensures
        r@ == trim_trailing_slashes(s@),
{
    let cs = chars_of(s);
    let mut n = cs.len();
    assert(cs@.subrange(0, n as int) =~= s@);
    while n > 0 && cs[n - 1] == '/'
        invariant
            n <= cs@.len(),
            cs@ == s@,
            trim_trailing_slashes(cs@.subrange(0, n as int)) == trim_trailing_slashes(s@),
        decreases n,
    {
        assert(cs@.subrange(0, n as int).drop_last() =~= cs@.subrange(0, n - 1));
        n = n - 1;
    }
    assert(trim_trailing_slashes(cs@.subrange(0, n as int)) == cs@.subrange(0, n as int));
    let mut r = String::new();
    assert(r@ =~= cs@.subrange(0, 0));
    let mut i: usize = 0;
    while i < n
        invariant
            n <= cs@.len(),
            i <= n,
            r@ == cs@.subrange(0, i as int),
        decreases n - i,
    {
        push_char(&mut r, cs[i]);
        assert(cs@.subrange(0, i + 1) =~= cs@.subrange(0, i as int).push(cs@[i as int]));
        i = i + 1;
    }
    r
}

/// Some character of `s` is a comma.
pub open spec fn has_comma(s: Seq<char>) -> bool {
    exists|i: int| 0 <= i < s.len() && s[i] == ','
}

/// Whether `s` contains a comma.
pub fn contains_comma(s: &str) -> (r: bool)
    ensures
        r == has_comma(s@),
{
    let cs = chars_of(s);
    let n = cs.len();
    let mut i: usize = 0;
    while i < n
        invariant
            n == cs@.len(),
            cs@ == s@,
            i <= n,
            forall|j: int| 0 <= j < i ==> cs@[j] != ',',
        decreases n - i,
    {
        if cs[i] == ',' {
            return true;
        }
        i = i + 1;
    }
    false
}

/// The path of a cache subscription: several caches (a comma-separated list) or one, with a
/// snapshot of the current contents first when `hydrate`.
pub open spec fn cache_stream_path(cache_ids: Seq<char>, hydrate: bool) -> Seq<char> {
    if hydrate {
        if has_comma(cache_ids) {
            "api/ws/v1/caches/hydrate"@
        } else {
            "api/ws/v1/cache/hydrate"@
        }
    } else {
        if has_comma(cache_ids) {
            "api/ws/v1/caches"@
        } else {
            "api/ws/v1/cache"@
        }
    }
}

/// The path of a counter-cache subscription, chosen as for [`cache_stream_path`].
pub open spec fn counter_stream_path(cache_ids: Seq<char>, hydrate: bool) -> Seq<char> {
    if hydrate {
        if has_comma(cache_ids) {
            "api/ws/v1/counters/hydrate"@
        } else {
            "api/ws/v1/counter/hydrate"@
        }
    } else {
        if has_comma(cache_ids) {
            "api/ws/v1/counters"@
        } else {
            "api/ws/v1/counter"@
        }
    }
}

/// Trimming keeps a prefix of the text that does not end in `/`, and removes only `/`
/// characters.
pub proof fn lemma_trim_trailing_slashes(s: Seq<char>)
    ensures
        trim_trailing_slashes(s).len() <= s.len(),
        trim_trailing_slashes(s) == s.subrange(0, trim_trailing_slashes(s).len() as int),
        trim_trailing_slashes(s).len() == 0 || trim_trailing_slashes(s).last() != '/',
        forall|i: int| trim_trailing_slashes(s).len() <= i < s.len() ==> s[i] == '/',
    decreases s.len(),
{
    if s.len() > 0 && s.last() == '/' {
        lemma_trim_trailing_slashes(s.drop_last());
        let t = trim_trailing_slashes(s.drop_last());
        assert(t == s.drop_last().subrange(0, t.len() as int));
        assert(t =~= s.subrange(0, t.len() as int));
        assert forall|i: int| t.len() <= i < s.len() implies s[i] == '/' by {
            if i < s.len() - 1 {
                assert(s.drop_last()[i] == s[i]);
            }
        }
    } else {
        assert(s.subrange(0, s.len() as int) =~= s);
    }
}

/// A subscription to one cache (no comma in the list) uses the singular stream path, to several
/// the plural one; hydrating adds `/hydrate` to the path; counter caches use the `counter`
/// paths in place of the `cache` ones.
pub proof fn lemma_stream_paths(cache_ids: Seq<char>)
    ensures
        !has_comma(cache_ids) ==> cache_stream_path(cache_ids, false) == "api/ws/v1/cache"@,
        has_comma(cache_ids) ==> cache_stream_path(cache_ids, false) == "api/ws/v1/caches"@,
        !has_comma(cache_ids) ==> counter_stream_path(cache_ids, false) == "api/ws/v1/counter"@,
        has_comma(cache_ids) ==> counter_stream_path(cache_ids, false) == "api/ws/v1/counters"@,
        cache_stream_path(cache_ids, true) == cache_stream_path(cache_ids, false) + "/hydrate"@,
        counter_stream_path(cache_ids, true) == counter_stream_path(cache_ids, false) + "/hydrate"@,
{
    reveal_strlit("api/ws/v1/cache");
    reveal_strlit("api/ws/v1/caches");
    reveal_strlit("api/ws/v1/counter");
    reveal_strlit("api/ws/v1/counters");
    reveal_strlit("api/ws/v1/cache/hydrate");
    reveal_strlit("api/ws/v1/caches/hydrate");
    reveal_strlit("api/ws/v1/counter/hydrate");
    reveal_strlit("api/ws/v1/counters/hydrate");
    reveal_strlit("/hydrate");
    assert("api/ws/v1/cache/hydrate"@ =~= "api/ws/v1/cache"@ + "/hydrate"@);
    assert("api/ws/v1/caches/hydrate"@ =~= "api/ws/v1/caches"@ + "/hydrate"@);
    assert("api/ws/v1/counter/hydrate"@ =~= "api/ws/v1/counter"@ + "/hydrate"@);
    assert("api/ws/v1/counters/hydrate"@ =~= "api/ws/v1/counters"@ + "/hydrate"@);
}

/// The query of a subscription lists the key filter before the mode, each after its own name,
/// and is empty when neither is set.
pub proof fn lemma_ws_query_shape(k: Seq<char>, m: Seq<char>)
    ensures
        ws_query_text(None, None) == Seq::<char>::empty(),
        ws_query_text(Some(k), None) == "?keys="@ + form_encoded(encode_utf8(k)),
        ws_query_text(None, Some(m)) == "?mode="@ + form_encoded(encode_utf8(m)),
        ws_query_text(Some(k), Some(m)) == ws_query_text(Some(k), None) + "&mode="@ + form_encoded(
            encode_utf8(m),
        ),
{
}

/// Form encoding leaves `*`, `-`, `.`, `_` and ASCII letters and digits as they are, turns a
/// space into `+`, and any other byte into `%` and its two uppercase hex digits.
pub proof fn lemma_form_byte_cases(b: u8)
    ensures
        (b == 42 || b == 45 || b == 46 || b == 95 || (48 <= b <= 57) || (65 <= b <= 90) || (97 <= b
            <= 122)) ==> form_byte(b) == seq![b as char],
        b == 32 ==> form_byte(b) == seq!['+'],
        !(b == 32 || b == 42 || b == 45 || b == 46 || b == 95 || (48 <= b <= 57) || (65 <= b <= 90)
            || (97 <= b <= 122)) ==> form_byte(b).len() == 3 && form_byte(b)[0] == '%' && form_byte(
            b,
        )[1] == upper_hex_digit((b / 16) as nat) && form_byte(b)[2] == upper_hex_digit(
            (b % 16) as nat,
        ),
{
}

/// The URL of a WebSocket subscription to one or more caches (`cache_ids`, comma-separated),
/// with optional key filter(s) (`cacheId:key` or bare `key` tokens, comma-separated) and
/// subscription mode (`full` or `patch`).
pub fn subscription_url(
    ws_url: &str,
    cache_ids: &str,
    hydrate: bool,
    keys: Option<&str>,
    mode: Option<&str>,
) -> (r: String)
    ensures
        r@ == trim_trailing_slashes(ws_url@) + "/"@ + cache_stream_path(cache_ids@, hydrate) + "/"@
            + cache_ids@ + ws_query_text(opt_view(keys), opt_view(mode)),
{
    let mut url = trim_end_slashes(ws_url);
    push_str(&mut url, "/");
    let several = contains_comma(cache_ids);
    if hydrate {
        if several {
            push_str(&mut url, "api/ws/v1/caches/hydrate");
        } else {
            push_str(&mut url, "api/ws/v1/cache/hydrate");
        }
    } else {
        if several {
            push_str(&mut url, "api/ws/v1/caches");
        } else {
            push_str(&mut url, "api/ws/v1/cache");
        }
    }
    push_str(&mut url, "/");
    push_str(&mut url, cache_ids);
    let q = ws_query(keys, mode);
    push_str(&mut url, q.as_str());
    url
}

/// The URL of a WebSocket subscription to one or more counter caches, with optional key
/// filter(s). (The patch mode is for caches only.)
pub fn counter_subscription_url(ws_url: &str, cache_ids: &str, hydrate: bool, keys: Option<&str>) -> (r:
    String)
    ensures
        r@ == trim_trailing_slashes(ws_url@) + "/"@ + counter_stream_path(cache_ids@, hydrate)
            + "/"@ + cache_ids@ + ws_query_text(opt_view(keys), None),
{
    let mut url = trim_end_slashes(ws_url);
    push_str(&mut url, "/");
    let several = contains_comma(cache_ids);
    if hydrate {
        if several {
            push_str(&mut url, "api/ws/v1/counters/hydrate");
        } else {
            push_str(&mut url, "api/ws/v1/counter/hydrate");
        }
    } else {
        if several {
            push_str(&mut url, "api/ws/v1/counters");
        } else {
            push_str(&mut url, "api/ws/v1/counter");
        }
    }
    push_str(&mut url, "/");
    push_str(&mut url, cache_ids);
    let q = ws_query(keys, None);
    push_str(&mut url, q.as_str());
    url
}

/// The URL that a cache (or, when `counters`, counter-cache) update stream reconnects to:
/// `base` followed by the plain single-cache stream path of `cache_id`.
pub fn stream_url(base: &str, cache_id: &str, counters: bool) -> (r: String)
    ensures
        r@ == base@ + (if counters {
            "/api/ws/v1/counter/"@
        } else {
            "/api/ws/v1/cache/"@
        }) + cache_id@,
{
    let mut url = String::new();
    push_str(&mut url, base);
    if counters {
        push_str(&mut url, "/api/ws/v1/counter/");
    } else {
        push_str(&mut url, "/api/ws/v1/cache/");
    }
    push_str(&mut url, cache_id);
    url
}

/// The URL of the bidirectional WebSocket endpoint of the server at `ws_url`.
pub fn bidi_url(ws_url: &str) -> (r: String)
    ensures
        r@ == trim_trailing_slashes(ws_url@) + "/api/ws/v1/bidi"@,
{
    let mut url = trim_end_slashes(ws_url);
    push_str(&mut url, "/api/ws/v1/bidi");
    url
}

} // verus!
