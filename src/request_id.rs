//! Correlation ids: each request keeps the id its caller sent when that id
//! is a valid header value, and gets a fresh random one otherwise; the
//! response carries the same id.

use vstd::prelude::*;
use vstd::string::*;
use crate::outside::{new_uuid, uuid_text_char};

verus! {

/// The header that carries the correlation id.
pub const REQUEST_ID_HEADER: &'static str = "x-request-id";

/// A character that may stand in a header value read as text: visible
/// ASCII, space or tab.
pub open spec fn header_char(c: char) -> bool {
    (' ' <= c && c <= '~') || c == '\t'
}

pub open spec fn header_text(s: Seq<char>) -> bool {
    forall|i: int| 0 <= i < s.len() ==> #[trigger] header_char(s[i])
}

pub fn is_header_text(s: &str) -> (r: bool)
    ensures
        r == header_text(s@),
{
    let n = s.unicode_len();
    let mut i: usize = 0;
    while i < n
        invariant
            n == s@.len(),
            i <= n,
            forall|j: int| 0 <= j < i ==> #[trigger] header_char(s@[j]),
        decreases n - i,
    {
        let c = s.get_char(i);
        if !((' ' <= c && c <= '~') || c == '\t') {
            assert(!header_char(s@[i as int]));
            return false;
        }
        i = i + 1;
    }
    true
}

/// The id a request is handled under: the incoming one when it is present
/// and valid header text, otherwise `fresh`.
pub open spec fn chosen_id(incoming: Option<Seq<char>>, fresh: Seq<char>) -> Seq<char> {
    match incoming {
        Some(v) => if header_text(v) {
            v
        } else {
            fresh
        },
        None => fresh,
    }
}

pub fn choose_request_id(incoming: Option<&str>, fresh: &str) -> (r: String)
    ensures
        r@ == chosen_id(crate::files::opt_view(incoming), fresh@),
{
    match incoming {
        Some(v) => {
            if is_header_text(v) {
                String::from_str(v)
            } else {
                String::from_str(fresh)
            }
        },
        None => String::from_str(fresh),
    }
}

/// The id for a request whose correlation header reads `incoming`. It is
/// always valid header text, so it can be set on the response as it is.
pub fn request_id_for(incoming: Option<&str>) -> (r: String)
    ensures
        header_text(r@),
        incoming.is_some() && header_text(incoming.unwrap()@) ==> r@ == incoming.unwrap()@,
        !(incoming.is_some() && header_text(incoming.unwrap()@)) ==> r@.len() == 36 && forall|i: int|
            0 <= i < r@.len() ==> #[trigger] uuid_text_char(r@[i]),
{
    let fresh = new_uuid();
    assert(header_text(fresh@)) by {
        assert forall|i: int| 0 <= i < fresh@.len() implies #[trigger] header_char(fresh@[i]) by {
            assert(uuid_text_char(fresh@[i]));
        }
    }
    choose_request_id(incoming, fresh.as_str())
}

/// Builds the correlation-id stage around an inner service.
#[derive(Debug, Clone, Copy)]
pub struct RequestIdLayer;

impl RequestIdLayer {
    pub fn new() -> (r: Self) {
        RequestIdLayer
    }

    /// Wraps `inner` in the correlation-id stage.
    pub fn layer<S>(&self, inner: S) -> (r: RequestIdService<S>)
        ensures
            r.inner == inner,
    {
        RequestIdService { inner }
    }
}

/// The correlation-id stage wrapped around `inner`.
#[derive(Debug, Clone)]
pub struct RequestIdService<S> {
    pub inner: S,
}

} // verus!
