//! A request header taken by name.

use vstd::prelude::*;

verus! {

/// The name of the header that carries the entity tag a request depends on.
pub const IF_MATCH: &'static str = "If-Match";

/// The name of the header by which the client-side library marks its own
/// requests.
pub const HX_REQUEST: &'static str = "HX-Request";

/// The value of a request header.
#[derive(Debug, Clone, Copy, PartialEq, Eq)]
pub struct Header<'a> {
    pub value: &'a str,
}

impl<'a> Header<'a> {
    /// The header, from what looking it up in a request gave: its one value,
    /// or `None` where the request does not carry it, in which case the
    /// request is to be passed on.
    pub fn from_lookup(found: Option<&'a str>) -> (header: Option<Header<'a>>)
        ensures
            header == match found {
                Some(value) => Some(Header { value }),
                None => None,
            },
    {
        match found {
            Some(value) => Some(Header { value }),
            None => None,
        }
    }
}

} // verus!
