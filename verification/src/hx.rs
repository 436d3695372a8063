//! The request header by which the client-side library marks a request that
//! wants a fragment instead of a whole page.

use vstd::prelude::*;

verus! {

/// The name of the header, in lower case.
pub const HX_REQUEST: &'static str = "hx-request";

/// The bytes of a text whose characters are all ASCII.
pub open spec fn ascii_bytes(text: Seq<char>) -> Seq<u8> {
    Seq::new(text.len(), |i: int| text[i] as u8)
}

/// The bytes of the header value `true`.
pub open spec fn true_bytes() -> Seq<u8> {
    ascii_bytes("true"@)
}

/// The bytes of the header value `false`.
pub open spec fn false_bytes() -> Seq<u8> {
    ascii_bytes("false"@)
}

/// Whether `value` is the ASCII text `text`, byte for byte.
fn is_text(value: &[u8], text: &str) -> (same: bool)
    requires
        text.is_ascii(),
    ensures
        same == (value@ == ascii_bytes(text@)),
{
    broadcast use vstd::string::is_ascii_spec_bytes;

    let bytes = text.as_bytes();
    assert(bytes@ =~= ascii_bytes(text@));
    if value.len() != bytes.len() {
        return false;
    }
    let mut i: usize = 0;
    while i < value.len()
        invariant
            i <= value@.len(),
            value@.len() == bytes@.len(),
            bytes@ == ascii_bytes(text@),
            forall|j: int| 0 <= j < i ==> value@[j] == bytes@[j],
        decreases value@.len() - i,
    {
        if value[i] != bytes[i] {
            assert(value@[i as int] != ascii_bytes(text@)[i as int]);
            return false;
        }
        i += 1;
    }
    assert(value@ =~= bytes@);
    true
}

/// The value of the header.
#[derive(Debug, Clone, Copy, PartialEq, Eq, Structural)]
pub struct HXRequest(pub bool);

/// Whether a request wants a fragment.
#[derive(Debug, Clone, Copy, PartialEq, Eq, Structural)]
pub struct IsHXRequest(pub bool);

impl HXRequest {
    /// What the first value of the header means, if anything.
    pub open spec fn decoded(first: Option<Seq<u8>>) -> Option<HXRequest> {
        match first {
            Some(value) => if value == false_bytes() {
                Some(HXRequest(false))
            } else if value == true_bytes() {
                Some(HXRequest(true))
            } else {
                None
            },
            None => None,
        }
    }

    /// Reads the header from its first value: `false` and `true`, written
    /// exactly so, are the two values it can have. Anything else, and a
    /// header without a value, is invalid.
    pub fn decode(first: Option<&[u8]>) -> (header: Option<HXRequest>)
        ensures
            header == Self::decoded(
                match first {
                    Some(value) => Some(value@),
                    None => None,
                },
            ),
    {
        proof {
            reveal_strlit("true");
            reveal_strlit("false");
        }
        match first {
            Some(value) => {
                if is_text(value, "false") {
                    Some(HXRequest(false))
                } else if is_text(value, "true") {
                    Some(HXRequest(true))
                } else {
                    None
                }
            },
            None => None,
        }
    }

    /// The text that stands for this value.
    pub open spec fn encoded(self) -> Seq<char> {
        if self.0 {
            "true"@
        } else {
            "false"@
        }
    }

    /// A value that was written is read back as it was.
    pub proof fn lemma_decode_encoded(self)
        ensures
            Self::decoded(Some(ascii_bytes(self.encoded()))) == Some(self),
    {
        reveal_strlit("true");
        reveal_strlit("false");
        assert(true_bytes().len() == 4);
        assert(false_bytes().len() == 5);
    }

    /// The value to send for this header.
    pub fn encode(&self) -> (value: &'static str)
        ensures
            value@ == self.encoded(),
    {
        if self.0 {
            "true"
        } else {
            "false"
        }
    }
}

impl IsHXRequest {
    /// A request wants a fragment exactly when it carries the header with
    /// the value `true`. A request without the header, or with an invalid
    /// one (`None`), does not.
    pub fn from_header(header: Option<HXRequest>) -> (hx: IsHXRequest)
        ensures
            hx.0 == (header == Some(HXRequest(true))),
    {
        IsHXRequest(
            match header {
                Some(HXRequest(true)) => true,
                _ => false,
            },
        )
    }
}

} // verus!
