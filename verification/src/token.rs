//! The vendor's bearer token, as it arrives in a response header.

use vstd::prelude::*;
use vstd::slice::slice_subrange;
use vstd::string::StringExecFns;
use crate::error::Error;

verus! {

/// The header that carries the vendor's bearer token.
pub open spec fn spec_token_header() -> Seq<char> {
    "x-amzn-remapped-authorization"@
}

/// The header that carries the vendor's bearer token.
pub fn token_header() -> (r: &'static str)
    ensures
        r@ == spec_token_header(),
{
    "x-amzn-remapped-authorization"
}

/// The bytes of `Bearer` and a space.
pub open spec fn bearer_prefix() -> Seq<u8> {
    seq![66u8, 101u8, 97u8, 114u8, 101u8, 114u8, 32u8]
}

/// A byte that may stand in a header value read as text: a visible ASCII
/// character, a space or a tab.
pub open spec fn visible(b: u8) -> bool {
    (32 <= b && b < 127) || b == 9
}

/// Every byte of the value may be read as text.
pub open spec fn all_visible(value: Seq<u8>) -> bool {
    forall|i: int| 0 <= i < value.len() ==> visible(#[trigger] value[i])
}

/// The value starts with `Bearer` and a space.
pub open spec fn has_bearer_prefix(value: Seq<u8>) -> bool {
    value.len() >= 7 && value.subrange(0, 7) == bearer_prefix()
}

/// The characters that ASCII bytes spell.
pub open spec fn ascii_text(bytes: Seq<u8>) -> Seq<char> {
    Seq::new(bytes.len(), |i: int| bytes[i] as char)
}

/// What the token exchange makes of the header.
pub enum TokenOutcome {
    /// The header is absent.
    Missing,
    /// The value holds a byte that cannot be read as text.
    Unreadable,
    /// The value does not start with `Bearer` and a space.
    NoPrefix,
    /// The token: what follows the prefix.
    Token(Seq<char>),
}

/// What the token exchange makes of the header, for each header.
pub open spec fn token_outcome(header: Option<Seq<u8>>) -> TokenOutcome {
    match header {
        None => TokenOutcome::Missing,
        Some(value) => if !all_visible(value) {
            TokenOutcome::Unreadable
        } else if !has_bearer_prefix(value) {
            TokenOutcome::NoPrefix
        } else {
            TokenOutcome::Token(ascii_text(value.subrange(7, value.len() as int)))
        },
    }
}

/// `String::from_utf8_lossy` of std, on ASCII bytes: each byte becomes the
/// character of its code.
#[verifier::external_body]
fn ascii_string(bytes: &[u8]) -> (s: String)
    requires
        forall|i: int| 0 <= i < bytes@.len() ==> bytes@[i] < 128,
    ensures
        s@ == ascii_text(bytes@),
{
    String::from_utf8_lossy(bytes).into_owned()
}

/// Tells whether every byte of a header value may be read as text.
pub fn is_all_visible(value: &[u8]) -> (r: bool)
    ensures
        r == all_visible(value@),
{
    let mut i: usize = 0;
    while i < value.len()
        invariant
            i <= value@.len(),
            forall|j: int| 0 <= j < i ==> visible(#[trigger] value@[j]),
        decreases value@.len() - i,
    {
        let b: u8 = value[i];
        if !((32 <= b && b < 127) || b == 9) {
            return false;
        }
        i = i + 1;
    }
    true
}

/// Tells whether a header value starts with `Bearer` and a space.
pub fn starts_with_bearer(value: &[u8]) -> (r: bool)
    ensures
        r == has_bearer_prefix(value@),
{
    if value.len() < 7 {
        return false;
    }
    let r = value[0] == 66 && value[1] == 101 && value[2] == 97 && value[3] == 114 && value[4]
        == 101 && value[5] == 114 && value[6] == 32;
    proof {
        let head = value@.subrange(0, 7);
        if r {
            assert(head =~= bearer_prefix());
        } else {
            assert(head[0] == value@[0] && head[1] == value@[1] && head[2] == value@[2]
                && head[3] == value@[3] && head[4] == value@[4] && head[5] == value@[5]
                && head[6] == value@[6]);
        }
    }
    r
}

/// Takes the vendor's bearer token out of the response header.
///
/// An absent header is a missing header, named in the error. A value with a
/// byte that is no text is an invalid header value. A value that does not
/// start with `Bearer` and a space is an invalid token format. Otherwise the
/// token is all that follows the prefix.
pub fn bearer_token(header: Option<&[u8]>) -> (r: Result<String, Error>)
    ensures
        match token_outcome(
            match header {
                Some(v) => Some(v@),
                None => None,
            },
        ) {
            TokenOutcome::Missing => r matches Err(Error::MissingHeader(name)) && name@
                == spec_token_header(),
            TokenOutcome::Unreadable => r matches Err(Error::InvalidHeaderValue),
            TokenOutcome::NoPrefix => r matches Err(Error::InvalidTokenFormat(_)),
            TokenOutcome::Token(token) => r matches Ok(t) && t@ == token,
        },
{
    let value = match header {
        Some(v) => v,
        None => {
            return Err(Error::MissingHeader(String::from_str(token_header())));
        },
    };
    if !is_all_visible(value) {
        return Err(Error::InvalidHeaderValue);
    }
    if !starts_with_bearer(value) {
        return Err(
            Error::InvalidTokenFormat(String::from_str("Token doesn't start with 'Bearer '")),
        );
    }
    let rest = slice_subrange(value, 7, value.len());
    proof {
        assert forall|i: int| 0 <= i < rest@.len() implies rest@[i] < 128 by {
            assert(visible(value@[i + 7]));
        }
    }
    Ok(ascii_string(rest))
}

} // verus!
