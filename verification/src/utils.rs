//! URL escaping of caller-supplied path segments.
//!
//! Project identifiers may be paths containing slashes or other special
//! characters; wherever one is substituted into an endpoint path it is
//! percent-encoded first.

use vstd::prelude::*;
use vstd::string::StringSliceAdditionalSpecFns;

use crate::text::hex_upper;

verus! {

/// Whether `b` is an ASCII alphanumeric byte, the only kind that passes
/// through the escaping unchanged.
pub open spec fn is_ascii_alnum_byte(b: u8) -> bool {
    ||| 48 <= b <= 57
    ||| 65 <= b <= 90
    ||| 97 <= b <= 122
}

/// The escaping of one byte: alphanumerics stand for themselves, every
/// other byte becomes `%` and two uppercase hexadecimal digits.
pub open spec fn percent_encode_byte_chars(b: u8) -> Seq<char> {
    if is_ascii_alnum_byte(b) {
        seq![b as char]
    } else {
        seq!['%', hex_upper(b / 16), hex_upper(b % 16)]
    }
}

/// The escaping of a byte string, byte by byte.
pub open spec fn percent_encoded(bs: Seq<u8>) -> Seq<char>
    decreases bs.len(),
{
    if bs.len() == 0 {
        seq![]
    } else {
        percent_encode_byte_chars(bs[0]) + percent_encoded(bs.drop_first())
    }
}

/// Relies on `percent_encoding::percent_encode` with the
/// `NON_ALPHANUMERIC` set: each input byte that is not an ASCII
/// alphanumeric is replaced by `%` and its two uppercase hexadecimal
/// digits; alphanumeric bytes are copied unchanged.
#[verifier::external_body]
pub fn encode(s: &str) -> (r: String)
    ensures
        r@ == percent_encoded(s.spec_bytes()),
{
    percent_encoding::percent_encode(s.as_bytes(), percent_encoding::NON_ALPHANUMERIC).to_string()
}

} // verus!
