//! Small verified text utilities shared by the wire-format code:
//! character-exact string equality, decimal rendering and parsing of
//! integers, and hexadecimal digit tables.

use vstd::prelude::*;
use vstd::string::StrSliceExecFns;
use vstd::string::StringExecFns;

use crate::error::GLApiError;

verus! {

/// The decimal digit character for `d` (`d < 10`).
pub open spec fn dec_digit(d: nat) -> char {
    ((48 + d) as u8) as char
}

/// The canonical decimal rendering of `n`, most significant digit first,
/// with no leading zeros (and `"0"` for zero).
pub open spec fn spec_dec(n: nat) -> Seq<char>
    decreases n,
{
    if n < 10 {
        seq![dec_digit(n)]
    } else {
        spec_dec(n / 10) + seq![dec_digit(n % 10)]
    }
}

/// Whether `c` is an ASCII decimal digit.
pub open spec fn is_dec_digit(c: char) -> bool {
    48 <= c as u32 <= 57
}

/// The numeric value of a digit character.
pub open spec fn digit_val(c: char) -> nat {
    (c as u32 - 48) as nat
}

/// Whether every character of `s` is an ASCII decimal digit.
pub open spec fn all_dec_digits(s: Seq<char>) -> bool {
    forall|i: int| 0 <= i < s.len() ==> is_dec_digit(#[trigger] s[i])
}

/// The value of a digit string, most significant digit first.
pub open spec fn dec_val(s: Seq<char>) -> nat
    decreases s.len(),
{
    if s.len() == 0 {
        0
    } else {
        dec_val(s.drop_last()) * 10 + digit_val(s.last())
    }
}

/// The uppercase hexadecimal digit character for `d` (`d < 16`).
pub open spec fn hex_upper(d: u8) -> char {
    if d < 10 {
        ((48 + d) as u8) as char
    } else {
        ((55 + d) as u8) as char
    }
}

/// The lowercase hexadecimal digit character for `d` (`d < 16`).
pub open spec fn hex_lower(d: u8) -> char {
    if d < 10 {
        ((48 + d) as u8) as char
    } else {
        ((87 + d) as u8) as char
    }
}

/// Relies on `String::push`: appends exactly the given character.
#[verifier::external_body]
pub(crate) fn push_char(s: &mut String, c: char)
    ensures
        final(s)@ == old(s)@.push(c),
{
    s.push(c);
}

/// Character-exact equality of two string slices.
pub fn str_eq(a: &str, b: &str) -> (r: bool)
    ensures
        r == (a@ == b@),
{
    let la = a.unicode_len();
    let lb = b.unicode_len();
    if la != lb {
        return false;
    }
    let mut i: usize = 0;
    while i < la
        invariant
            la == a@.len(),
            la == b@.len(),
            i <= la,
            forall|j: int| 0 <= j < i ==> a@[j] == b@[j],
        decreases la - i,
    {
        if a.get_char(i) != b.get_char(i) {
            return false;
        }
        i = i + 1;
    }
    proof {
        assert(a@ =~= b@);
    }
    true
}

/// The one-character string for decimal digit `d`.
fn dec_digit_str(d: u32) -> (r: &'static str)
    requires
        d < 10,
    ensures
        r@ == seq![dec_digit(d as nat)],
{
    proof {
        reveal_strlit("0");
        reveal_strlit("1");
        reveal_strlit("2");
        reveal_strlit("3");
        reveal_strlit("4");
        reveal_strlit("5");
        reveal_strlit("6");
        reveal_strlit("7");
        reveal_strlit("8");
        reveal_strlit("9");
    }
    let r = match d {
        0 => "0",
        1 => "1",
        2 => "2",
        3 => "3",
        4 => "4",
        5 => "5",
        6 => "6",
        7 => "7",
        8 => "8",
        _ => "9",
    };
    proof {
        assert(r@ =~= seq![dec_digit(d as nat)]);
    }
    r
}

/// Renders `n` in decimal, matching `spec_dec`.
pub fn u32_to_dec_str(n: u32) -> (r: String)
    ensures
        r@ == spec_dec(n as nat),
    decreases n,
{
    if n < 10 {
        let r = String::from_str(dec_digit_str(n));
        proof {
            assert(r@ =~= spec_dec(n as nat));
        }
        r
    } else {
        let mut r = u32_to_dec_str(n / 10);
        r.append(dec_digit_str(n % 10));
        proof {
            assert(r@ =~= spec_dec(n as nat));
        }
        r
    }
}

/// Whether `s` parses as a `u32`: an optional leading `+`, then at least
/// one decimal digit, with a value that fits in 32 bits.
pub open spec fn u32_parse_digits(s: Seq<char>) -> Seq<char> {
    if s.len() > 0 && s[0] == '+' {
        s.subrange(1, s.len() as int)
    } else {
        s
    }
}

pub open spec fn u32_parse_ok(s: Seq<char>) -> bool {
    let ds = u32_parse_digits(s);
    ds.len() > 0 && all_dec_digits(ds) && dec_val(ds) <= u32::MAX
}

pub open spec fn u32_parse_val(s: Seq<char>) -> nat {
    dec_val(u32_parse_digits(s))
}

/// Extending a digit string never decreases its value.
proof fn lemma_dec_val_prefix(s: Seq<char>, i: int)
    requires
        0 <= i <= s.len(),
    ensures
        dec_val(s.subrange(0, i)) <= dec_val(s),
    decreases s.len() - i,
{
    if i < s.len() {
        lemma_dec_val_prefix(s, i + 1);
        let p = s.subrange(0, i + 1);
        assert(p.drop_last() =~= s.subrange(0, i));
    } else {
        assert(s.subrange(0, i) =~= s);
    }
}

/// Parses a decimal `u32`, failing with the classified parse error
/// carrying the original string on any input that is not a `u32`.
pub fn parse_u32(s: &str) -> (r: Result<u32, GLApiError>)
    ensures
        u32_parse_ok(s@) ==> (r matches Ok(n) && n == u32_parse_val(s@)),
        !u32_parse_ok(s@) ==> (r matches Err(e) && e matches GLApiError::ParseError(t) && t@
            == s@),
{
    let len = s.unicode_len();
    let start: usize = if len > 0 && s.get_char(0) == '+' {
        1
    } else {
        0
    };
    let ghost ds = u32_parse_digits(s@);
    proof {
        assert(ds =~= s@.subrange(start as int, len as int));
    }
    if start == len {
        return Err(GLApiError::ParseError(s.to_owned()));
    }
    let mut acc: u32 = 0;
    let mut i: usize = start;
    while i < len
        invariant
            start <= i <= len,
            len == s@.len(),
            start <= 1,
            ds == u32_parse_digits(s@),
            ds == s@.subrange(start as int, len as int),
            all_dec_digits(s@.subrange(start as int, i as int)),
            acc == dec_val(s@.subrange(start as int, i as int)),
        decreases len - i,
    {
        let c = s.get_char(i);
        let u = c as u32;
        if !(48 <= u && u <= 57) {
            proof {
                assert(ds[i - start] == s@[i as int]);
                assert(!is_dec_digit(ds[i - start]));
                assert(!all_dec_digits(ds));
                assert(!u32_parse_ok(s@));
            }
            return Err(GLApiError::ParseError(s.to_owned()));
        }
        let d = u - 48;
        let wide = (acc as u64) * 10 + (d as u64);
        proof {
            let p = s@.subrange(start as int, i + 1);
            assert(p.drop_last() =~= s@.subrange(start as int, i as int));
            assert(dec_val(p) == acc * 10 + d);
        }
        if wide > u32::MAX as u64 {
            proof {
                let p = s@.subrange(start as int, i + 1);
                assert(ds.subrange(0, i + 1 - start) =~= p);
                lemma_dec_val_prefix(ds, i + 1 - start);
                assert(dec_val(p) > u32::MAX);
                assert(dec_val(ds) > u32::MAX);
                assert(!u32_parse_ok(s@));
            }
            return Err(GLApiError::ParseError(s.to_owned()));
        }
        acc = wide as u32;
        i = i + 1;
    }
    proof {
        assert(s@.subrange(start as int, len as int) =~= ds);
    }
    Ok(acc)
}

} // verus!
