//! Verified JSON text rendering for request bodies.
//!
//! The crate renders its own request payloads so that the exact bytes put
//! on the wire are pinned by contracts: strings are quoted with `"`, the
//! quote, the backslash and all control characters are escaped, and
//! everything else is copied unchanged.

use vstd::prelude::*;
use vstd::string::StrSliceExecFns;
use vstd::string::StringExecFns;

use crate::text::{hex_lower, push_char};

verus! {

/// The escaping of one character inside a JSON string.
pub open spec fn json_escape_char(c: char) -> Seq<char> {
    if c == '"' {
        seq!['\\', '"']
    } else if c == '\\' {
        seq!['\\', '\\']
    } else if c == '\u{8}' {
        seq!['\\', 'b']
    } else if c == '\u{c}' {
        seq!['\\', 'f']
    } else if c == '\n' {
        seq!['\\', 'n']
    } else if c == '\r' {
        seq!['\\', 'r']
    } else if c == '\t' {
        seq!['\\', 't']
    } else if (c as u32) < 32 {
        seq!['\\', 'u', '0', '0', hex_lower((c as u32 / 16) as u8), hex_lower((c as u32 % 16) as u8)]
    } else {
        seq![c]
    }
}

/// The escaping of a whole character sequence.
pub open spec fn json_escaped(s: Seq<char>) -> Seq<char>
    decreases s.len(),
{
    if s.len() == 0 {
        seq![]
    } else {
        json_escape_char(s[0]) + json_escaped(s.drop_first())
    }
}

/// A JSON string literal: the escaped characters between quotes.
pub open spec fn json_string(s: Seq<char>) -> Seq<char> {
    seq!['"'] + json_escaped(s) + seq!['"']
}

/// One `"name":value` member of a JSON object.
pub open spec fn json_field(name: Seq<char>, val: Seq<char>) -> Seq<char> {
    json_string(name) + seq![':'] + val
}

/// Escaping distributes over appending one character at the end.
proof fn lemma_json_escaped_push(t: Seq<char>, c: char)
    ensures
        json_escaped(t.push(c)) == json_escaped(t) + json_escape_char(c),
    decreases t.len(),
{
    let s = t.push(c);
    if t.len() == 0 {
        assert(s.len() == 1);
        assert(s[0] == c);
        assert(s.drop_first() =~= Seq::<char>::empty());
        assert(json_escaped(s) == json_escape_char(c) + json_escaped(s.drop_first()));
        assert(json_escaped(s.drop_first()) == Seq::<char>::empty());
        assert(json_escaped(t) == Seq::<char>::empty());
        assert(json_escaped(s) =~= json_escaped(t) + json_escape_char(c));
    } else {
        assert(s.drop_first() =~= t.drop_first().push(c));
        lemma_json_escaped_push(t.drop_first(), c);
        assert(s[0] == t[0]);
        assert(json_escaped(s) == json_escape_char(t[0]) + json_escaped(s.drop_first()));
        assert(json_escaped(t) == json_escape_char(t[0]) + json_escaped(t.drop_first()));
        assert(json_escaped(s) =~= json_escaped(t) + json_escape_char(c));
    }
}

/// The one-character string for lowercase hexadecimal digit `d`.
fn hex_lower_str(d: u32) -> (r: &'static str)
    requires
        d < 16,
    ensures
        r@ == seq![hex_lower(d as u8)],
{
    proof {
        reveal_strlit("0");
        reveal_strlit("1");
        reveal_strlit("2");
        reveal_strlit("3");
        reveal_strlit("4");
        reveal_strlit("5");
        reveal_strlit("6");
        reveal_strlit("7");
        reveal_strlit("8");
        reveal_strlit("9");
        reveal_strlit("a");
        reveal_strlit("b");
        reveal_strlit("c");
        reveal_strlit("d");
        reveal_strlit("e");
        reveal_strlit("f");
    }
    let r = match d {
        0 => "0",
        1 => "1",
        2 => "2",
        3 => "3",
        4 => "4",
        5 => "5",
        6 => "6",
        7 => "7",
        8 => "8",
        9 => "9",
        10 => "a",
        11 => "b",
        12 => "c",
        13 => "d",
        14 => "e",
        _ => "f",
    };
    proof {
        assert(r@ =~= seq![hex_lower(d as u8)]);
    }
    r
}

/// Appends the escaping of one character.
fn escape_char_into(out: &mut String, c: char)
    ensures
        final(out)@ == old(out)@ + json_escape_char(c),
{
    let ghost pre = out@;
    let u = c as u32;
    if c == '"' {
        proof {
            reveal_strlit("\\\"");
        }
        out.append("\\\"");
        proof {
            assert(("\\\"")@ =~= json_escape_char(c));
        }
    } else if c == '\\' {
        proof {
            reveal_strlit("\\\\");
        }
        out.append("\\\\");
        proof {
            assert(("\\\\")@ =~= json_escape_char(c));
        }
    } else if c == '\u{8}' {
        proof {
            reveal_strlit("\\b");
        }
        out.append("\\b");
        proof {
            assert(("\\b")@ =~= json_escape_char(c));
        }
    } else if c == '\u{c}' {
        proof {
            reveal_strlit("\\f");
        }
        out.append("\\f");
        proof {
            assert(("\\f")@ =~= json_escape_char(c));
        }
    } else if c == '\n' {
        proof {
            reveal_strlit("\\n");
        }
        out.append("\\n");
        proof {
            assert(("\\n")@ =~= json_escape_char(c));
        }
    } else if c == '\r' {
        proof {
            reveal_strlit("\\r");
        }
        out.append("\\r");
        proof {
            assert(("\\r")@ =~= json_escape_char(c));
        }
    } else if c == '\t' {
        proof {
            reveal_strlit("\\t");
        }
        out.append("\\t");
        proof {
            assert(("\\t")@ =~= json_escape_char(c));
        }
    } else if u < 32 {
        proof {
            reveal_strlit("\\u00");
        }
        out.append("\\u00");
        out.append(hex_lower_str(u / 16));
        out.append(hex_lower_str(u % 16));
        proof {
            assert(out@ =~= pre + json_escape_char(c));
        }
    } else {
        push_char(out, c);
        proof {
            assert(out@ =~= pre + json_escape_char(c));
        }
    }
}

/// Appends the escaping of a whole string.
fn escape_into(out: &mut String, s: &str)
    ensures
        final(out)@ == old(out)@ + json_escaped(s@),
{
    let ghost pre = out@;
    let len = s.unicode_len();
    let mut i: usize = 0;
    while i < len
        invariant
            len == s@.len(),
            i <= len,
            out@ == pre + json_escaped(s@.subrange(0, i as int)),
        decreases len - i,
    {
        let c = s.get_char(i);
        escape_char_into(out, c);
        proof {
            assert(s@.subrange(0, i + 1) =~= s@.subrange(0, i as int).push(c));
            lemma_json_escaped_push(s@.subrange(0, i as int), c);
            assert(out@ =~= pre + json_escaped(s@.subrange(0, i + 1)));
        }
        i = i + 1;
    }
    proof {
        assert(s@.subrange(0, len as int) =~= s@);
    }
}

/// Appends a quoted, escaped JSON string literal.
pub fn append_json_string(out: &mut String, s: &str)
    ensures
        final(out)@ == old(out)@ + json_string(s@),
{
    let ghost pre = out@;
    push_char(out, '"');
    escape_into(out, s);
    push_char(out, '"');
    proof {
        assert(out@ =~= pre + json_string(s@));
    }
}

/// Appends one `"name":"value"` object member with a string value.
pub fn append_str_field(out: &mut String, name: &str, val: &str)
    ensures
        final(out)@ == old(out)@ + json_field(name@, json_string(val@)),
{
    let ghost pre = out@;
    append_json_string(out, name);
    push_char(out, ':');
    append_json_string(out, val);
    proof {
        assert(out@ =~= pre + json_field(name@, json_string(val@)));
    }
}

} // verus!
