//! Display helpers over plain strings.

use vstd::prelude::*;
use vstd::string::StrSliceExecFns;
use vstd::string::StringExecFns;

verus! {

/// Whether `s` has text on more than one line: a line break somewhere
/// before its last character.  (A single trailing newline does not make
/// a second line.)
pub open spec fn is_multiline(s: Seq<char>) -> bool {
    exists|i: int| 0 <= i < s.len() - 1 && s[i] == '\n'
}

/// The characters before the first line break.
pub open spec fn first_line(s: Seq<char>) -> Seq<char>
    decreases s.len(),
{
    if s.len() == 0 {
        seq![]
    } else if s[0] == '\n' {
        seq![]
    } else {
        seq![s[0]] + first_line(s.drop_first())
    }
}

/// `t` without a trailing carriage return.
pub open spec fn strip_cr(t: Seq<char>) -> Seq<char> {
    if t.len() > 0 && t.last() == '\r' {
        t.drop_last()
    } else {
        t
    }
}

/// What `get_one_line` returns: the input itself when it is a single
/// line, else its first line followed by an ellipsis.
pub open spec fn one_line(s: Seq<char>) -> Seq<char> {
    if is_multiline(s) {
        strip_cr(first_line(s)) + "..."@
    } else {
        s
    }
}

/// When the characters before `i` hold no line break, the first line is
/// exactly the prefix of length `i`.
proof fn lemma_first_line_prefix(s: Seq<char>, i: int)
    requires
        0 <= i <= s.len(),
        forall|j: int| 0 <= j < i ==> s[j] != '\n',
        i < s.len() ==> s[i] == '\n',
        i == s.len() ==> true,
    ensures
        i < s.len() ==> first_line(s) == s.subrange(0, i),
    decreases i,
{
    if i < s.len() {
        if i == 0 {
            assert(first_line(s) =~= s.subrange(0, 0));
        } else {
            let t = s.drop_first();
            assert(forall|j: int| 0 <= j < i - 1 ==> t[j] != '\n');
            assert(t[i - 1] == '\n');
            lemma_first_line_prefix(t, i - 1);
            assert(first_line(s) == seq![s[0]] + first_line(t));
            assert(seq![s[0]] + t.subrange(0, i - 1) =~= s.subrange(0, i));
        }
    }
}

/// The index of the first line break, when there is one.
fn find_nl(s: &str) -> (r: Option<usize>)
    ensures
        r matches Some(i) ==> i < s@.len() && s@[i as int] == '\n' && (forall|j: int|
            0 <= j < i ==> s@[j] != '\n'),
        r is None ==> forall|j: int| 0 <= j < s@.len() ==> s@[j] != '\n',
{
    let len = s.unicode_len();
    let mut i: usize = 0;
    while i < len
        invariant
            len == s@.len(),
            i <= len,
            forall|j: int| 0 <= j < i ==> s@[j] != '\n',
        decreases len - i,
    {
        if s.get_char(i) == '\n' {
            return Some(i);
        }
        i = i + 1;
    }
    None
}

/// Collapses a multi-line string for display: a single-line string is
/// returned unchanged (a trailing newline alone does not count); text
/// spanning several lines becomes its first line, without a trailing
/// carriage return, followed by an ellipsis.
pub fn get_one_line(s: &str) -> (r: String)
    ensures
        r@ == one_line(s@),
{
    let len = s.unicode_len();
    match find_nl(s) {
        Some(i) => {
            if i + 1 < len {
                proof {
                    assert(is_multiline(s@));
                    lemma_first_line_prefix(s@, i as int);
                }
                let head = if i > 0 && s.get_char(i - 1) == '\r' {
                    let h = s.substring_char(0, i - 1);
                    proof {
                        assert(s@.subrange(0, i as int).last() == '\r');
                        assert(s@.subrange(0, i as int).drop_last() =~= s@.subrange(0, i - 1));
                    }
                    h
                } else {
                    let h = s.substring_char(0, i);
                    proof {
                        assert(strip_cr(s@.subrange(0, i as int)) == s@.subrange(0, i as int));
                    }
                    h
                };
                let mut out = String::from_str(head);
                out.append("...");
                out
            } else {
                proof {
                    assert(forall|k: int| 0 <= k < s@.len() - 1 ==> s@[k] != '\n');
                    assert(!is_multiline(s@));
                }
                s.to_owned()
            }
        },
        None => {
            proof {
                assert(!is_multiline(s@));
            }
            s.to_owned()
        },
    }
}

} // verus!
