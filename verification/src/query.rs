//! Wire-format query parameters.
//!
//! Every query builder serializes to a list of `(name, value)` pairs; a
//! field that was never set is omitted entirely, never sent as null or
//! empty.  The pairs are modelled as sequences of character sequences.

use vstd::prelude::*;
use vstd::string::StringExecFns;

verus! {

/// The character-level view of a list of wire pairs.
pub open spec fn pair_views(ps: Seq<(String, String)>) -> Seq<(Seq<char>, Seq<char>)> {
    ps.map_values(|p: (String, String)| (p.0@, p.1@))
}

/// The wire rendering of a boolean value.
pub open spec fn bool_str(b: bool) -> Seq<char> {
    if b {
        "true"@
    } else {
        "false"@
    }
}

/// The wire rendering of a boolean value, as a string slice.
pub fn bool_to_str(b: bool) -> (r: &'static str)
    ensures
        r@ == bool_str(b),
{
    if b {
        "true"
    } else {
        "false"
    }
}

/// Appends one wire pair.
pub(crate) fn push_pair(v: &mut Vec<(String, String)>, key: &str, val: &str)
    ensures
        pair_views(final(v)@) == pair_views(old(v)@).push((key@, val@)),
{
    v.push((String::from_str(key), String::from_str(val)));
    proof {
        assert(pair_views(v@) =~= pair_views(old(v)@).push((key@, val@)));
    }
}

} // verus!
