//! The repository-branch resource: record types, the endpoint path and
//! the branch-listing query builder.

use vstd::prelude::*;
use vstd::string::StringExecFns;
use vstd::string::StringSliceAdditionalSpecFns;

use crate::query::{pair_views, push_pair};
use crate::text::{spec_dec, u32_to_dec_str};
use crate::utils::{encode, percent_encoded};

verus! {

/// The endpoint path for listing a project's branches, with the
/// caller-supplied identifier percent-encoded into the path.
pub fn url_all(project_id: &str) -> (r: String)
    ensures
        r@ == "/projects/"@ + percent_encoded(project_id.spec_bytes()) + "/repository/branches"@,
{
    let mut u = String::from_str("/projects/");
    let id = encode(project_id);
    u.append(id.as_str());
    u.append("/repository/branches");
    u
}

/// A read-only projection of the server's commit record.
#[derive(Debug, Clone, PartialEq, Eq)]
pub struct Commit {
    pub author_email: String,
    pub author_name: String,
    pub authored_date: String,
    pub id: String,
    pub short_id: String,
    pub title: String,
    pub message: String,
    pub parent_ids: Option<Vec<String>>,
}

/// A read-only projection of the server's branch record.
#[derive(Debug, Clone, PartialEq, Eq)]
pub struct Branch {
    pub name: String,
    pub merge: Option<bool>,
    pub protected: bool,
    pub default: bool,
    pub developers_can_push: bool,
    pub developers_can_merge: bool,
    pub can_push: bool,
    pub commit: Commit,
}

/// The query parameters of the branch listing.
#[derive(Debug, Clone)]
pub struct GetBranchesQuery {
    pub search: Option<String>,
    pub per_page: u8,
}

impl GetBranchesQuery {
    /// The canonical wire pairs: the search filter when set, then the
    /// page size always.
    pub open spec fn spec_pairs(self) -> Seq<(Seq<char>, Seq<char>)> {
        (match self.search {
            Some(s) => seq![("search"@, s@)],
            None => seq![],
        }) + seq![("per_page"@, spec_dec(self.per_page as nat))]
    }

    /// A query with no filters: its serialization holds only the fixed
    /// page-size default.
    pub fn new() -> (r: GetBranchesQuery)
        ensures
            r.search is None,
            r.per_page == 100,
            r.spec_pairs() =~= seq![("per_page"@, spec_dec(100))],
    {
        GetBranchesQuery { search: None, per_page: 100 }
    }

    /// Sets the search filter and leaves the page size unchanged.
    pub fn search(self, val: &str) -> (r: GetBranchesQuery)
        ensures
            r.search matches Some(s) && s@ == val@,
            r.per_page == self.per_page,
    {
        GetBranchesQuery { search: Some(val.to_owned()), ..self }
    }

    /// Serializes exactly the non-absent wire fields.
    pub fn to_query_pairs(&self) -> (r: Vec<(String, String)>)
        ensures
            pair_views(r@) == self.spec_pairs(),
    {
        let mut v: Vec<(String, String)> = Vec::new();
        if let Some(s) = &self.search {
            push_pair(&mut v, "search", s.as_str());
        }
        let pp = u32_to_dec_str(self.per_page as u32);
        push_pair(&mut v, "per_page", pp.as_str());
        proof {
            assert(pair_views(v@) =~= self.spec_pairs());
        }
        v
    }
}

} // verus!
