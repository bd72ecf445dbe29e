//! The project resource: record type, the visibility enumeration and its
//! wire encoding, endpoint paths, and the project-listing query builder.

use vstd::prelude::*;
use vstd::string::StringExecFns;
use vstd::string::StringSliceAdditionalSpecFns;

use crate::error::GLApiError;
use crate::query::{bool_str, bool_to_str, pair_views, push_pair};
use crate::text::str_eq;
use crate::utils::{encode, percent_encoded};

verus! {

/// The endpoint path for listing projects.
pub fn url_all() -> (r: &'static str)
    ensures
        r@ == "/projects"@,
{
    "/projects"
}

/// The endpoint path for one project, with the caller-supplied identifier
/// percent-encoded into the path.
pub fn url_one(project: &str) -> (r: String)
    ensures
        r@ == "/projects/"@ + percent_encoded(project.spec_bytes()),
{
    let mut u = String::from_str("/projects/");
    let id = encode(project);
    u.append(id.as_str());
    u
}

/// A read-only projection of the server's project record.
#[derive(Debug, Clone, PartialEq, Eq)]
pub struct Project {
    pub id: u32,
    pub description: Option<String>,
    pub default_branch: String,
    pub ssh_url_to_repo: String,
    pub http_url_to_repo: String,
    pub web_url: String,
    pub readme_url: Option<String>,
    pub name: String,
    pub path: String,
}

/// The closed set of project visibilities.
#[derive(Debug, Clone, Copy, PartialEq, Eq, Structural)]
pub enum ProjectVisibility {
    Public,
    Internal,
    Private,
}

/// The canonical wire encoding of a visibility.
pub open spec fn visibility_str(v: ProjectVisibility) -> Seq<char> {
    match v {
        ProjectVisibility::Public => "public"@,
        ProjectVisibility::Internal => "internal"@,
        ProjectVisibility::Private => "private"@,
    }
}

/// The parse of a wire string as a visibility; strings outside the closed
/// set parse to nothing.
pub open spec fn visibility_parse(s: Seq<char>) -> Option<ProjectVisibility> {
    if s == "public"@ {
        Some(ProjectVisibility::Public)
    } else if s == "internal"@ {
        Some(ProjectVisibility::Internal)
    } else if s == "private"@ {
        Some(ProjectVisibility::Private)
    } else {
        None
    }
}

impl ProjectVisibility {
    /// The canonical wire encoding of this visibility.
    pub fn to_str(&self) -> (r: &'static str)
        ensures
            r@ == visibility_str(*self),
    {
        match self {
            ProjectVisibility::Public => "public",
            ProjectVisibility::Internal => "internal",
            ProjectVisibility::Private => "private",
        }
    }

    /// Parses a wire string; anything outside the closed set fails with
    /// the classified parse error carrying that exact string.
    pub fn from_str(s: &str) -> (r: Result<ProjectVisibility, GLApiError>)
        ensures
            visibility_parse(s@) matches Some(v) ==> (r matches Ok(w) && w == v),
            visibility_parse(s@) is None ==> (r matches Err(e) && e
                matches GLApiError::ParseError(t) && t@ == s@),
    {
        if str_eq(s, "public") {
            Ok(ProjectVisibility::Public)
        } else if str_eq(s, "internal") {
            Ok(ProjectVisibility::Internal)
        } else if str_eq(s, "private") {
            Ok(ProjectVisibility::Private)
        } else {
            Err(GLApiError::ParseError(s.to_owned()))
        }
    }
}

/// Serializing a visibility and parsing it back yields the same value.
pub proof fn lemma_visibility_round_trip(v: ProjectVisibility)
    ensures
        visibility_parse(visibility_str(v)) == Some(v),
{
    reveal_strlit("public");
    reveal_strlit("internal");
    reveal_strlit("private");
    assert("public"@.len() == 6 && "internal"@.len() == 8 && "private"@.len() == 7);
}

/// The query parameters of the project listing.  Every field is optional
/// and omitted from the serialization unless set.
#[derive(Debug, Clone)]
pub struct GetProjectsQuery {
    pub archived: Option<bool>,
    pub visibility: Option<ProjectVisibility>,
    pub search: Option<String>,
    pub owned: Option<bool>,
    pub membership: Option<bool>,
}

impl GetProjectsQuery {
    /// The canonical wire pairs, in declaration order, holding exactly
    /// the fields that were set.
    pub open spec fn spec_pairs(self) -> Seq<(Seq<char>, Seq<char>)> {
        (match self.archived {
            Some(b) => seq![("archived"@, bool_str(b))],
            None => seq![],
        }) + (match self.visibility {
            Some(v) => seq![("visibility"@, visibility_str(v))],
            None => seq![],
        }) + (match self.search {
            Some(s) => seq![("search"@, s@)],
            None => seq![],
        }) + (match self.owned {
            Some(b) => seq![("owned"@, bool_str(b))],
            None => seq![],
        }) + (match self.membership {
            Some(b) => seq![("membership"@, bool_str(b))],
            None => seq![],
        })
    }

    /// A query with no filters: it has no fixed defaults, so its
    /// serialization is empty.
    pub fn new() -> (r: GetProjectsQuery)
        ensures
            r.archived is None,
            r.visibility is None,
            r.search is None,
            r.owned is None,
            r.membership is None,
            r.spec_pairs() =~= Seq::<(Seq<char>, Seq<char>)>::empty(),
    {
        GetProjectsQuery {
            archived: None,
            visibility: None,
            search: None,
            owned: None,
            membership: None,
        }
    }

    /// Sets the archived filter and leaves every other field unchanged.
    pub fn archived(self, val: bool) -> (r: GetProjectsQuery)
        ensures
            r == (GetProjectsQuery { archived: Some(val), ..self }),
    {
        GetProjectsQuery { archived: Some(val), ..self }
    }

    /// Sets the visibility filter and leaves every other field unchanged.
    pub fn visibility(self, val: ProjectVisibility) -> (r: GetProjectsQuery)
        ensures
            r == (GetProjectsQuery { visibility: Some(val), ..self }),
    {
        GetProjectsQuery { visibility: Some(val), ..self }
    }

    /// Sets the search filter and leaves every other field unchanged.
    pub fn search(self, val: &str) -> (r: GetProjectsQuery)
        ensures
            r.search matches Some(s) && s@ == val@,
            r.archived == self.archived,
            r.visibility == self.visibility,
            r.owned == self.owned,
            r.membership == self.membership,
    {
        GetProjectsQuery { search: Some(val.to_owned()), ..self }
    }

    /// Sets the owned filter and leaves every other field unchanged.
    pub fn owned(self, val: bool) -> (r: GetProjectsQuery)
        ensures
            r == (GetProjectsQuery { owned: Some(val), ..self }),
    {
        GetProjectsQuery { owned: Some(val), ..self }
    }

    /// Sets the membership filter and leaves every other field unchanged.
    pub fn membership(self, val: bool) -> (r: GetProjectsQuery)
        ensures
            r == (GetProjectsQuery { membership: Some(val), ..self }),
    {
        GetProjectsQuery { membership: Some(val), ..self }
    }

    /// Serializes exactly the non-absent wire fields.
    pub fn to_query_pairs(&self) -> (r: Vec<(String, String)>)
        ensures
            pair_views(r@) == self.spec_pairs(),
    {
        let mut v: Vec<(String, String)> = Vec::new();
        if let Some(b) = self.archived {
            push_pair(&mut v, "archived", bool_to_str(b));
        }
        if let Some(vis) = &self.visibility {
            push_pair(&mut v, "visibility", vis.to_str());
        }
        if let Some(s) = &self.search {
            push_pair(&mut v, "search", s.as_str());
        }
        if let Some(b) = self.owned {
            push_pair(&mut v, "owned", bool_to_str(b));
        }
        if let Some(b) = self.membership {
            push_pair(&mut v, "membership", bool_to_str(b));
        }
        proof {
            assert(pair_views(v@) =~= self.spec_pairs());
        }
        v
    }
}

} // verus!
