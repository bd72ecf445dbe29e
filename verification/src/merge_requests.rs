//! The merge-request resource: record type, the state and scope
//! enumerations with their wire encodings, endpoint paths, the listing
//! query builder and the creation body.

use vstd::prelude::*;
use vstd::string::StringExecFns;
use vstd::string::StringSliceAdditionalSpecFns;

use crate::error::GLApiError;
use crate::json::{append_json_string, append_str_field, json_field, json_string};
use crate::query::{pair_views, push_pair};
use crate::text::{push_char, spec_dec, str_eq, u32_to_dec_str};
use crate::users::User;
use crate::utils::{encode, percent_encoded};

verus! {

/// The endpoint path for listing merge requests across projects.
pub fn url_all() -> (r: &'static str)
    ensures
        r@ == "/merge_requests"@,
{
    "/merge_requests"
}

/// The endpoint path for a project's merge requests, with the
/// caller-supplied identifier percent-encoded into the path.
pub fn url_project_mr(project_id: &str) -> (r: String)
    ensures
        r@ == "/projects/"@ + percent_encoded(project_id.spec_bytes()) + "/merge_requests"@,
{
    let mut u = String::from_str("/projects/");
    let id = encode(project_id);
    u.append(id.as_str());
    u.append("/merge_requests");
    u
}

/// A read-only projection of the server's merge-request record.
#[derive(Debug, Clone, PartialEq, Eq)]
pub struct MergeRequest {
    pub id: u32,
    pub iid: u32,
    pub project_id: u32,
    pub title: String,
    pub description: Option<String>,
    pub state: String,
    pub merged_by: Option<User>,
    pub merged_at: Option<String>,
    pub closed_by: Option<User>,
    pub closed_at: Option<String>,
    pub created_at: String,
    pub updated_at: Option<String>,
    pub target_branch: String,
    pub source_branch: String,
    pub author: User,
    pub assignee: Option<User>,
    pub source_project_id: u32,
    pub target_project_id: u32,
    pub work_in_progress: bool,
    pub merge_when_pipeline_succeeds: bool,
    pub merge_status: String,
    pub sha: Option<String>,
    pub merge_commit_sha: Option<String>,
    pub web_url: String,
}

/// The closed set of merge-request states.
#[derive(Debug, Clone, Copy, PartialEq, Eq, Structural)]
pub enum MRState {
    Opened,
    Closed,
    Locked,
    Merged,
}

/// The canonical wire encoding of a merge-request state.
pub open spec fn mr_state_str(st: MRState) -> Seq<char> {
    match st {
        MRState::Opened => "opened"@,
        MRState::Closed => "closed"@,
        MRState::Locked => "locked"@,
        MRState::Merged => "merged"@,
    }
}

/// The parse of a wire string as a merge-request state; strings outside
/// the closed set parse to nothing.
pub open spec fn mr_state_parse(s: Seq<char>) -> Option<MRState> {
    if s == "opened"@ {
        Some(MRState::Opened)
    } else if s == "closed"@ {
        Some(MRState::Closed)
    } else if s == "locked"@ {
        Some(MRState::Locked)
    } else if s == "merged"@ {
        Some(MRState::Merged)
    } else {
        None
    }
}

impl MRState {
    /// The canonical wire encoding of this state.
    pub fn to_str(&self) -> (r: &'static str)
        ensures
            r@ == mr_state_str(*self),
    {
        match self {
            MRState::Opened => "opened",
            MRState::Closed => "closed",
            MRState::Locked => "locked",
            MRState::Merged => "merged",
        }
    }

    /// Parses a wire string; anything outside the closed set fails with
    /// the classified parse error carrying that exact string.
    pub fn from_str(s: &str) -> (r: Result<MRState, GLApiError>)
        ensures
            mr_state_parse(s@) matches Some(v) ==> (r matches Ok(w) && w == v),
            mr_state_parse(s@) is None ==> (r matches Err(e) && e
                matches GLApiError::ParseError(t) && t@ == s@),
    {
        if str_eq(s, "opened") {
            Ok(MRState::Opened)
        } else if str_eq(s, "closed") {
            Ok(MRState::Closed)
        } else if str_eq(s, "locked") {
            Ok(MRState::Locked)
        } else if str_eq(s, "merged") {
            Ok(MRState::Merged)
        } else {
            Err(GLApiError::ParseError(s.to_owned()))
        }
    }
}

/// Serializing a merge-request state and parsing it back yields the same
/// state.
pub proof fn lemma_mr_state_round_trip(st: MRState)
    ensures
        mr_state_parse(mr_state_str(st)) == Some(st),
{
    reveal_strlit("opened");
    reveal_strlit("closed");
    reveal_strlit("locked");
    reveal_strlit("merged");
    assert("opened"@[0] == 'o' && "closed"@[0] == 'c' && "locked"@[0] == 'l' && "merged"@[0]
        == 'm');
}

/// The closed set of merge-request listing scopes.
#[derive(Debug, Clone, Copy, PartialEq, Eq, Structural)]
pub enum MRScope {
    CreatedByMe,
    AssignedToMe,
    All,
}

/// The canonical wire encoding of a scope.
pub open spec fn mr_scope_str(sc: MRScope) -> Seq<char> {
    match sc {
        MRScope::CreatedByMe => "created_by_me"@,
        MRScope::AssignedToMe => "assigned_to_me"@,
        MRScope::All => "all"@,
    }
}

/// The parse of a wire string as a scope; strings outside the closed set
/// parse to nothing.
pub open spec fn mr_scope_parse(s: Seq<char>) -> Option<MRScope> {
    if s == "created_by_me"@ {
        Some(MRScope::CreatedByMe)
    } else if s == "assigned_to_me"@ {
        Some(MRScope::AssignedToMe)
    } else if s == "all"@ {
        Some(MRScope::All)
    } else {
        None
    }
}

impl MRScope {
    /// The canonical wire encoding of this scope.
    pub fn to_str(&self) -> (r: &'static str)
        ensures
            r@ == mr_scope_str(*self),
    {
        match self {
            MRScope::CreatedByMe => "created_by_me",
            MRScope::AssignedToMe => "assigned_to_me",
            MRScope::All => "all",
        }
    }

    /// Parses a wire string; anything outside the closed set fails with
    /// the classified parse error carrying that exact string.
    pub fn from_str(s: &str) -> (r: Result<MRScope, GLApiError>)
        ensures
            mr_scope_parse(s@) matches Some(v) ==> (r matches Ok(w) && w == v),
            mr_scope_parse(s@) is None ==> (r matches Err(e) && e
                matches GLApiError::ParseError(t) && t@ == s@),
    {
        if str_eq(s, "created_by_me") {
            Ok(MRScope::CreatedByMe)
        } else if str_eq(s, "assigned_to_me") {
            Ok(MRScope::AssignedToMe)
        } else if str_eq(s, "all") {
            Ok(MRScope::All)
        } else {
            Err(GLApiError::ParseError(s.to_owned()))
        }
    }
}

/// Serializing a scope and parsing it back yields the same scope.
pub proof fn lemma_mr_scope_round_trip(sc: MRScope)
    ensures
        mr_scope_parse(mr_scope_str(sc)) == Some(sc),
{
    reveal_strlit("created_by_me");
    reveal_strlit("assigned_to_me");
    reveal_strlit("all");
    assert("created_by_me"@.len() == 13 && "assigned_to_me"@.len() == 14 && "all"@.len() == 3);
}

/// The query parameters of the merge-request listing.  Every field is
/// optional and omitted from the serialization unless set.
#[derive(Debug, Clone)]
pub struct GetMergeRequestsQuery {
    pub state: Option<MRState>,
    pub scope: Option<MRScope>,
    pub author_id: Option<u32>,
    pub assignee_id: Option<u32>,
    pub source_branch: Option<String>,
    pub target_branch: Option<String>,
    pub search: Option<String>,
}

impl GetMergeRequestsQuery {
    /// The canonical wire pairs, in declaration order, holding exactly
    /// the fields that were set.
    pub open spec fn spec_pairs(self) -> Seq<(Seq<char>, Seq<char>)> {
        (match self.state {
            Some(st) => seq![("state"@, mr_state_str(st))],
            None => seq![],
        }) + (match self.scope {
            Some(sc) => seq![("scope"@, mr_scope_str(sc))],
            None => seq![],
        }) + (match self.author_id {
            Some(n) => seq![("author_id"@, spec_dec(n as nat))],
            None => seq![],
        }) + (match self.assignee_id {
            Some(n) => seq![("assignee_id"@, spec_dec(n as nat))],
            None => seq![],
        }) + (match self.source_branch {
            Some(s) => seq![("source_branch"@, s@)],
            None => seq![],
        }) + (match self.target_branch {
            Some(s) => seq![("target_branch"@, s@)],
            None => seq![],
        }) + (match self.search {
            Some(s) => seq![("search"@, s@)],
            None => seq![],
        })
    }

    /// A query with no filters: it has no fixed defaults, so its
    /// serialization is empty.
    pub fn new() -> (r: GetMergeRequestsQuery)
        ensures
            r.state is None,
            r.scope is None,
            r.author_id is None,
            r.assignee_id is None,
            r.source_branch is None,
            r.target_branch is None,
            r.search is None,
            r.spec_pairs() =~= Seq::<(Seq<char>, Seq<char>)>::empty(),
    {
        GetMergeRequestsQuery {
            state: None,
            scope: None,
            author_id: None,
            assignee_id: None,
            source_branch: None,
            target_branch: None,
            search: None,
        }
    }

    /// Sets the state filter and leaves every other field unchanged.
    pub fn state(self, val: MRState) -> (r: GetMergeRequestsQuery)
        ensures
            r == (GetMergeRequestsQuery { state: Some(val), ..self }),
    {
        GetMergeRequestsQuery { state: Some(val), ..self }
    }

    /// Sets the scope filter and leaves every other field unchanged.
    pub fn scope(self, val: MRScope) -> (r: GetMergeRequestsQuery)
        ensures
            r == (GetMergeRequestsQuery { scope: Some(val), ..self }),
    {
        GetMergeRequestsQuery { scope: Some(val), ..self }
    }

    /// Sets the author filter and leaves every other field unchanged.
    pub fn author_id(self, val: u32) -> (r: GetMergeRequestsQuery)
        ensures
            r == (GetMergeRequestsQuery { author_id: Some(val), ..self }),
    {
        GetMergeRequestsQuery { author_id: Some(val), ..self }
    }

    /// Sets the assignee filter and leaves every other field unchanged.
    pub fn assignee_id(self, val: u32) -> (r: GetMergeRequestsQuery)
        ensures
            r == (GetMergeRequestsQuery { assignee_id: Some(val), ..self }),
    {
        GetMergeRequestsQuery { assignee_id: Some(val), ..self }
    }

    /// Sets the source-branch filter and leaves every other field
    /// unchanged.
    pub fn source_branch(self, val: &str) -> (r: GetMergeRequestsQuery)
        ensures
            r.source_branch matches Some(s) && s@ == val@,
            r.state == self.state,
            r.scope == self.scope,
            r.author_id == self.author_id,
            r.assignee_id == self.assignee_id,
            r.target_branch == self.target_branch,
            r.search == self.search,
    {
        GetMergeRequestsQuery { source_branch: Some(val.to_owned()), ..self }
    }

    /// Sets the target-branch filter and leaves every other field
    /// unchanged.
    pub fn target_branch(self, val: &str) -> (r: GetMergeRequestsQuery)
        ensures
            r.target_branch matches Some(s) && s@ == val@,
            r.state == self.state,
            r.scope == self.scope,
            r.author_id == self.author_id,
            r.assignee_id == self.assignee_id,
            r.source_branch == self.source_branch,
            r.search == self.search,
    {
        GetMergeRequestsQuery { target_branch: Some(val.to_owned()), ..self }
    }

    /// Sets the search filter and leaves every other field unchanged.
    pub fn search(self, val: &str) -> (r: GetMergeRequestsQuery)
        ensures
            r.search matches Some(s) && s@ == val@,
            r.state == self.state,
            r.scope == self.scope,
            r.author_id == self.author_id,
            r.assignee_id == self.assignee_id,
            r.source_branch == self.source_branch,
            r.target_branch == self.target_branch,
    {
        GetMergeRequestsQuery { search: Some(val.to_owned()), ..self }
    }

    /// Serializes exactly the non-absent wire fields.
    pub fn to_query_pairs(&self) -> (r: Vec<(String, String)>)
        ensures
            pair_views(r@) == self.spec_pairs(),
    {
        let ghost seg_state: Seq<(Seq<char>, Seq<char>)> = match self.state {
            Some(st) => seq![("state"@, mr_state_str(st))],
            None => seq![],
        };
        let ghost seg_scope: Seq<(Seq<char>, Seq<char>)> = match self.scope {
            Some(sc) => seq![("scope"@, mr_scope_str(sc))],
            None => seq![],
        };
        let ghost seg_author: Seq<(Seq<char>, Seq<char>)> = match self.author_id {
            Some(n) => seq![("author_id"@, spec_dec(n as nat))],
            None => seq![],
        };
        let ghost seg_assignee: Seq<(Seq<char>, Seq<char>)> = match self.assignee_id {
            Some(n) => seq![("assignee_id"@, spec_dec(n as nat))],
            None => seq![],
        };
        let ghost seg_source: Seq<(Seq<char>, Seq<char>)> = match &self.source_branch {
            Some(s) => seq![("source_branch"@, s@)],
            None => seq![],
        };
        let ghost seg_target: Seq<(Seq<char>, Seq<char>)> = match &self.target_branch {
            Some(s) => seq![("target_branch"@, s@)],
            None => seq![],
        };
        let ghost seg_search: Seq<(Seq<char>, Seq<char>)> = match &self.search {
            Some(s) => seq![("search"@, s@)],
            None => seq![],
        };
        let mut v: Vec<(String, String)> = Vec::new();
        if let Some(st) = &self.state {
            push_pair(&mut v, "state", st.to_str());
        }
        proof {
            assert(pair_views(v@) =~= seg_state);
        }
        if let Some(sc) = &self.scope {
            push_pair(&mut v, "scope", sc.to_str());
        }
        proof {
            assert(pair_views(v@) =~= seg_state + seg_scope);
        }
        if let Some(n) = self.author_id {
            let d = u32_to_dec_str(n);
            push_pair(&mut v, "author_id", d.as_str());
        }
        proof {
            assert(pair_views(v@) =~= seg_state + seg_scope + seg_author);
        }
        if let Some(n) = self.assignee_id {
            let d = u32_to_dec_str(n);
            push_pair(&mut v, "assignee_id", d.as_str());
        }
        proof {
            assert(pair_views(v@) =~= seg_state + seg_scope + seg_author + seg_assignee);
        }
        if let Some(s) = &self.source_branch {
            push_pair(&mut v, "source_branch", s.as_str());
        }
        proof {
            assert(pair_views(v@) =~= seg_state + seg_scope + seg_author + seg_assignee
                + seg_source);
        }
        if let Some(s) = &self.target_branch {
            push_pair(&mut v, "target_branch", s.as_str());
        }
        proof {
            assert(pair_views(v@) =~= seg_state + seg_scope + seg_author + seg_assignee
                + seg_source + seg_target);
        }
        if let Some(s) = &self.search {
            push_pair(&mut v, "search", s.as_str());
        }
        proof {
            assert(pair_views(v@) =~= seg_state + seg_scope + seg_author + seg_assignee
                + seg_source + seg_target + seg_search);
            assert(pair_views(v@) =~= self.spec_pairs());
        }
        v
    }
}

/// The body of a merge-request creation: the mandatory fields, plus an
/// optional assignee that is omitted from the payload when absent.
#[derive(Debug, Clone)]
pub struct CreateMRBody {
    pub project: String,
    pub source_branch: String,
    pub target_branch: String,
    pub title: String,
    pub assignee_id: Option<u32>,
}

impl CreateMRBody {
    /// The canonical JSON payload of this body.
    pub open spec fn spec_json(self) -> Seq<char> {
        seq!['{'] + json_field("project"@, json_string(self.project@)) + seq![','] + json_field(
            "source_branch"@,
            json_string(self.source_branch@),
        ) + seq![','] + json_field("target_branch"@, json_string(self.target_branch@)) + seq![',']
            + json_field("title"@, json_string(self.title@)) + (match self.assignee_id {
            Some(n) => seq![','] + json_field("assignee_id"@, spec_dec(n as nat)),
            None => seq![],
        }) + seq!['}']
    }

    /// Renders the JSON payload.
    pub fn to_json(&self) -> (r: String)
        ensures
            r@ == self.spec_json(),
    {
        let mut out = String::new();
        push_char(&mut out, '{');
        append_str_field(&mut out, "project", self.project.as_str());
        push_char(&mut out, ',');
        append_str_field(&mut out, "source_branch", self.source_branch.as_str());
        push_char(&mut out, ',');
        append_str_field(&mut out, "target_branch", self.target_branch.as_str());
        push_char(&mut out, ',');
        append_str_field(&mut out, "title", self.title.as_str());
        if let Some(n) = self.assignee_id {
            push_char(&mut out, ',');
            append_json_string(&mut out, "assignee_id");
            push_char(&mut out, ':');
            let d = u32_to_dec_str(n);
            out.append(d.as_str());
        }
        push_char(&mut out, '}');
        proof {
            assert(out@ =~= self.spec_json());
        }
        out
    }
}

} // verus!
