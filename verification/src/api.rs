//! The typed request dispatcher.
//!
//! A request is split into two verified halves around the one network
//! exchange, which this crate does not perform itself.  The planning half
//! resolves the required credentials through the presence-checked
//! accessors, builds the full endpoint URL and serializes the query or
//! body into a [`RequestPlan`].  The classification half takes the
//! response body's decode outcomes and applies the fixed fallback order:
//! the expected type first, then the server's error envelope, then the
//! unparsable-response error carrying the raw body.

use vstd::prelude::*;
use vstd::string::StringExecFns;
use vstd::string::StringSliceAdditionalSpecFns;

use crate::branches;
use crate::branches::GetBranchesQuery;
use crate::error::{APIErr, GLApiError};
use crate::merge_requests;
use crate::merge_requests::{CreateMRBody, GetMergeRequestsQuery};
use crate::projects;
use crate::projects::GetProjectsQuery;
use crate::query::pair_views;
use crate::users;
use crate::users::GetUsersQuery;
use crate::utils::percent_encoded;

verus! {

/// The parameter set every request draws on.  Each field is validated
/// only at the point of use: an operation that does not need a field
/// never fails on its absence.
#[derive(Debug, Clone)]
pub struct ReqParams {
    pub private_token: Option<String>,
    pub repo_url: Option<String>,
    pub default_project: Option<String>,
}

impl Default for ReqParams {
    /// An empty parameter set: every field absent.
    fn default() -> (r: ReqParams)
        ensures
            r.private_token is None,
            r.repo_url is None,
            r.default_project is None,
    {
        ReqParams { private_token: None, repo_url: None, default_project: None }
    }
}

impl ReqParams {
    /// The private token, or the missing-private-token error.
    pub fn get_private_token_checked(&self) -> (r: Result<&str, GLApiError>)
        ensures
            self.private_token matches Some(t) ==> (r matches Ok(s) && s@ == t@),
            self.private_token is None ==> (r matches Err(e) && e is NoPrivateToken),
    {
        match &self.private_token {
            Some(t) => Ok(t.as_str()),
            None => Err(GLApiError::NoPrivateToken),
        }
    }

    /// The server base URL, or the missing-repo-url error.
    pub fn get_repo_url_checked(&self) -> (r: Result<&str, GLApiError>)
        ensures
            self.repo_url matches Some(u) ==> (r matches Ok(s) && s@ == u@),
            self.repo_url is None ==> (r matches Err(e) && e is NoRepoUrl),
    {
        match &self.repo_url {
            Some(u) => Ok(u.as_str()),
            None => Err(GLApiError::NoRepoUrl),
        }
    }

    /// The default project identifier, or the missing-project error.
    pub fn get_default_project_checked(&self) -> (r: Result<&str, GLApiError>)
        ensures
            self.default_project matches Some(p) ==> (r matches Ok(s) && s@ == p@),
            self.default_project is None ==> (r matches Err(e) && e is NoProject),
    {
        match &self.default_project {
            Some(p) => Ok(p.as_str()),
            None => Err(GLApiError::NoProject),
        }
    }
}

/// The two request methods this client issues.
#[derive(Debug, Clone, Copy, PartialEq, Eq, Structural)]
pub enum HttpMethod {
    Get,
    Post,
}

/// Everything a transport needs to perform one exchange: the full URL,
/// the token for the private authentication header, the query pairs to
/// append for GET, and the JSON payload for POST.
#[derive(Debug, Clone)]
pub struct RequestPlan {
    pub method: HttpMethod,
    pub url: String,
    pub private_token: String,
    pub query: Vec<(String, String)>,
    pub body: Option<String>,
}

/// The full endpoint URL: the server base, the fixed API prefix, and the
/// endpoint path.
pub open spec fn full_url(repo: Seq<char>, path: Seq<char>) -> Seq<char> {
    repo + "/api/v4"@ + path
}

/// The client: a parameter set plus one planning method per endpoint.
pub struct GLApi {
    pub req_params: ReqParams,
}

impl GLApi {
    pub fn init(req_params: ReqParams) -> (r: GLApi)
        ensures
            r.req_params == req_params,
    {
        GLApi { req_params }
    }

    /// The full endpoint URL, or the missing-repo-url error.
    fn gen_url(&self, url_part: &str) -> (r: Result<String, GLApiError>)
        ensures
            self.req_params.repo_url matches Some(u) ==> (r matches Ok(s) && s@ == full_url(
                u@,
                url_part@,
            )),
            self.req_params.repo_url is None ==> (r matches Err(e) && e is NoRepoUrl),
    {
        let base = self.req_params.get_repo_url_checked()?;
        let mut s = String::from_str(base);
        s.append("/api/v4");
        s.append(url_part);
        Ok(s)
    }

    /// Plans a GET exchange: the token is resolved first, then the URL;
    /// either absence fails before any I/O could happen.
    pub fn prepare_get(&self, path: &str, query: Vec<(String, String)>) -> (r: Result<
        RequestPlan,
        GLApiError,
    >)
        ensures
            self.req_params.private_token is None ==> (r matches Err(e) && e is NoPrivateToken),
            (self.req_params.private_token is Some && self.req_params.repo_url is None) ==> (r
                matches Err(e) && e is NoRepoUrl),
            self.req_params.private_token matches Some(t) ==> (self.req_params.repo_url
                matches Some(u) ==> (r matches Ok(p) && p.method is Get && p.url@ == full_url(
                u@,
                path@,
            ) && p.private_token@ == t@ && p.query == query && p.body is None)),
    {
        let token = self.req_params.get_private_token_checked()?;
        let token = String::from_str(token);
        let url = self.gen_url(path)?;
        Ok(RequestPlan { method: HttpMethod::Get, url, private_token: token, query, body: None })
    }

    /// Plans a POST exchange with a JSON payload.
    pub fn prepare_post(&self, path: &str, body: String) -> (r: Result<RequestPlan, GLApiError>)
        ensures
            self.req_params.private_token is None ==> (r matches Err(e) && e is NoPrivateToken),
            (self.req_params.private_token is Some && self.req_params.repo_url is None) ==> (r
                matches Err(e) && e is NoRepoUrl),
            self.req_params.private_token matches Some(t) ==> (self.req_params.repo_url
                matches Some(u) ==> (r matches Ok(p) && p.method is Post && p.url@ == full_url(
                u@,
                path@,
            ) && p.private_token@ == t@ && p.query@ == Seq::<(String, String)>::empty() && (
            p.body matches Some(b) && b@ == body@))),
    {
        let token = self.req_params.get_private_token_checked()?;
        let token = String::from_str(token);
        let url = self.gen_url(path)?;
        let query: Vec<(String, String)> = Vec::new();
        Ok(
            RequestPlan {
                method: HttpMethod::Post,
                url,
                private_token: token,
                query,
                body: Some(body),
            },
        )
    }

    /// Plans fetching one project by identifier.
    pub fn plan_get_project(&self, project: &str) -> (r: Result<RequestPlan, GLApiError>)
        ensures
            self.req_params.private_token is None ==> (r matches Err(e) && e is NoPrivateToken),
            (self.req_params.private_token is Some && self.req_params.repo_url is None) ==> (r
                matches Err(e) && e is NoRepoUrl),
            self.req_params.private_token matches Some(t) ==> (self.req_params.repo_url
                matches Some(u) ==> (r matches Ok(p) && p.method is Get && p.url@ == full_url(
                u@,
                "/projects/"@ + percent_encoded(project.spec_bytes()),
            ) && p.private_token@ == t@ && pair_views(p.query@) == Seq::<(
                Seq<char>,
                Seq<char>,
            )>::empty() && p.body is None)),
    {
        let path = projects::url_one(project);
        let query: Vec<(String, String)> = Vec::new();
        proof {
            assert(pair_views(query@) =~= Seq::<(Seq<char>, Seq<char>)>::empty());
        }
        self.prepare_get(path.as_str(), query)
    }

    /// Plans the project listing.
    pub fn plan_get_projects(&self, query: &GetProjectsQuery) -> (r: Result<
        RequestPlan,
        GLApiError,
    >)
        ensures
            self.req_params.private_token is None ==> (r matches Err(e) && e is NoPrivateToken),
            (self.req_params.private_token is Some && self.req_params.repo_url is None) ==> (r
                matches Err(e) && e is NoRepoUrl),
            self.req_params.private_token matches Some(t) ==> (self.req_params.repo_url
                matches Some(u) ==> (r matches Ok(p) && p.method is Get && p.url@ == full_url(
                u@,
                "/projects"@,
            ) && p.private_token@ == t@ && pair_views(p.query@) == query.spec_pairs() && p.body
                is None)),
    {
        self.prepare_get(projects::url_all(), query.to_query_pairs())
    }

    /// Plans the user listing.
    pub fn plan_get_users(&self, query: &GetUsersQuery) -> (r: Result<RequestPlan, GLApiError>)
        ensures
            self.req_params.private_token is None ==> (r matches Err(e) && e is NoPrivateToken),
            (self.req_params.private_token is Some && self.req_params.repo_url is None) ==> (r
                matches Err(e) && e is NoRepoUrl),
            self.req_params.private_token matches Some(t) ==> (self.req_params.repo_url
                matches Some(u) ==> (r matches Ok(p) && p.method is Get && p.url@ == full_url(
                u@,
                "/users"@,
            ) && p.private_token@ == t@ && pair_views(p.query@) == query.spec_pairs() && p.body
                is None)),
    {
        self.prepare_get(users::url_all(), query.to_query_pairs())
    }

    /// Plans the merge-request listing of one project.
    pub fn plan_get_project_merge_requests(
        &self,
        project_id: &str,
        query: &GetMergeRequestsQuery,
    ) -> (r: Result<RequestPlan, GLApiError>)
        ensures
            self.req_params.private_token is None ==> (r matches Err(e) && e is NoPrivateToken),
            (self.req_params.private_token is Some && self.req_params.repo_url is None) ==> (r
                matches Err(e) && e is NoRepoUrl),
            self.req_params.private_token matches Some(t) ==> (self.req_params.repo_url
                matches Some(u) ==> (r matches Ok(p) && p.method is Get && p.url@ == full_url(
                u@,
                "/projects/"@ + percent_encoded(project_id.spec_bytes()) + "/merge_requests"@,
            ) && p.private_token@ == t@ && pair_views(p.query@) == query.spec_pairs() && p.body
                is None)),
    {
        let path = merge_requests::url_project_mr(project_id);
        self.prepare_get(path.as_str(), query.to_query_pairs())
    }

    /// Plans creating a merge request in one project.
    pub fn plan_create_merge_request(&self, project_id: &str, body: &CreateMRBody) -> (r: Result<
        RequestPlan,
        GLApiError,
    >)
        ensures
            self.req_params.private_token is None ==> (r matches Err(e) && e is NoPrivateToken),
            (self.req_params.private_token is Some && self.req_params.repo_url is None) ==> (r
                matches Err(e) && e is NoRepoUrl),
            self.req_params.private_token matches Some(t) ==> (self.req_params.repo_url
                matches Some(u) ==> (r matches Ok(p) && p.method is Post && p.url@ == full_url(
                u@,
                "/projects/"@ + percent_encoded(project_id.spec_bytes()) + "/merge_requests"@,
            ) && p.private_token@ == t@ && (p.body matches Some(b) && b@
                == body.spec_json()))),
    {
        let path = merge_requests::url_project_mr(project_id);
        self.prepare_post(path.as_str(), body.to_json())
    }

    /// Plans the branch listing of one project.
    pub fn plan_get_project_branches(&self, project_id: &str, query: &GetBranchesQuery) -> (r:
        Result<RequestPlan, GLApiError>)
        ensures
            self.req_params.private_token is None ==> (r matches Err(e) && e is NoPrivateToken),
            (self.req_params.private_token is Some && self.req_params.repo_url is None) ==> (r
                matches Err(e) && e is NoRepoUrl),
            self.req_params.private_token matches Some(t) ==> (self.req_params.repo_url
                matches Some(u) ==> (r matches Ok(p) && p.method is Get && p.url@ == full_url(
                u@,
                "/projects/"@ + percent_encoded(project_id.spec_bytes())
                    + "/repository/branches"@,
            ) && p.private_token@ == t@ && pair_views(p.query@) == query.spec_pairs() && p.body
                is None)),
    {
        let path = branches::url_all(project_id);
        self.prepare_get(path.as_str(), query.to_query_pairs())
    }
}

/// The decode fallback that decides every response, in this fixed order:
/// a body that decodes as the expected type is the result, whatever the
/// transport status said; otherwise a body that decodes as the server's
/// error envelope is the server-reported error; otherwise the response is
/// unparsable and the raw body is kept for diagnostics.
pub fn classify_response<T>(decoded: Option<T>, api_err: Option<APIErr>, resp_text: String) -> (r:
    Result<T, GLApiError>)
    ensures
        decoded matches Some(v) ==> (r matches Ok(w) && w == v),
        decoded is None ==> (api_err matches Some(a) ==> r == Err::<T, GLApiError>(
            GLApiError::APIErr { error: a.error },
        )),
        (decoded is None && api_err is None) ==> r == Err::<T, GLApiError>(
            GLApiError::CantParseResp { resp_text },
        ),
{
    match decoded {
        Some(v) => Ok(v),
        None => match api_err {
            Some(ae) => Err(GLApiError::from(ae)),
            None => Err(GLApiError::CantParseResp { resp_text }),
        },
    }
}

} // verus!
