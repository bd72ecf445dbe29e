//! A verified client core for a project-hosting REST API.
//!
//! The crate covers the typed request/response layer of a command-line
//! client: query-parameter builders with a canonical wire serialization,
//! a configuration-precedence resolver, a classified error taxonomy, and
//! the request planning / response classification halves of the HTTP
//! dispatcher.  Network and file I/O live outside this crate; the library
//! produces request plans and consumes response bodies as plain values.

pub mod api;
pub mod branches;
pub mod configs;
pub mod create_mr;
pub mod error;
pub mod helpers;
pub mod json;
pub mod merge_requests;
pub mod names;
pub mod projects;
pub mod query;
pub mod resolve;
pub mod text;
pub mod users;
pub mod utils;

pub use api::{classify_response, GLApi, HttpMethod, ReqParams, RequestPlan};
pub use branches::{Branch, Commit, GetBranchesQuery};
pub use configs::{CfgVariant, Configs, GlobalData, LocalData};
pub use create_mr::CreateMRArgsData;
pub use error::{APIErr, GLApiError};
pub use merge_requests::{CreateMRBody, GetMergeRequestsQuery, MRScope, MRState, MergeRequest};
pub use names::ArgName;
pub use projects::{GetProjectsQuery, Project, ProjectVisibility};
pub use users::{GetUsersQuery, User, UserState};
