//! The names of the command-line arguments and subcommands, as one
//! closed enumeration with its canonical spelling.

use vstd::prelude::*;

verus! {

/// Every argument or subcommand name the command-line surface uses.
#[derive(Debug, Clone, Copy, PartialEq, Eq, Structural)]
pub enum ArgName {
    PrivateToken,
    GlobalConfig,
    LocalConfig,
    Project,
    RepoUrl,
    Config,
    SaveToken,
    ShowToken,
    ForgetToken,
    Create,
    Mr,
    Title,
    SourceBranch,
    TargetBranch,
    AssigneeId,
    AssigneeName,
    Description,
    RemoveSourceBranch,
    Squash,
    Ls,
    Users,
    Username,
    Active,
    Blocked,
    Branches,
    Search,
    State,
    Scope,
    AuthorId,
    Projects,
    Visibility,
    Archived,
    Owned,
    Membership,
}

/// The canonical spelling of an argument name.
pub open spec fn arg_name_str(a: ArgName) -> Seq<char> {
    match a {
        ArgName::PrivateToken => "private-token"@,
        ArgName::GlobalConfig => "global-config"@,
        ArgName::LocalConfig => "local-config"@,
        ArgName::Project => "project"@,
        ArgName::RepoUrl => "repo-url"@,
        ArgName::Config => "config"@,
        ArgName::SaveToken => "save-token"@,
        ArgName::ShowToken => "show-token"@,
        ArgName::ForgetToken => "forget-token"@,
        ArgName::Create => "create"@,
        ArgName::Mr => "mr"@,
        ArgName::Title => "title"@,
        ArgName::SourceBranch => "source-branch"@,
        ArgName::TargetBranch => "target-branch"@,
        ArgName::AssigneeId => "assignee-id"@,
        ArgName::AssigneeName => "assignee-name"@,
        ArgName::Description => "description"@,
        ArgName::RemoveSourceBranch => "remove-source-branch"@,
        ArgName::Squash => "squash"@,
        ArgName::Ls => "ls"@,
        ArgName::Users => "users"@,
        ArgName::Username => "username"@,
        ArgName::Active => "active"@,
        ArgName::Blocked => "blocked"@,
        ArgName::Branches => "branches"@,
        ArgName::Search => "search"@,
        ArgName::State => "state"@,
        ArgName::Scope => "scope"@,
        ArgName::AuthorId => "authorId"@,
        ArgName::Projects => "projects"@,
        ArgName::Visibility => "visibility"@,
        ArgName::Archived => "archived"@,
        ArgName::Owned => "owned"@,
        ArgName::Membership => "membership"@,
    }
}

impl ArgName {
    /// The canonical spelling of this name.
    pub fn as_str(&self) -> (r: &'static str)
        ensures
            r@ == arg_name_str(*self),
    {
        match self {
            ArgName::PrivateToken => "private-token",
            ArgName::GlobalConfig => "global-config",
            ArgName::LocalConfig => "local-config",
            ArgName::Project => "project",
            ArgName::RepoUrl => "repo-url",
            ArgName::Config => "config",
            ArgName::SaveToken => "save-token",
            ArgName::ShowToken => "show-token",
            ArgName::ForgetToken => "forget-token",
            ArgName::Create => "create",
            ArgName::Mr => "mr",
            ArgName::Title => "title",
            ArgName::SourceBranch => "source-branch",
            ArgName::TargetBranch => "target-branch",
            ArgName::AssigneeId => "assignee-id",
            ArgName::AssigneeName => "assignee-name",
            ArgName::Description => "description",
            ArgName::RemoveSourceBranch => "remove-source-branch",
            ArgName::Squash => "squash",
            ArgName::Ls => "ls",
            ArgName::Users => "users",
            ArgName::Username => "username",
            ArgName::Active => "active",
            ArgName::Blocked => "blocked",
            ArgName::Branches => "branches",
            ArgName::Search => "search",
            ArgName::State => "state",
            ArgName::Scope => "scope",
            ArgName::AuthorId => "authorId",
            ArgName::Projects => "projects",
            ArgName::Visibility => "visibility",
            ArgName::Archived => "archived",
            ArgName::Owned => "owned",
            ArgName::Membership => "membership",
        }
    }
}

} // verus!
