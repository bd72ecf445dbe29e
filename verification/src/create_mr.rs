//! Assembling a merge-request creation body.
//!
//! Every field left unset by the caller falls back to a collaborator's
//! output: the source branch to the checkout's current branch, the
//! target branch to the project's default branch, and the title to the
//! message of the resolved source ref.  The collaborators' outputs reach
//! this module as plain string values; the fallback decisions themselves
//! are pure and verified here.

use vstd::prelude::*;
use vstd::string::StringExecFns;

use crate::merge_requests::CreateMRBody;
use crate::resolve::opt_str_view;
use crate::text::spec_dec;
use crate::users::User;

verus! {

/// The optional creation arguments as the caller supplied them.
#[derive(Debug, Clone)]
pub struct CreateMRArgsData {
    pub source_branch: Option<String>,
    pub target_branch: Option<String>,
    pub assignee_id: Option<String>,
    pub assignee_name: Option<String>,
    pub title: Option<String>,
}

/// The supplied value when present, else the fallback.
pub open spec fn chosen(arg: Option<String>, fallback: Seq<char>) -> Seq<char> {
    match arg {
        Some(s) => s@,
        None => fallback,
    }
}

/// The source branch: the supplied value, else the checkout's current
/// branch.  The current branch serves only as this default; it is never
/// used for the target branch.
pub fn resolve_source_branch(args: &CreateMRArgsData, current_branch: &str) -> (r: String)
    ensures
        r@ == chosen(args.source_branch, current_branch@),
{
    match &args.source_branch {
        Some(s) => s.clone(),
        None => String::from_str(current_branch),
    }
}

/// Assembles the creation body from the supplied arguments and the
/// collaborators' outputs: `current_branch` is the checkout's current
/// branch, `default_project_branch` the project's default branch, and
/// `source_ref_msg` the message of the resolved source ref.
pub fn fill_mr_create_data(
    project: &str,
    args: &CreateMRArgsData,
    current_branch: &str,
    default_project_branch: &str,
    source_ref_msg: &str,
    assignee_id: Option<u32>,
) -> (r: CreateMRBody)
    ensures
        r.project@ == project@,
        r.source_branch@ == chosen(args.source_branch, current_branch@),
        r.target_branch@ == chosen(args.target_branch, default_project_branch@),
        r.title@ == chosen(args.title, source_ref_msg@),
        r.assignee_id == assignee_id,
{
    let source_branch = resolve_source_branch(args, current_branch);
    let target_branch = match &args.target_branch {
        Some(s) => s.clone(),
        None => String::from_str(default_project_branch),
    };
    let title = match &args.title {
        Some(t) => t.clone(),
        None => String::from_str(source_ref_msg),
    };
    CreateMRBody {
        project: String::from_str(project),
        source_branch,
        target_branch,
        title,
        assignee_id,
    }
}

/// The assignee resolved from a username lookup: the first user the
/// lookup returned, or nothing when it returned none.
pub fn first_user_id(users: &Vec<User>) -> (r: Option<u32>)
    ensures
        users@.len() > 0 ==> r == Some(users@[0].id),
        users@.len() == 0 ==> r is None,
{
    if users.len() > 0 {
        Some(users[0].id)
    } else {
        None
    }
}

/// The display form of an assignee choice.
pub open spec fn assignee_str_spec(id: Option<u32>, name: Option<Seq<char>>) -> Seq<char> {
    match id {
        None => "None"@,
        Some(i) => {
            let base = "(ID: "@ + spec_dec(i as nat) + ")"@;
            match name {
                Some(n) => n + " "@ + base,
                None => base,
            }
        },
    }
}

/// Renders an assignee choice for display: the id in parentheses,
/// prefixed by the name when one was supplied, or `None` when no
/// assignee was chosen.
pub fn get_assignee_str(id: Option<u32>, name: Option<&str>) -> (r: String)
    ensures
        r@ == assignee_str_spec(id, opt_str_view(name)),
{
    match id {
        Some(i) => {
            let mut base = String::from_str("(ID: ");
            let d = crate::text::u32_to_dec_str(i);
            base.append(d.as_str());
            base.append(")");
            match name {
                Some(n) => {
                    let mut s = String::from_str(n);
                    s.append(" ");
                    s.append(base.as_str());
                    proof {
                        assert(s@ =~= assignee_str_spec(id, opt_str_view(name)));
                    }
                    s
                },
                None => {
                    proof {
                        assert(base@ =~= assignee_str_spec(id, opt_str_view(name)));
                    }
                    base
                },
            }
        },
        None => String::from_str("None"),
    }
}

} // verus!
