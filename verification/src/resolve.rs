//! The configuration resolver.
//!
//! One pure function coalesces the CLI-supplied values and the two
//! configuration tiers into the parameter set every request draws on.
//! Precedence per field is strict: the explicit CLI value, then the
//! relevant persisted value, then absent — never a hybrid.  Presence is
//! not validated here; that is deferred to the point of use.

use vstd::prelude::*;
use vstd::string::StringExecFns;

use crate::api::ReqParams;
use crate::configs::{Configs, GlobalData, LocalData};

verus! {

/// The view of an optional owned string.
pub open spec fn opt_view(o: Option<String>) -> Option<Seq<char>> {
    match o {
        Some(s) => Some(s@),
        None => None,
    }
}

/// The view of an optional borrowed string.
pub open spec fn opt_str_view(o: Option<&str>) -> Option<Seq<char>> {
    match o {
        Some(s) => Some(s@),
        None => None,
    }
}

/// The first present value, or absent.
pub open spec fn first_of(a: Option<Seq<char>>, b: Option<Seq<char>>) -> Option<Seq<char>> {
    if a is Some {
        a
    } else {
        b
    }
}

/// The token the global tier offers.
pub open spec fn global_token_view(g: Option<GlobalData>) -> Option<Seq<char>> {
    match g {
        Some(g) => Some(g.private_token@),
        None => None,
    }
}

/// The server URL the local tier offers.
pub open spec fn local_url_view(l: Option<LocalData>) -> Option<Seq<char>> {
    match l {
        Some(l) => Some(l.repo_url@),
        None => None,
    }
}

/// The default project the local tier offers.
pub open spec fn local_project_view(l: Option<LocalData>) -> Option<Seq<char>> {
    match l {
        Some(l) => opt_view(l.default_project),
        None => None,
    }
}

/// Coalesces the CLI values and the configuration tiers into one
/// parameter set: per field, the CLI value wins, else the owning tier's
/// value, else the field stays absent.
pub fn collect_req_params(
    cli_private_token: Option<&str>,
    cli_project: Option<&str>,
    cli_repo_url: Option<&str>,
    cfg: &Configs,
) -> (r: ReqParams)
    ensures
        opt_view(r.private_token) == first_of(
            opt_str_view(cli_private_token),
            global_token_view(cfg.global),
        ),
        opt_view(r.default_project) == first_of(
            opt_str_view(cli_project),
            local_project_view(cfg.local),
        ),
        opt_view(r.repo_url) == first_of(opt_str_view(cli_repo_url), local_url_view(cfg.local)),
{
    let private_token: Option<String> = match cli_private_token {
        Some(t) => Some(t.to_owned()),
        None => match &cfg.global {
            Some(g) => Some(g.private_token.clone()),
            None => None,
        },
    };
    let default_project: Option<String> = match cli_project {
        Some(p) => Some(p.to_owned()),
        None => match &cfg.local {
            Some(l) => match &l.default_project {
                Some(dp) => Some(dp.clone()),
                None => None,
            },
            None => None,
        },
    };
    let repo_url: Option<String> = match cli_repo_url {
        Some(u) => Some(u.to_owned()),
        None => match &cfg.local {
            Some(l) => Some(l.repo_url.clone()),
            None => None,
        },
    };
    ReqParams { private_token, repo_url, default_project }
}

} // verus!
