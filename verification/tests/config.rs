use mergereq::resolve::collect_req_params;
use mergereq::{CfgVariant, Configs, GLApiError, GlobalData, LocalData};

fn cfg(global: Option<&str>, local: Option<(&str, Option<&str>)>) -> Configs {
    Configs::new(
        global.map(|t| GlobalData { private_token: t.to_string() }),
        local.map(|(u, p)| LocalData {
            repo_url: u.to_string(),
            default_project: p.map(str::to_string),
        }),
        "/home/me/.config/global".to_string(),
        "./local.toml".to_string(),
    )
}

#[test]
fn cli_values_win_over_both_tiers() {
    let c = cfg(Some("global-tok"), Some(("https://cfg", Some("cfg/proj"))));
    let r = collect_req_params(Some("cli-tok"), Some("cli/proj"), Some("https://cli"), &c);
    assert_eq!(r.private_token.as_deref(), Some("cli-tok"));
    assert_eq!(r.default_project.as_deref(), Some("cli/proj"));
    assert_eq!(r.repo_url.as_deref(), Some("https://cli"));
}

#[test]
fn config_tiers_fill_absent_cli_values() {
    let c = cfg(Some("global-tok"), Some(("https://cfg", Some("cfg/proj"))));
    let r = collect_req_params(None, None, None, &c);
    assert_eq!(r.private_token.as_deref(), Some("global-tok"));
    assert_eq!(r.default_project.as_deref(), Some("cfg/proj"));
    assert_eq!(r.repo_url.as_deref(), Some("https://cfg"));
}

#[test]
fn fields_come_from_their_owning_tier_only() {
    // The local tier holds no token; the global tier holds no URL or
    // project: a missing tier leaves exactly its own fields absent.
    let only_global = cfg(Some("tok"), None);
    let r = collect_req_params(None, None, None, &only_global);
    assert_eq!(r.private_token.as_deref(), Some("tok"));
    assert_eq!(r.default_project, None);
    assert_eq!(r.repo_url, None);

    let only_local = cfg(None, Some(("https://cfg", None)));
    let r = collect_req_params(None, None, None, &only_local);
    assert_eq!(r.private_token, None);
    assert_eq!(r.default_project, None);
    assert_eq!(r.repo_url.as_deref(), Some("https://cfg"));
}

#[test]
fn mixed_precedence_is_per_field_never_a_hybrid() {
    let c = cfg(Some("global-tok"), Some(("https://cfg", Some("cfg/proj"))));
    let r = collect_req_params(None, Some("cli/proj"), None, &c);
    assert_eq!(r.private_token.as_deref(), Some("global-tok"));
    assert_eq!(r.default_project.as_deref(), Some("cli/proj"));
    assert_eq!(r.repo_url.as_deref(), Some("https://cfg"));
}

#[test]
fn global_token_becomes_usable_token() {
    // CLI token absent, global token present: the resolved parameters
    // hand out the global token.
    let c = cfg(Some("abc123"), None);
    let r = collect_req_params(None, None, None, &c);
    assert_eq!(r.get_private_token_checked().unwrap(), "abc123");

    // Both absent: the presence check fails with the dedicated variant.
    let c = cfg(None, None);
    let r = collect_req_params(None, None, None, &c);
    assert_eq!(r.get_private_token_checked().unwrap_err(), GLApiError::NoPrivateToken);
}

#[test]
fn file_paths_by_tier() {
    let c = cfg(None, None);
    assert_eq!(c.get_file_path(CfgVariant::Global), "/home/me/.config/global");
    assert_eq!(c.get_file_path(CfgVariant::Local), "./local.toml");
}

#[test]
fn apply_new_token_creates_or_replaces_global() {
    let mut c = cfg(None, Some(("https://cfg", None)));
    c.apply_new_token("fresh");
    assert_eq!(c.global.as_ref().unwrap().private_token, "fresh");
    assert!(c.local.is_some());
    c.apply_new_token("fresher");
    assert_eq!(c.global.as_ref().unwrap().private_token, "fresher");
}

#[test]
fn set_token_replaces_value() {
    let mut g = GlobalData { private_token: "old".to_string() };
    g.set_token("new");
    assert_eq!(g.private_token, "new");
}
