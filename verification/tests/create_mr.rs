use mergereq::create_mr::{fill_mr_create_data, first_user_id, get_assignee_str};
use mergereq::helpers::get_one_line;
use mergereq::text::parse_u32;
use mergereq::{ArgName, CreateMRArgsData, GLApiError, User};

fn no_args() -> CreateMRArgsData {
    CreateMRArgsData {
        source_branch: None,
        target_branch: None,
        assignee_id: None,
        assignee_name: None,
        title: None,
    }
}

#[test]
fn only_source_branch_supplied_falls_back_for_the_rest() {
    // The expected fallback chain: target branch and title come from the
    // collaborators' outputs; the current branch is not used for the
    // target, only as the default source when the source itself is
    // absent (here it is not).
    let args = CreateMRArgsData { source_branch: Some("feature-x".to_string()), ..no_args() };
    let body = fill_mr_create_data("80", &args, "checkout-branch", "master", "Fix the bug", None);
    assert_eq!(body.project, "80");
    assert_eq!(body.source_branch, "feature-x");
    assert_eq!(body.target_branch, "master");
    assert_eq!(body.title, "Fix the bug");
    assert_eq!(body.assignee_id, None);
}

#[test]
fn absent_source_branch_defaults_to_current_branch() {
    let body = fill_mr_create_data("80", &no_args(), "work-branch", "main", "msg", Some(3));
    assert_eq!(body.source_branch, "work-branch");
    assert_eq!(body.target_branch, "main");
    assert_eq!(body.title, "msg");
    assert_eq!(body.assignee_id, Some(3));
}

#[test]
fn supplied_values_are_kept_verbatim() {
    let args = CreateMRArgsData {
        source_branch: Some("s".to_string()),
        target_branch: Some("t".to_string()),
        title: Some("T".to_string()),
        ..no_args()
    };
    let body = fill_mr_create_data("g/p", &args, "cur", "def", "msg", Some(9));
    assert_eq!(body.source_branch, "s");
    assert_eq!(body.target_branch, "t");
    assert_eq!(body.title, "T");
}

fn user(id: u32, name: &str) -> User {
    User {
        id,
        username: name.to_string(),
        name: name.to_string(),
        state: "active".to_string(),
    }
}

#[test]
fn first_user_wins_the_lookup() {
    assert_eq!(first_user_id(&vec![user(7, "a"), user(9, "b")]), Some(7));
    assert_eq!(first_user_id(&vec![]), None);
}

#[test]
fn assignee_display_forms() {
    assert_eq!(get_assignee_str(Some(5), Some("bob")), "bob (ID: 5)");
    assert_eq!(get_assignee_str(Some(5), None), "(ID: 5)");
    assert_eq!(get_assignee_str(None, Some("bob")), "None");
    assert_eq!(get_assignee_str(None, None), "None");
}

#[test]
fn assignee_id_parsing() {
    assert_eq!(parse_u32("123").unwrap(), 123);
    assert_eq!(parse_u32("0").unwrap(), 0);
    assert_eq!(parse_u32("+7").unwrap(), 7);
    assert_eq!(parse_u32("4294967295").unwrap(), 4294967295);
    assert_eq!(
        parse_u32("4294967296").unwrap_err(),
        GLApiError::ParseError("4294967296".to_string())
    );
    assert_eq!(parse_u32("").unwrap_err(), GLApiError::ParseError("".to_string()));
    assert_eq!(parse_u32("+").unwrap_err(), GLApiError::ParseError("+".to_string()));
    assert_eq!(parse_u32("12x").unwrap_err(), GLApiError::ParseError("12x".to_string()));
    assert_eq!(parse_u32("-1").unwrap_err(), GLApiError::ParseError("-1".to_string()));
}

#[test]
fn one_line_collapses_multiline_text() {
    assert_eq!(get_one_line("subject"), "subject");
    assert_eq!(get_one_line("subject\n"), "subject\n");
    assert_eq!(get_one_line("subject\nbody"), "subject...");
    assert_eq!(get_one_line("subject\r\nbody"), "subject...");
    assert_eq!(get_one_line("a\n\nb"), "a...");
    assert_eq!(get_one_line(""), "");
    assert_eq!(get_one_line("\nrest"), "...");
}

#[test]
fn arg_names_spell_themselves() {
    assert_eq!(ArgName::PrivateToken.as_str(), "private-token");
    assert_eq!(ArgName::SourceBranch.as_str(), "source-branch");
    assert_eq!(ArgName::AuthorId.as_str(), "authorId");
    assert_eq!(ArgName::Ls.as_str(), "ls");
}
