use mergereq::{
    GetBranchesQuery, GetMergeRequestsQuery, GetProjectsQuery, GetUsersQuery, MRScope, MRState,
    ProjectVisibility, UserState,
};

#[test]
fn users_query_defaults() {
    let q = GetUsersQuery::new();
    let pairs = q.to_query_pairs();
    assert_eq!(pairs.len(), 1);
    assert_eq!(pairs[0].0, "per_page");
    assert_eq!(pairs[0].1, "100");
}

#[test]
fn branches_query_defaults() {
    let q = GetBranchesQuery::new();
    let pairs = q.to_query_pairs();
    assert_eq!(pairs.len(), 1);
    assert_eq!(pairs[0].0, "per_page");
    assert_eq!(pairs[0].1, "100");
}

#[test]
fn projects_query_defaults() {
    let q = GetProjectsQuery::new();
    let pairs = q.to_query_pairs();
    assert!(pairs.is_empty());
}

#[test]
fn merge_requests_query_defaults() {
    let q = GetMergeRequestsQuery::new();
    let pairs = q.to_query_pairs();
    assert!(pairs.is_empty());
}

#[test]
fn merge_requests_opened_all_scenario() {
    let q = GetMergeRequestsQuery::new().state(MRState::Opened).scope(MRScope::All);
    let pairs = q.to_query_pairs();
    assert_eq!(pairs.len(), 2);
    assert_eq!(pairs[0].0, "state");
    assert_eq!(pairs[0].1, "opened");
    assert_eq!(pairs[1].0, "scope");
    assert_eq!(pairs[1].1, "all");
}

#[test]
fn merge_requests_numeric_filters() {
    let q = GetMergeRequestsQuery::new()
        .author_id(42)
        .assignee_id(4294967295)
        .source_branch("dev")
        .target_branch("main")
        .search("fix");
    let pairs = q.to_query_pairs();
    assert_eq!(pairs.len(), 5);
    assert_eq!(pairs[0], ("author_id".to_string(), "42".to_string()));
    assert_eq!(pairs[1], ("assignee_id".to_string(), "4294967295".to_string()));
    assert_eq!(pairs[2], ("source_branch".to_string(), "dev".to_string()));
    assert_eq!(pairs[3], ("target_branch".to_string(), "main".to_string()));
    assert_eq!(pairs[4], ("search".to_string(), "fix".to_string()));
}

#[test]
fn users_query_state_quirk() {
    let q = GetUsersQuery::new().username("mary").state(UserState::Blocked);
    let pairs = q.to_query_pairs();
    assert_eq!(pairs.len(), 3);
    assert_eq!(pairs[0], ("per_page".to_string(), "100".to_string()));
    assert_eq!(pairs[1], ("username".to_string(), "mary".to_string()));
    // The state is sent as a flag named after the state value, with the
    // literal value "true" — the remote API's quirk.
    assert_eq!(pairs[2], ("blocked".to_string(), "true".to_string()));
}

#[test]
fn projects_query_all_filters() {
    let q = GetProjectsQuery::new()
        .archived(true)
        .visibility(ProjectVisibility::Internal)
        .search("diaspora")
        .owned(false)
        .membership(true);
    let pairs = q.to_query_pairs();
    assert_eq!(pairs.len(), 5);
    assert_eq!(pairs[0], ("archived".to_string(), "true".to_string()));
    assert_eq!(pairs[1], ("visibility".to_string(), "internal".to_string()));
    assert_eq!(pairs[2], ("search".to_string(), "diaspora".to_string()));
    assert_eq!(pairs[3], ("owned".to_string(), "false".to_string()));
    assert_eq!(pairs[4], ("membership".to_string(), "true".to_string()));
}

#[test]
fn branches_query_search() {
    let q = GetBranchesQuery::new().search("^feat");
    let pairs = q.to_query_pairs();
    assert_eq!(pairs.len(), 2);
    assert_eq!(pairs[0], ("search".to_string(), "^feat".to_string()));
    assert_eq!(pairs[1], ("per_page".to_string(), "100".to_string()));
}
