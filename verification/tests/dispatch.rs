use mergereq::{
    classify_response, APIErr, CreateMRBody, GLApi, GLApiError, GetBranchesQuery,
    GetMergeRequestsQuery, GetUsersQuery, HttpMethod, ReqParams,
};

fn params(token: Option<&str>, url: Option<&str>, project: Option<&str>) -> ReqParams {
    ReqParams {
        private_token: token.map(str::to_string),
        repo_url: url.map(str::to_string),
        default_project: project.map(str::to_string),
    }
}

#[test]
fn classify_success_wins_whatever_else_decodes() {
    // A body that decodes as the expected type is the result, even when
    // the error envelope would also have decoded.
    let r: Result<u32, GLApiError> = classify_response(
        Some(7),
        Some(APIErr { error: "also an error".to_string() }),
        "{\"error\":\"also an error\"}".to_string(),
    );
    assert_eq!(r.unwrap(), 7);
}

#[test]
fn classify_envelope_maps_to_server_error() {
    let r: Result<u32, GLApiError> = classify_response(
        None,
        Some(APIErr { error: "404 Project Not Found".to_string() }),
        "{\"error\":\"404 Project Not Found\"}".to_string(),
    );
    assert_eq!(
        r.unwrap_err(),
        GLApiError::APIErr { error: "404 Project Not Found".to_string() }
    );
}

#[test]
fn classify_keeps_raw_body_when_nothing_decodes() {
    let r: Result<u32, GLApiError> = classify_response(None, None, "<html>oops</html>".to_string());
    assert_eq!(
        r.unwrap_err(),
        GLApiError::CantParseResp { resp_text: "<html>oops</html>".to_string() }
    );
}

#[test]
fn plan_get_users_full_url() {
    let gl = GLApi::init(params(Some("tok"), Some("https://git.example.com"), None));
    let plan = gl.plan_get_users(&GetUsersQuery::new()).unwrap();
    assert_eq!(plan.method, HttpMethod::Get);
    assert_eq!(plan.url, "https://git.example.com/api/v4/users");
    assert_eq!(plan.private_token, "tok");
    assert_eq!(plan.query.len(), 1);
    assert_eq!(plan.query[0], ("per_page".to_string(), "100".to_string()));
    assert!(plan.body.is_none());
}

#[test]
fn plan_fails_without_token_before_anything_else() {
    let gl = GLApi::init(params(None, Some("https://git.example.com"), None));
    assert_eq!(
        gl.plan_get_users(&GetUsersQuery::new()).unwrap_err(),
        GLApiError::NoPrivateToken
    );
}

#[test]
fn plan_fails_without_repo_url() {
    let gl = GLApi::init(params(Some("tok"), None, None));
    assert_eq!(
        gl.plan_get_users(&GetUsersQuery::new()).unwrap_err(),
        GLApiError::NoRepoUrl
    );
}

#[test]
fn plan_get_project_escapes_identifier() {
    let gl = GLApi::init(params(Some("tok"), Some("https://host"), None));
    let plan = gl.plan_get_project("diaspora/diaspora-client").unwrap();
    assert_eq!(
        plan.url,
        "https://host/api/v4/projects/diaspora%2Fdiaspora%2Dclient"
    );
    assert!(plan.query.is_empty());
}

#[test]
fn plan_branches_escapes_identifier() {
    let gl = GLApi::init(params(Some("tok"), Some("https://host"), None));
    let plan = gl
        .plan_get_project_branches("a b", &GetBranchesQuery::new())
        .unwrap();
    assert_eq!(plan.url, "https://host/api/v4/projects/a%20b/repository/branches");
}

#[test]
fn plan_merge_requests_url() {
    let gl = GLApi::init(params(Some("tok"), Some("https://host"), None));
    let plan = gl
        .plan_get_project_merge_requests("80", &GetMergeRequestsQuery::new())
        .unwrap();
    assert_eq!(plan.url, "https://host/api/v4/projects/80/merge_requests");
}

#[test]
fn plan_create_merge_request_is_post_with_json() {
    let gl = GLApi::init(params(Some("tok"), Some("https://host"), None));
    let body = CreateMRBody {
        project: "80".to_string(),
        source_branch: "feature-x".to_string(),
        target_branch: "master".to_string(),
        title: "Add things".to_string(),
        assignee_id: Some(12),
    };
    let plan = gl.plan_create_merge_request("80", &body).unwrap();
    assert_eq!(plan.method, HttpMethod::Post);
    assert_eq!(plan.url, "https://host/api/v4/projects/80/merge_requests");
    assert!(plan.query.is_empty());
    assert_eq!(
        plan.body.unwrap(),
        "{\"project\":\"80\",\"source_branch\":\"feature-x\",\"target_branch\":\"master\",\
         \"title\":\"Add things\",\"assignee_id\":12}"
    );
}

#[test]
fn create_mr_body_json_escapes_and_omits_absent_assignee() {
    let body = CreateMRBody {
        project: "g/p".to_string(),
        source_branch: "s".to_string(),
        target_branch: "t".to_string(),
        title: "say \"hi\"\nback\\slash\ttab".to_string(),
        assignee_id: None,
    };
    assert_eq!(
        body.to_json(),
        "{\"project\":\"g/p\",\"source_branch\":\"s\",\"target_branch\":\"t\",\
         \"title\":\"say \\\"hi\\\"\\nback\\\\slash\\ttab\"}"
    );
}

#[test]
fn url_helpers() {
    assert_eq!(mergereq::projects::url_all(), "/projects");
    assert_eq!(mergereq::users::url_all(), "/users");
    assert_eq!(mergereq::merge_requests::url_all(), "/merge_requests");
    assert_eq!(mergereq::projects::url_one("a/b"), "/projects/a%2Fb");
    assert_eq!(
        mergereq::merge_requests::url_project_mr("a/b"),
        "/projects/a%2Fb/merge_requests"
    );
    assert_eq!(
        mergereq::branches::url_all("x y"),
        "/projects/x%20y/repository/branches"
    );
    assert_eq!(mergereq::utils::encode("abc019XYZ"), "abc019XYZ");
    assert_eq!(mergereq::utils::encode("a/b c?"), "a%2Fb%20c%3F");
}

#[test]
fn accessors_fail_per_field() {
    let p = params(None, None, None);
    assert_eq!(p.get_private_token_checked().unwrap_err(), GLApiError::NoPrivateToken);
    assert_eq!(p.get_repo_url_checked().unwrap_err(), GLApiError::NoRepoUrl);
    assert_eq!(p.get_default_project_checked().unwrap_err(), GLApiError::NoProject);
    let p = params(Some("t"), Some("u"), Some("p"));
    assert_eq!(p.get_private_token_checked().unwrap(), "t");
    assert_eq!(p.get_repo_url_checked().unwrap(), "u");
    assert_eq!(p.get_default_project_checked().unwrap(), "p");
}
