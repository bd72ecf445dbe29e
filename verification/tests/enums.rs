use mergereq::{GLApiError, MRScope, MRState, ProjectVisibility, UserState};

#[test]
fn visibility_round_trip() {
    for v in [
        ProjectVisibility::Public,
        ProjectVisibility::Internal,
        ProjectVisibility::Private,
    ] {
        assert_eq!(ProjectVisibility::from_str(v.to_str()).unwrap(), v);
    }
    assert_eq!(ProjectVisibility::Public.to_str(), "public");
    assert_eq!(ProjectVisibility::Internal.to_str(), "internal");
    assert_eq!(ProjectVisibility::Private.to_str(), "private");
}

#[test]
fn user_state_round_trip() {
    for v in [UserState::Active, UserState::Blocked] {
        assert_eq!(UserState::from_str(v.to_str()).unwrap(), v);
    }
    assert_eq!(UserState::Active.to_str(), "active");
    assert_eq!(UserState::Blocked.to_str(), "blocked");
}

#[test]
fn mr_state_round_trip() {
    for v in [MRState::Opened, MRState::Closed, MRState::Locked, MRState::Merged] {
        assert_eq!(MRState::from_str(v.to_str()).unwrap(), v);
    }
    assert_eq!(MRState::Opened.to_str(), "opened");
    assert_eq!(MRState::Closed.to_str(), "closed");
    assert_eq!(MRState::Locked.to_str(), "locked");
    assert_eq!(MRState::Merged.to_str(), "merged");
}

#[test]
fn mr_scope_round_trip() {
    for v in [MRScope::CreatedByMe, MRScope::AssignedToMe, MRScope::All] {
        assert_eq!(MRScope::from_str(v.to_str()).unwrap(), v);
    }
    assert_eq!(MRScope::CreatedByMe.to_str(), "created_by_me");
    assert_eq!(MRScope::AssignedToMe.to_str(), "assigned_to_me");
    assert_eq!(MRScope::All.to_str(), "all");
}

#[test]
fn parse_outside_closed_set_carries_string() {
    assert_eq!(
        ProjectVisibility::from_str("hidden").unwrap_err(),
        GLApiError::ParseError("hidden".to_string())
    );
    assert_eq!(
        UserState::from_str("Active").unwrap_err(),
        GLApiError::ParseError("Active".to_string())
    );
    assert_eq!(
        MRState::from_str("open").unwrap_err(),
        GLApiError::ParseError("open".to_string())
    );
    assert_eq!(
        MRScope::from_str("").unwrap_err(),
        GLApiError::ParseError("".to_string())
    );
}
