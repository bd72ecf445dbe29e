//! The user resource: record type, the user-state enumeration and its
//! wire encoding, and the user-listing query builder.

use vstd::prelude::*;
use vstd::string::StringExecFns;

use crate::error::GLApiError;
use crate::query::{pair_views, push_pair};
use crate::text::{spec_dec, str_eq, u32_to_dec_str};

verus! {

/// The endpoint path for listing users.
pub fn url_all() -> (r: &'static str)
    ensures
        r@ == "/users"@,
{
    "/users"
}

/// A read-only projection of the server's user record.
#[derive(Debug, Clone, PartialEq, Eq)]
pub struct User {
    pub id: u32,
    pub username: String,
    pub name: String,
    pub state: String,
}

/// The closed set of user states.
#[derive(Debug, Clone, Copy, PartialEq, Eq, Structural)]
pub enum UserState {
    Active,
    Blocked,
}

/// The canonical wire encoding of a user state.
pub open spec fn user_state_str(st: UserState) -> Seq<char> {
    match st {
        UserState::Active => "active"@,
        UserState::Blocked => "blocked"@,
    }
}

/// The parse of a wire string as a user state; strings outside the closed
/// set parse to nothing.
pub open spec fn user_state_parse(s: Seq<char>) -> Option<UserState> {
    if s == "active"@ {
        Some(UserState::Active)
    } else if s == "blocked"@ {
        Some(UserState::Blocked)
    } else {
        None
    }
}

impl UserState {
    /// The canonical wire encoding of this state.
    pub fn to_str(&self) -> (r: &'static str)
        ensures
            r@ == user_state_str(*self),
    {
        match self {
            UserState::Active => "active",
            UserState::Blocked => "blocked",
        }
    }

    /// Parses a wire string; anything outside the closed set fails with
    /// the classified parse error carrying that exact string.
    pub fn from_str(s: &str) -> (r: Result<UserState, GLApiError>)
        ensures
            user_state_parse(s@) matches Some(v) ==> (r matches Ok(w) && w == v),
            user_state_parse(s@) is None ==> (r matches Err(e) && e
                matches GLApiError::ParseError(t) && t@ == s@),
    {
        if str_eq(s, "active") {
            Ok(UserState::Active)
        } else if str_eq(s, "blocked") {
            Ok(UserState::Blocked)
        } else {
            Err(GLApiError::ParseError(s.to_owned()))
        }
    }
}

/// Serializing a user state and parsing it back yields the same state.
pub proof fn lemma_user_state_round_trip(st: UserState)
    ensures
        user_state_parse(user_state_str(st)) == Some(st),
{
    reveal_strlit("active");
    reveal_strlit("blocked");
    assert("active"@.len() != "blocked"@.len());
}

/// The query parameters of the user listing.
///
/// Only `per_page` has a fixed default; the optional filters are omitted
/// from the serialization unless set.
#[derive(Debug, Clone)]
pub struct GetUsersQuery {
    pub username: Option<String>,
    pub state: Option<UserState>,
    pub per_page: u8,
}

impl GetUsersQuery {
    /// The canonical wire pairs: the page size always, then the username
    /// filter when set, then the state quirk.  The requested state is
    /// encoded as a flag whose *name* is the state value and whose value
    /// is the literal string `true` — an intentional quirk of the remote
    /// API, preserved as such.
    pub open spec fn spec_pairs(self) -> Seq<(Seq<char>, Seq<char>)> {
        seq![("per_page"@, spec_dec(self.per_page as nat))] + (match self.username {
            Some(u) => seq![("username"@, u@)],
            None => seq![],
        }) + (match self.state {
            Some(st) => seq![(user_state_str(st), "true"@)],
            None => seq![],
        })
    }

    /// A query with no filters: its serialization holds only the fixed
    /// page-size default.
    pub fn new() -> (r: GetUsersQuery)
        ensures
            r.username is None,
            r.state is None,
            r.per_page == 100,
            r.spec_pairs() =~= seq![("per_page"@, spec_dec(100))],
    {
        GetUsersQuery { username: None, state: None, per_page: 100 }
    }

    /// Sets the username filter and leaves every other field unchanged.
    pub fn username(self, val: &str) -> (r: GetUsersQuery)
        ensures
            r.username matches Some(u) && u@ == val@,
            r.state == self.state,
            r.per_page == self.per_page,
    {
        GetUsersQuery { username: Some(val.to_owned()), ..self }
    }

    /// Sets the state filter and leaves every other field unchanged.
    pub fn state(self, val: UserState) -> (r: GetUsersQuery)
        ensures
            r.state == Some(val),
            r.username == self.username,
            r.per_page == self.per_page,
    {
        GetUsersQuery { state: Some(val), ..self }
    }

    /// Serializes exactly the non-absent wire fields.
    pub fn to_query_pairs(&self) -> (r: Vec<(String, String)>)
        ensures
            pair_views(r@) == self.spec_pairs(),
    {
        let mut v: Vec<(String, String)> = Vec::new();
        let pp = u32_to_dec_str(self.per_page as u32);
        push_pair(&mut v, "per_page", pp.as_str());
        if let Some(u) = &self.username {
            push_pair(&mut v, "username", u.as_str());
        }
        if let Some(st) = &self.state {
            push_pair(&mut v, st.to_str(), "true");
        }
        proof {
            assert(pair_views(v@) =~= self.spec_pairs());
        }
        v
    }
}

} // verus!
