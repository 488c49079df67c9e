//! The three response payload types and their constructors.

use vstd::prelude::*;

verus! {

/// Body of the health route: a fixed status word and a timestamp taken from
/// the wall clock when the request is handled.
pub struct Health {
    pub status: String,
    pub timestamp: String,
}

/// Body of the root route: a fixed greeting.
pub struct Message {
    pub message: String,
}

/// A user record. The store that would hold these is never populated, so the
/// listing below is always empty; the type is kept for the declared surface.
#[derive(Clone)]
pub struct User {
    pub id: usize,
    pub name: String,
    pub email: String,
}

/// Body of the user-listing route: an ordered sequence of users, always empty.
pub struct UsersResponse {
    pub users: Vec<User>,
}

/// Builds the root greeting payload.
pub fn root() -> (m: Message)
    ensures
        m.message@ == crate::spec_greeting(),
{
    Message { message: String::from_str("Axum skeleton API is running!") }
}

/// Builds the health payload around a timestamp the caller already holds.
pub fn health_with_timestamp(timestamp: String) -> (h: Health)
    ensures
        h.status@ == "healthy"@,
        h.timestamp == timestamp,
{
    Health { status: String::from_str("healthy"), timestamp }
}

/// Builds the health payload: the fixed status word and the wall clock at the
/// moment of the call. The timestamp depends on the clock, so only its shape
/// is stated.
pub fn health() -> (h: Health)
    ensures
        h.status@ == "healthy"@,
        crate::clock::rfc3339_shaped(h.timestamp@),
{
    let now = crate::clock::now_rfc3339();
    health_with_timestamp(now)
}

/// Builds the user listing payload: the user store has no write path, so the
/// listing is empty on every call.
pub fn get_users() -> (u: UsersResponse)
    ensures
        u.users@ == Seq::<User>::empty(),
{
    let users: Vec<User> = Vec::new();
    UsersResponse { users }
}

} // verus!
