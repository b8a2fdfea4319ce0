//! A persisted login session.

use vstd::prelude::*;

verus! {

/// One row of `user_sessions`; `id` is the session token.
#[derive(Clone, Debug, PartialEq, Eq)]
pub struct Model {
    pub id: String,
    pub user_id: i32,
    pub expires_at: chrono::NaiveDateTime,
    pub created_at: Option<chrono::NaiveDateTime>,
}

/// Relations of `user_sessions`: each belongs to a system user.
#[derive(Copy, Clone, Debug, PartialEq, Eq)]
pub enum Relation {
    SystemUsers,
}

} // verus!
