//! An operator account of the command center.

use vstd::prelude::*;

verus! {

/// One row of `system_users`.
#[derive(Clone, Debug, PartialEq, Eq)]
pub struct Model {
    pub id: i32,
    pub username: String,
    pub password_hash: String,
    pub role: String,
    pub created_at: Option<chrono::NaiveDateTime>,
}

} // verus!
