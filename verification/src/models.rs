//! Rows of the database tables the application reads and writes. The
//! persistence layer maps these plain records to and from its own entities.

pub mod monitored_services;
pub mod service_heartbeats;
pub mod system_users;
pub mod user_sessions;

use vstd::prelude::*;

verus! {

/// The timestamp type of the database layer (a date and time without zone),
/// carried through unchanged.
#[verifier::external_type_specification]
#[verifier::external_body]
pub struct ExNaiveDateTime(chrono::NaiveDateTime);

/// `NaiveDateTime::clone`: the type is `Copy`, so a clone is the same value.
pub assume_specification[ <chrono::NaiveDateTime as Clone>::clone ](dt: &chrono::NaiveDateTime) -> (r: chrono::NaiveDateTime)
    ensures
        r == *dt,
;

} // verus!
