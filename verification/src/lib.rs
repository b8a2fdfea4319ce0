//! Verified core of the admin command center: role-based access control,
//! session bookkeeping, password handling, the decisions taken by the
//! authentication pages and the control panel, the service health monitor
//! and the live telemetry stream.

pub mod auth;
pub mod control;
pub mod crypto;
pub mod dashboard;
pub mod layout;
pub mod models;
pub mod monitor;
pub mod rbac;
pub mod routes;
pub mod session;
pub mod telemetry;
pub mod text;
