use command_center::dashboard::{control_deck, status_badge, ControlDeck};
use command_center::layout::nav_state;
use command_center::rbac::{RbacExtensions, RequestContext};
use command_center::session::SessionData;

fn ctx_with_role(role: Option<&str>) -> RequestContext {
    let mut data = SessionData::new();
    if let Some(r) = role {
        data.insert("role".to_string(), r.to_string());
    }
    RequestContext { session: Some(data) }
}

#[test]
fn super_admin_reaches_every_tier() {
    let ctx = ctx_with_role(Some("SuperAdmin"));
    for t in ["SuperAdmin", "Operator", "Auditor", "Anything"] {
        assert!(ctx.has_role(t));
        assert!(ctx.require_role(t));
    }
}

#[test]
fn operator_reaches_all_but_super_admin() {
    let ctx = ctx_with_role(Some("Operator"));
    assert!(!ctx.has_role("SuperAdmin"));
    assert!(ctx.has_role("Operator"));
    assert!(ctx.has_role("Auditor"));
    assert!(ctx.has_role("Admin"));
}

#[test]
fn auditor_reaches_only_auditor() {
    let ctx = ctx_with_role(Some("Auditor"));
    assert!(ctx.has_role("Auditor"));
    assert!(!ctx.has_role("Operator"));
    assert!(!ctx.has_role("SuperAdmin"));
}

#[test]
fn unknown_role_and_missing_role_reach_nothing() {
    let ctx = ctx_with_role(Some("Admin"));
    assert!(!ctx.has_role("Admin"));
    assert!(!ctx.has_role("Auditor"));
    let no_role = ctx_with_role(None);
    assert_eq!(no_role.get_user_role(), None);
    assert!(!no_role.has_role("Auditor"));
    let no_session = RequestContext { session: None };
    assert_eq!(no_session.get_user_role(), None);
    assert!(!no_session.require_role("Auditor"));
}

#[test]
fn role_is_read_from_the_session() {
    let ctx = ctx_with_role(Some("Operator"));
    assert_eq!(ctx.get_user_role(), Some("Operator".to_string()));
}

#[test]
fn hierarchy_is_monotone_on_samples() {
    let roles = ["Auditor", "Operator", "SuperAdmin"];
    for t in ["Auditor", "Operator", "SuperAdmin", "Other"] {
        for w in roles.windows(2) {
            if ctx_with_role(Some(w[0])).has_role(t) {
                assert!(ctx_with_role(Some(w[1])).has_role(t));
            }
        }
    }
}

#[test]
fn session_insert_replaces_and_get_reads() {
    let mut s = SessionData::new();
    assert_eq!(s.get("role"), None);
    s.insert("role".to_string(), "Auditor".to_string());
    s.insert("user_id".to_string(), "7".to_string());
    s.insert("role".to_string(), "Operator".to_string());
    assert_eq!(s.get("role"), Some("Operator".to_string()));
    assert_eq!(s.get("user_id"), Some("7".to_string()));
    assert_eq!(s.get("missing"), None);
}

#[test]
fn csrf_token_field_defaults_to_empty() {
    let mut data = SessionData::new();
    data.insert("csrf_token".to_string(), "tok-123".to_string());
    let ctx = RequestContext { session: Some(data) };
    assert_eq!(ctx.csrf_token_field(), "tok-123");
    assert_eq!(ctx_with_role(None).csrf_token_field(), "");
    assert_eq!(RequestContext { session: None }.csrf_token_field(), "");
}

#[test]
fn control_deck_follows_the_role() {
    assert_eq!(control_deck(&ctx_with_role(Some("SuperAdmin"))), ControlDeck::OperatorWithShutdown);
    assert_eq!(control_deck(&ctx_with_role(Some("Operator"))), ControlDeck::Operator);
    assert_eq!(control_deck(&ctx_with_role(Some("Auditor"))), ControlDeck::ReadOnly);
    assert_eq!(control_deck(&RequestContext { session: None }), ControlDeck::ReadOnly);
}

#[test]
fn status_badges() {
    let up = status_badge("UP");
    assert_eq!(up.pill, "bg-green-500/10 text-green-400");
    assert_eq!(up.dot, "bg-green-400 animate-pulse");
    let degraded = status_badge("DEGRADED");
    assert_eq!(degraded.pill, "bg-yellow-500/10 text-yellow-400");
    assert_eq!(degraded.dot, "bg-yellow-400 animate-pulse");
    let down = status_badge("DOWN");
    assert_eq!(down.pill, "bg-red-500/10 text-red-400");
    assert_eq!(down.dot, "bg-red-400");
    assert_eq!(status_badge("up").pill, "bg-red-500/10 text-red-400");
}

#[test]
fn nav_state_for_guests_and_users() {
    let guest = nav_state(false, None);
    assert!(guest.show_guest_links);
    assert_eq!(guest.role_badge, "Guest");
    let user = nav_state(true, Some("Operator".to_string()));
    assert!(!user.show_guest_links);
    assert_eq!(user.role_badge, "Operator");
}
