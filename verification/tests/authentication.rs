use command_center::auth::{
    auth_form_gate, create_account, login_outcome, plan_login, plan_registration,
    plan_registration_untrimmed, registration_reply, AccountRequest, Reply,
};
use command_center::crypto::{accept_verification, generate_hash, verify_password};
use command_center::models::system_users;
use command_center::rbac::{RbacExtensions, RequestContext};
use command_center::session::SessionData;

fn page(status: u16, body: &str, location: Option<&str>) -> (u16, String, Option<String>) {
    (status, body.to_string(), location.map(|l| l.to_string()))
}

fn as_page(r: &Reply) -> (u16, String, Option<String>) {
    match r {
        Reply::Page { status, body, location } => (*status, body.clone(), location.clone()),
        Reply::Redirect { .. } => panic!("expected a page"),
    }
}

fn as_redirect(r: &Reply) -> (u16, String) {
    match r {
        Reply::Redirect { status, location } => (*status, location.clone()),
        Reply::Page { .. } => panic!("expected a redirect"),
    }
}

#[test]
fn gate_redirects_signed_in_users() {
    assert_eq!(as_redirect(&auth_form_gate(true).unwrap()), (303, "/dashboard".to_string()));
    assert!(auth_form_gate(false).is_none());
}

#[test]
fn registration_without_database() {
    let r = plan_registration(false, Some("alice".into()), Some("pw".into()), None);
    assert_eq!(as_page(&r.err().unwrap()), page(500, "Database context pool missing", None));
}

#[test]
fn registration_trims_and_defaults_role() {
    let r = plan_registration(true, Some("  alice \t".into()), Some(" secret ".into()), None).ok().unwrap();
    assert_eq!(r.username, "alice");
    assert_eq!(r.password, "secret");
    assert_eq!(r.role, "Auditor");
    let r = plan_registration(true, Some("bob".into()), Some("pw".into()), Some(" Operator ".into())).ok().unwrap();
    assert_eq!(r.role, "Operator");
}

#[test]
fn registration_rejects_blank_credentials() {
    let r = plan_registration(true, Some("   ".into()), Some("pw".into()), None);
    assert_eq!(as_page(&r.err().unwrap()), page(400, "Missing required creation credentials", None));
    let r = plan_registration(true, Some("alice".into()), None, None);
    assert_eq!(as_page(&r.err().unwrap()), page(400, "Missing required creation credentials", None));
}

#[test]
fn untrimmed_registration_keeps_spaces() {
    let r = plan_registration_untrimmed(true, Some(" alice ".into()), Some("   ".into()), None).ok().unwrap();
    assert_eq!(r.username, " alice ");
    assert_eq!(r.password, "   ");
    assert_eq!(r.role, "Auditor");
    let r = plan_registration_untrimmed(true, Some("".into()), Some("pw".into()), None);
    assert_eq!(as_page(&r.err().unwrap()), page(400, "Missing required creation credentials", None));
}

#[test]
fn registration_replies() {
    assert_eq!(as_page(&registration_reply(Ok(()))), page(303, "Redirecting...", Some("/login")));
    assert_eq!(
        as_page(&registration_reply(Err("duplicate key".to_string()))),
        page(400, "Account deployment rejected: User might already exist (duplicate key)", None)
    );
}

#[test]
fn login_without_database() {
    let r = plan_login(false, Some("alice".into()), Some("pw".into()));
    assert_eq!(as_page(&r.err().unwrap()), page(500, "Database context pool missing", None));
}

#[test]
fn login_trims_credentials() {
    let c = plan_login(true, Some(" alice ".into()), None).ok().unwrap();
    assert_eq!(c.username, "alice");
    assert_eq!(c.password, "");
}

#[test]
fn accept_verification_reads_outcomes() {
    assert!(accept_verification(Ok(true)));
    assert!(!accept_verification(Ok(false)));
    assert!(!accept_verification(Err(bcrypt::BcryptError::CostNotAllowed(3))));
}

#[test]
fn malformed_hash_never_matches() {
    assert!(!verify_password("secret", "not-a-bcrypt-hash"));
    assert!(!verify_password("secret", ""));
    assert!(!verify_password("secret", "$2b$12$"));
    assert!(!verify_password("secret", "$2b$12$abc$def"));
}

#[test]
fn hash_then_verify_round_trip_and_login() {
    let h = generate_hash("s3cret").unwrap();
    assert_eq!(h.len(), 60);
    assert!(h.starts_with("$2b$12$"));
    assert!(verify_password("s3cret", &h));
    assert!(!verify_password("other", &h));

    let user = system_users::Model {
        id: 42,
        username: "alice".to_string(),
        password_hash: format!("  {}  ", h),
        role: "Operator".to_string(),
        created_at: None,
    };
    let ok = login_outcome(" s3cret ", Some(user.clone()));
    assert_eq!(as_redirect(&ok.reply), (303, "/dashboard".to_string()));
    assert_eq!(
        ok.session_writes,
        vec![("user_id".to_string(), "42".to_string()), ("role".to_string(), "Operator".to_string())]
    );

    let mut ctx = RequestContext { session: Some(SessionData::new()) };
    ctx.apply_session_writes(&ok.session_writes);
    assert_eq!(ctx.get_user_role(), Some("Operator".to_string()));
    assert!(ctx.has_role("Auditor"));
    assert!(!ctx.has_role("SuperAdmin"));

    let bad = login_outcome("wrong", Some(user));
    assert_eq!(
        as_page(&bad.reply),
        page(401, "<h1>401 Unauthorized</h1><p>No user found with the provided credentials.</p>", None)
    );
    assert!(bad.session_writes.is_empty());
}

#[test]
fn login_for_unknown_user_is_refused() {
    let r = login_outcome("anything", None);
    assert_eq!(as_page(&r.reply).0, 401);
    assert!(r.session_writes.is_empty());
    let mut ctx = RequestContext { session: None };
    ctx.apply_session_writes(&r.session_writes);
    assert!(ctx.session.is_none());
}

#[test]
fn create_account_hashes_the_password() {
    let req = AccountRequest { username: "bob".into(), password: "pw".into(), role: "Auditor".into() };
    let acct = create_account(req).ok().unwrap();
    assert_eq!(acct.username, "bob");
    assert_eq!(acct.role, "Auditor");
    assert!(acct.password_hash.starts_with("$2b$12$"));
    assert!(verify_password("pw", &acct.password_hash));
}

#[test]
fn negative_user_id_is_written_in_decimal() {
    let h = generate_hash("x").unwrap();
    let user = system_users::Model {
        id: -5,
        username: "neg".to_string(),
        password_hash: h,
        role: "Auditor".to_string(),
        created_at: None,
    };
    let ok = login_outcome("x", Some(user));
    assert_eq!(ok.session_writes[0], ("user_id".to_string(), "-5".to_string()));
}

#[test]
fn registered_password_opens_the_account() {
    let req = plan_registration(true, Some(" carol ".into()), Some("  hunter2 ".into()), Some("Auditor".into()))
        .ok()
        .unwrap();
    let acct = create_account(req).ok().unwrap();
    let user = system_users::Model {
        id: 7,
        username: acct.username.clone(),
        password_hash: acct.password_hash.clone(),
        role: acct.role.clone(),
        created_at: None,
    };
    let creds = plan_login(true, Some("carol".into()), Some("hunter2\t".into())).ok().unwrap();
    assert_eq!(creds.username, user.username);
    let outcome = login_outcome(&creds.password, Some(user));
    assert_eq!(as_redirect(&outcome.reply), (303, "/dashboard".to_string()));
    let mut ctx = RequestContext { session: Some(SessionData::new()) };
    ctx.apply_session_writes(&outcome.session_writes);
    assert_eq!(ctx.get_user_role(), Some("Auditor".to_string()));
    assert!(!ctx.has_role("Operator"));
}
