//! The decisions taken by the login and registration pages: which reply a
//! request gets, what a successful login records in the session, and what
//! account row a registration creates.

use vstd::prelude::*;
use crate::crypto::{generate_hash, hash_prefix, password_matches, verify_password};
use crate::models::system_users;
use crate::rbac::{RbacExtensions, RequestContext, role_grants};
use crate::session::{apply_writes, pairs_view};
use crate::text::{concat, decimal, lemma_trimmed_idempotent, signed_to_decimal, trim, trimmed};

verus! {

/// An HTTP reply chosen by a page.
pub enum Reply {
    /// A redirect response to `location`.
    Redirect { status: u16, location: String },
    /// A page with this body, and a `Location` header when `location` is set.
    Page { status: u16, body: String, location: Option<String> },
}

/// A reply as plain values.
pub enum ReplyView {
    Redirect(u16, Seq<char>),
    Page(u16, Seq<char>, Option<Seq<char>>),
}

impl View for Reply {
    type V = ReplyView;

    open spec fn view(&self) -> ReplyView {
        match self {
            Reply::Redirect { status, location } => ReplyView::Redirect(*status, location@),
            Reply::Page { status, body, location } => ReplyView::Page(
                *status,
                body@,
                match location {
                    Some(l) => Some(l@),
                    None => None,
                },
            ),
        }
    }
}

/// 500: the database pool is not mounted.
pub open spec fn db_missing_reply() -> ReplyView {
    ReplyView::Page(500, "Database context pool missing"@, None)
}

/// 400: username or password left empty.
pub open spec fn missing_credentials_reply() -> ReplyView {
    ReplyView::Page(400, "Missing required creation credentials"@, None)
}

/// 500: the password could not be hashed.
pub open spec fn crypto_fault_reply() -> ReplyView {
    ReplyView::Page(500, "Internal crypto fault"@, None)
}

/// 303 to the login page: the account was created.
pub open spec fn registered_reply() -> ReplyView {
    ReplyView::Page(303, "Redirecting..."@, Some("/login"@))
}

/// 400: the database refused the new account, with its error text.
pub open spec fn rejected_reply(err: Seq<char>) -> ReplyView {
    ReplyView::Page(400, "Account deployment rejected: User might already exist ("@ + err + ")"@, None)
}

/// 303 to the dashboard.
pub open spec fn dashboard_redirect() -> ReplyView {
    ReplyView::Redirect(303, "/dashboard"@)
}

/// 401: no user matches the credentials.
pub open spec fn unauthorized_reply() -> ReplyView {
    ReplyView::Page(401, "<h1>401 Unauthorized</h1><p>No user found with the provided credentials.</p>"@, None)
}

fn db_missing() -> (r: Reply)
    ensures
        r@ == db_missing_reply(),
{
    Reply::Page { status: 500, body: "Database context pool missing".to_owned(), location: None }
}

/// Entry check of the login and registration forms: an authenticated user is
/// redirected to the dashboard (`Some`); everyone else is shown the form (`None`).
pub fn auth_form_gate(authenticated: bool) -> (r: Option<Reply>)
    ensures
        match r {
            Some(reply) => authenticated && reply@ == dashboard_redirect(),
            None => !authenticated,
        },
{
    if authenticated {
        Some(Reply::Redirect { status: 303, location: "/dashboard".to_owned() })
    } else {
        None
    }
}

/// A form field with surrounding whitespace removed, or `default` when absent.
pub open spec fn trimmed_field(field: Option<String>, default: Seq<char>) -> Seq<char> {
    match field {
        Some(s) => trimmed(s@),
        None => default,
    }
}

/// A form field as sent, or `default` when absent.
pub open spec fn raw_field(field: Option<String>, default: Seq<char>) -> Seq<char> {
    match field {
        Some(s) => s@,
        None => default,
    }
}

fn field_trimmed(field: Option<String>, default: &str) -> (r: String)
    ensures
        r@ == trimmed_field(field, default@),
{
    match field {
        Some(s) => trim(s.as_str()),
        None => default.to_owned(),
    }
}

fn field_raw(field: Option<String>, default: &str) -> (r: String)
    ensures
        r@ == raw_field(field, default@),
{
    match field {
        Some(s) => s,
        None => default.to_owned(),
    }
}

/// An account that passed the form checks and is ready to be hashed.
pub struct AccountRequest {
    pub username: String,
    pub password: String,
    pub role: String,
}

/// The checks of a registration form, on the already normalised fields:
/// username and password must both be non-empty.
pub open spec fn account_check(db_available: bool, username: Seq<char>, password: Seq<char>) -> Option<ReplyView> {
    if !db_available {
        Some(db_missing_reply())
    } else if username.len() == 0 || password.len() == 0 {
        Some(missing_credentials_reply())
    } else {
        None
    }
}

fn check_account(db_available: bool, username: String, password: String, role: String) -> (r: Result<AccountRequest, Reply>)
    ensures
        match r {
            Ok(req) => account_check(db_available, username@, password@) is None
                && req.username@ == username@ && req.password@ == password@ && req.role@ == role@,
            Err(reply) => account_check(db_available, username@, password@) == Some(reply@),
        },
{
    if !db_available {
        return Err(db_missing());
    }
    if username.unicode_len() == 0 || password.unicode_len() == 0 {
        return Err(Reply::Page { status: 400, body: "Missing required creation credentials".to_owned(), location: None });
    }
    Ok(AccountRequest { username, password, role })
}

/// The first step of `POST /auth/register/post`: the database must be
/// available, the fields are trimmed (a missing role means `Auditor`), and
/// both username and password must be non-empty.
pub fn plan_registration(
    db_available: bool,
    username: Option<String>,
    password: Option<String>,
    role: Option<String>,
) -> (r: Result<AccountRequest, Reply>)
    ensures
        match r {
            Ok(req) => account_check(db_available, trimmed_field(username, ""@), trimmed_field(password, ""@)) is None
                && req.username@ == trimmed_field(username, ""@)
                && req.password@ == trimmed_field(password, ""@)
                && req.role@ == trimmed_field(role, "Auditor"@),
            Err(reply) => account_check(db_available, trimmed_field(username, ""@), trimmed_field(password, ""@)) == Some(reply@),
        },
{
    if !db_available {
        return Err(db_missing());
    }
    let u = field_trimmed(username, "");
    let p = field_trimmed(password, "");
    let ro = field_trimmed(role, "Auditor");
    check_account(db_available, u, p, ro)
}

/// The first step of `POST /register`: as `plan_registration`, but the fields
/// are taken as sent, without trimming.
pub fn plan_registration_untrimmed(
    db_available: bool,
    username: Option<String>,
    password: Option<String>,
    role: Option<String>,
) -> (r: Result<AccountRequest, Reply>)
    ensures
        match r {
            Ok(req) => account_check(db_available, raw_field(username, ""@), raw_field(password, ""@)) is None
                && req.username@ == raw_field(username, ""@)
                && req.password@ == raw_field(password, ""@)
                && req.role@ == raw_field(role, "Auditor"@),
            Err(reply) => account_check(db_available, raw_field(username, ""@), raw_field(password, ""@)) == Some(reply@),
        },
{
    if !db_available {
        return Err(db_missing());
    }
    let u = field_raw(username, "");
    let p = field_raw(password, "");
    let ro = field_raw(role, "Auditor");
    check_account(db_available, u, p, ro)
}

/// A `system_users` row to insert (id and creation time come from the database).
pub struct NewAccount {
    pub username: String,
    pub password_hash: String,
    pub role: String,
}

/// The second step of a registration: hash the password. On success the row
/// keeps the username and role and stores a bcrypt hash that verifies against
/// the password; when hashing fails the reply is a 500.
pub fn create_account(request: AccountRequest) -> (r: Result<NewAccount, Reply>)
    ensures
        match r {
            Ok(acct) => {
                &&& acct.username@ == request.username@
                &&& acct.role@ == request.role@
                &&& acct.password_hash@.len() == 60
                &&& acct.password_hash@.subrange(0, 7) == hash_prefix(12)
                &&& password_matches(request.password@, acct.password_hash@)
            },
            Err(reply) => reply@ == crypto_fault_reply(),
        },
{
    match generate_hash(request.password.as_str()) {
        Ok(h) => Ok(NewAccount { username: request.username, password_hash: h, role: request.role }),
        Err(_) => Err(Reply::Page { status: 500, body: "Internal crypto fault".to_owned(), location: None }),
    }
}

/// The last step of a registration, once the database answered the insert:
/// a redirect to the login page, or a 400 quoting the database error.
pub fn registration_reply(insert: Result<(), String>) -> (r: Reply)
    ensures
        r@ == match insert {
            Ok(()) => registered_reply(),
            Err(e) => rejected_reply(e@),
        },
{
    match insert {
        Ok(()) => Reply::Page { status: 303, body: "Redirecting...".to_owned(), location: Some("/login".to_owned()) },
        Err(e) => {
            let head = concat("Account deployment rejected: User might already exist (", e.as_str());
            Reply::Page { status: 400, body: concat(head.as_str(), ")"), location: None }
        },
    }
}

/// The credentials of a login form: each field trimmed, empty when absent.
pub struct Credentials {
    pub username: String,
    pub password: String,
}

/// The first step of `POST /auth/login/post`: the database must be available;
/// the username and password fields are trimmed (empty when absent).
pub fn plan_login(db_available: bool, username: Option<String>, password: Option<String>) -> (r: Result<Credentials, Reply>)
    ensures
        match r {
            Ok(c) => db_available && c.username@ == trimmed_field(username, ""@) && c.password@ == trimmed_field(password, ""@),
            Err(reply) => !db_available && reply@ == db_missing_reply(),
        },
{
    if !db_available {
        return Err(db_missing());
    }
    Ok(Credentials { username: field_trimmed(username, ""), password: field_trimmed(password, "") })
}

/// The session entries a successful login records: the user id in decimal and the role.
pub open spec fn login_writes(user_id: i32, role: Seq<char>) -> Seq<(Seq<char>, Seq<char>)> {
    seq![("user_id"@, decimal(user_id as int)), ("role"@, role)]
}

/// Whether the submitted password opens the account found for the username
/// (both sides trimmed before the bcrypt check).
pub open spec fn login_accepted(password: Seq<char>, user: Option<system_users::Model>) -> bool {
    match user {
        Some(u) => password_matches(trimmed(password), trimmed(u.password_hash@)),
        None => false,
    }
}

/// The result of a login attempt: the reply, and the entries to record in the session.
pub struct LoginOutcome {
    pub reply: Reply,
    pub session_writes: Vec<(String, String)>,
}

/// The second step of a login, once the account for the username was looked
/// up (`None` when there is none or the lookup failed): on a password match,
/// redirect to the dashboard and record the user id and role in the session;
/// otherwise a 401 and nothing recorded.
pub fn login_outcome(password: &str, user: Option<system_users::Model>) -> (r: LoginOutcome)
    ensures
        login_accepted(password@, user) ==> {
            &&& r.reply@ == dashboard_redirect()
            &&& pairs_view(r.session_writes@) == login_writes(user.unwrap().id, user.unwrap().role@)
        },
        !login_accepted(password@, user) ==> {
            &&& r.reply@ == unauthorized_reply()
            &&& r.session_writes@.len() == 0
        },
{
    match user {
        Some(u) => {
            let pw = trim(password);
            let stored = trim(u.password_hash.as_str());
            if verify_password(pw.as_str(), stored.as_str()) {
                let mut writes: Vec<(String, String)> = Vec::new();
                writes.push(("user_id".to_owned(), signed_to_decimal(u.id as i64)));
                writes.push(("role".to_owned(), u.role.clone()));
                assert(pairs_view(writes@) =~= login_writes(u.id, u.role@));
                return LoginOutcome {
                    reply: Reply::Redirect { status: 303, location: "/dashboard".to_owned() },
                    session_writes: writes,
                };
            }
        },
        None => {},
    }
    LoginOutcome {
        reply: Reply::Page {
            status: 401,
            body: "<h1>401 Unauthorized</h1><p>No user found with the provided credentials.</p>".to_owned(),
            location: None,
        },
        session_writes: Vec::new(),
    }
}

/// A login that was recorded in the session of a request is visible to the
/// access rules: the role read back is the account's role, every permission
/// check on the request is decided by that role, and the user id is stored
/// in decimal under `user_id`.
pub proof fn lemma_login_role_visible(
    before: RequestContext,
    after: RequestContext,
    user_id: i32,
    role: Seq<char>,
    target: Seq<char>,
)
    requires
        before.session is Some,
        after.session_view() == Some(apply_writes(before.session_view().unwrap(), login_writes(user_id, role))),
    ensures
        after.spec_user_role() == Some(role),
        role_grants(after.spec_user_role(), target) == role_grants(Some(role), target),
        after.session_view().unwrap().contains_key("user_id"@),
        after.session_view().unwrap()["user_id"@] == decimal(user_id as int),
{
    reveal_strlit("user_id");
    reveal_strlit("role");
    let m0 = before.session_view().unwrap();
    let w = login_writes(user_id, role);
    assert(w.drop_last().drop_last() =~= Seq::<(Seq<char>, Seq<char>)>::empty());
    assert(apply_writes(m0, w.drop_last().drop_last()) == m0);
    let m1 = m0.insert("user_id"@, decimal(user_id as int));
    assert(apply_writes(m0, w.drop_last()) == m1);
    assert(apply_writes(m0, w) == m1.insert("role"@, role));
    assert("user_id"@.len() != "role"@.len());
}

/// A refused login records nothing: the session is left as it was.
pub proof fn lemma_refused_login_keeps_session(m: Map<Seq<char>, Seq<char>>)
    ensures
        apply_writes(m, Seq::empty()) == m,
{
}

/// The password an account was registered with opens it at login: the
/// registration form's password, trimmed, is what `create_account` hashes;
/// the login form's password goes through the same trimming, and trimming
/// again changes nothing. The stored hash must carry no surrounding
/// whitespace, which holds of bcrypt's `$2b$` strings.
pub proof fn lemma_registered_password_opens_account(form_password: Option<String>, user: system_users::Model)
    requires
        password_matches(trimmed_field(form_password, ""@), user.password_hash@),
        trimmed(user.password_hash@) == user.password_hash@,
    ensures
        login_accepted(trimmed_field(form_password, ""@), Some(user)),
{
    reveal_strlit("");
    match form_password {
        Some(p) => lemma_trimmed_idempotent(p@),
        None => {
            assert(trimmed(Seq::<char>::empty()) == Seq::<char>::empty());
            assert(""@ =~= Seq::<char>::empty());
        },
    }
}

/// The only checks of a registration form are an available database and a
/// non-empty username and password: any non-empty pair is accepted, whatever
/// its length or content; without the database the answer is the 500 page,
/// and an empty username or password gets the 400 page.
pub proof fn lemma_account_check_accepts_nonempty(db_available: bool, username: Seq<char>, password: Seq<char>)
    ensures
        account_check(db_available, username, password) is None
            <==> (db_available && username.len() > 0 && password.len() > 0),
        !db_available ==> account_check(db_available, username, password)
            == Some(ReplyView::Page(500, "Database context pool missing"@, None)),
        db_available && (username.len() == 0 || password.len() == 0)
            ==> account_check(db_available, username, password)
                == Some(ReplyView::Page(400, "Missing required creation credentials"@, None)),
{
}

} // verus!
