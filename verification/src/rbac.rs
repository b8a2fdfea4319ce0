//! Role-based access control over the role cached in the user session.
//!
//! The hierarchy: `SuperAdmin` reaches every tier, `Operator` reaches every
//! tier but `SuperAdmin`, `Auditor` reaches the `Auditor` tier only, and a
//! request without a role, or with any other role, reaches nothing.

use vstd::prelude::*;
use crate::session::{SessionData, apply_writes, pairs_view};

verus! {

/// Whether a user holding `role` (if any) may access the `target` tier.
pub open spec fn role_grants(role: Option<Seq<char>>, target: Seq<char>) -> bool {
    match role {
        None => false,
        Some(r) => {
            ||| r == "SuperAdmin"@
            ||| (r == "Operator"@ && target != "SuperAdmin"@)
            ||| (r == "Auditor"@ && target == "Auditor"@)
        },
    }
}

/// The part of an incoming request that the access rules read: the session
/// store attached to it, when there is one.
pub struct RequestContext {
    pub session: Option<SessionData>,
}

/// Role lookups and permission checks on a request.
pub trait RbacExtensions {
    /// The role recorded for the requester, if any.
    spec fn spec_user_role(&self) -> Option<Seq<char>>;

    /// The role cached for the requester.
    fn get_user_role(&self) -> (role: Option<String>)
        ensures
            match role {
                Some(r) => self.spec_user_role() == Some(r@),
                None => self.spec_user_role() is None,
            };

    /// Whether the requester's role reaches the `target_role` tier.
    fn has_role(&self, target_role: &str) -> (granted: bool)
        ensures
            granted == role_grants(self.spec_user_role(), target_role@);

    /// The guard form of `has_role`: the same verdict.
    fn require_role(&self, target_role: &str) -> (granted: bool)
        ensures
            granted == role_grants(self.spec_user_role(), target_role@);
}

/// The role stored under the key "role" of the session, if there is a session.
pub open spec fn session_role(session: Option<Map<Seq<char>, Seq<char>>>) -> Option<Seq<char>> {
    match session {
        Some(m) => if m.contains_key("role"@) { Some(m["role"@]) } else { None },
        None => None,
    }
}

impl RequestContext {
    /// The session map, if the request carries a session.
    pub open spec fn session_view(&self) -> Option<Map<Seq<char>, Seq<char>>> {
        match self.session {
            Some(s) => Some(s@),
            None => None,
        }
    }

    /// Records `writes` in the session, in order; a request without a session
    /// is left as it is.
    pub fn apply_session_writes(&mut self, writes: &Vec<(String, String)>)
        ensures
            final(self).session_view() == match old(self).session_view() {
                Some(m) => Some(apply_writes(m, pairs_view(writes@))),
                None => None,
            },
    {
        match &mut self.session {
            Some(session) => session.insert_all(writes),
            None => {},
        }
    }

    /// The CSRF token stored in the session, or the empty string when there is
    /// none (no session, or no token in it).
    pub fn csrf_token_field(&self) -> (token: String)
        ensures
            token@ == match self.session_view() {
                Some(m) => if m.contains_key("csrf_token"@) { m["csrf_token"@] } else { Seq::empty() },
                None => Seq::empty(),
            },
    {
        match &self.session {
            Some(session) => match session.get("csrf_token") {
                Some(t) => t,
                None => String::new(),
            },
            None => String::new(),
        }
    }
}

/// Decides a permission check for a known role.
fn grants(role: &String, target_role: &str) -> (granted: bool)
    ensures
        granted == role_grants(Some(role@), target_role@),
{
    let target = target_role.to_owned();
    let super_admin = "SuperAdmin".to_owned();
    let operator = "Operator".to_owned();
    let auditor = "Auditor".to_owned();
    if *role == super_admin {
        true
    } else if *role == operator {
        !(target == super_admin)
    } else if *role == auditor {
        target == auditor
    } else {
        false
    }
}

impl RbacExtensions for RequestContext {
    open spec fn spec_user_role(&self) -> Option<Seq<char>> {
        session_role(self.session_view())
    }

    fn get_user_role(&self) -> (role: Option<String>) {
        match &self.session {
            Some(session) => session.get("role"),
            None => None,
        }
    }

    fn has_role(&self, target_role: &str) -> (granted: bool) {
        match self.get_user_role() {
            Some(role) => grants(&role, target_role),
            None => false,
        }
    }

    fn require_role(&self, target_role: &str) -> (granted: bool) {
        self.has_role(target_role)
    }
}

/// A request without a role is granted no tier at all.
pub proof fn lemma_no_role_no_access(target: Seq<char>)
    ensures
        !role_grants(None, target),
{
}

/// `SuperAdmin` bypasses every check.
pub proof fn lemma_super_admin_reaches_every_tier(target: Seq<char>)
    ensures
        role_grants(Some("SuperAdmin"@), target),
{
}

/// The tiers form a hierarchy: whatever an `Auditor` may access an
/// `Operator` may access, and whatever an `Operator` may access a
/// `SuperAdmin` may access.
pub proof fn lemma_hierarchy_is_monotone(target: Seq<char>)
    ensures
        role_grants(Some("Auditor"@), target) ==> role_grants(Some("Operator"@), target),
        role_grants(Some("Operator"@), target) ==> role_grants(Some("SuperAdmin"@), target),
{
    reveal_strlit("Auditor");
    reveal_strlit("Operator");
    reveal_strlit("SuperAdmin");
    assert("Auditor"@.len() != "SuperAdmin"@.len());
    assert("Auditor"@.len() != "Operator"@.len());
}

/// Only a `SuperAdmin` reaches the `SuperAdmin` tier.
pub proof fn lemma_super_admin_tier_is_exclusive(role: Option<Seq<char>>)
    ensures
        role_grants(role, "SuperAdmin"@) <==> role == Some("SuperAdmin"@),
{
    reveal_strlit("Auditor");
    reveal_strlit("SuperAdmin");
}

/// A role outside the three known ones reaches nothing, and each known role
/// reaches its own tier.
pub proof fn lemma_known_roles(role: Seq<char>, target: Seq<char>)
    ensures
        (role != "SuperAdmin"@ && role != "Operator"@ && role != "Auditor"@)
            ==> !role_grants(Some(role), target),
        role_grants(Some("SuperAdmin"@), "SuperAdmin"@),
        role_grants(Some("Operator"@), "Operator"@),
        role_grants(Some("Auditor"@), "Auditor"@),
{
    reveal_strlit("Operator");
    reveal_strlit("SuperAdmin");
}

} // verus!
