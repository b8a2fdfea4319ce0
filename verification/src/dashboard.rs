//! What the control panel shows: which operator controls a role unlocks and
//! how each monitored service's status is badged.

use vstd::prelude::*;
use crate::rbac::{RbacExtensions, RequestContext, role_grants};

verus! {

/// The controls offered on the panel.
#[derive(Copy, Clone, Debug, PartialEq, Eq)]
pub enum ControlDeck {
    /// A notice that the role cannot change anything.
    ReadOnly,
    /// The counter flush button.
    Operator,
    /// The counter flush and the emergency shutdown buttons.
    OperatorWithShutdown,
}

/// The deck for a requester's role: operator controls need the `Operator`
/// tier, the shutdown button additionally the `SuperAdmin` tier.
pub open spec fn deck_for(role: Option<Seq<char>>) -> ControlDeck {
    if !role_grants(role, "Operator"@) {
        ControlDeck::ReadOnly
    } else if role_grants(role, "SuperAdmin"@) {
        ControlDeck::OperatorWithShutdown
    } else {
        ControlDeck::Operator
    }
}

/// The deck shown to this request.
pub fn control_deck(ctx: &RequestContext) -> (deck: ControlDeck)
    ensures
        deck == deck_for(ctx.spec_user_role()),
{
    if ctx.has_role("Operator") {
        if ctx.has_role("SuperAdmin") {
            ControlDeck::OperatorWithShutdown
        } else {
            ControlDeck::Operator
        }
    } else {
        ControlDeck::ReadOnly
    }
}

/// The CSS classes of a status pill and of its dot.
pub struct StatusBadge {
    pub pill: &'static str,
    pub dot: &'static str,
}

/// Green for `UP`, yellow for `DEGRADED`, red for anything else.
pub open spec fn badge_for(status: Seq<char>) -> (Seq<char>, Seq<char>) {
    if status == "UP"@ {
        ("bg-green-500/10 text-green-400"@, "bg-green-400 animate-pulse"@)
    } else if status == "DEGRADED"@ {
        ("bg-yellow-500/10 text-yellow-400"@, "bg-yellow-400 animate-pulse"@)
    } else {
        ("bg-red-500/10 text-red-400"@, "bg-red-400"@)
    }
}

/// The badge of a service in the given status.
pub fn status_badge(status: &str) -> (b: StatusBadge)
    ensures
        (b.pill@, b.dot@) == badge_for(status@),
{
    let s = status.to_owned();
    if s == "UP".to_owned() {
        StatusBadge { pill: "bg-green-500/10 text-green-400", dot: "bg-green-400 animate-pulse" }
    } else if s == "DEGRADED".to_owned() {
        StatusBadge { pill: "bg-yellow-500/10 text-yellow-400", dot: "bg-yellow-400 animate-pulse" }
    } else {
        StatusBadge { pill: "bg-red-500/10 text-red-400", dot: "bg-red-400" }
    }
}

} // verus!
