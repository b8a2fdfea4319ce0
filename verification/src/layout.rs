//! What the navigation bar of every page shows.

use vstd::prelude::*;

verus! {

/// The state of the navigation bar.
pub struct NavState {
    /// Show the Login and Register links (otherwise a Sign out button).
    pub show_guest_links: bool,
    /// The text of the role badge.
    pub role_badge: String,
}

/// A visitor who is not signed in sees the Login and Register links; the badge
/// shows the role, or `Guest` when there is none.
pub fn nav_state(authenticated: bool, role: Option<String>) -> (n: NavState)
    ensures
        n.show_guest_links == !authenticated,
        n.role_badge@ == match role {
            Some(r) => r@,
            None => "Guest"@,
        },
{
    NavState {
        show_guest_links: !authenticated,
        role_badge: match role {
            Some(r) => r,
            None => "Guest".to_owned(),
        },
    }
}

} // verus!
