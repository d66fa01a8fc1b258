//! Where each route gate sends a request it turns away.

use vstd::prelude::*;

verus! {

/// The kit's route gates.
#[derive(Clone, Debug, PartialEq, Eq)]
pub enum Gate {
    /// Authenticated users only; others go to the login page.
    Auth,
    /// Guests only; authenticated users go to the dashboard.
    Guest,
    /// E-mail-verified users only (composed after `Auth`); others go to
    /// the verification notice.
    Verified,
}

/// The path a gate redirects a turned-away request to.
pub open spec fn spec_redirect_target(g: Gate) -> Seq<char> {
    match g {
        Gate::Auth => "/login"@,
        Gate::Guest => "/dashboard"@,
        Gate::Verified => "/verify-email"@,
    }
}

/// The path a gate redirects a turned-away request to.
pub fn redirect_target(g: Gate) -> (r: &'static str)
    ensures
        r@ == spec_redirect_target(g),
{
    match g {
        Gate::Auth => "/login",
        Gate::Guest => "/dashboard",
        Gate::Verified => "/verify-email",
    }
}

} // verus!
