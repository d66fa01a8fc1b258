//! The public landing page.

use vstd::prelude::*;

verus! {

/// Props of the landing page.
#[derive(Clone, Debug, PartialEq, Eq)]
pub struct HomeProps {
    pub title: String,
    pub message: String,
}

impl HomeProps {
    /// The landing page's greeting.
    pub fn welcome() -> (r: HomeProps)
        ensures
            r.title@ == "Welcome to Suprnova!"@,
            r.message@ == "Your Inertia app is ready."@,
    {
        HomeProps {
            title: "Welcome to Suprnova!".to_owned(),
            message: "Your Inertia app is ready.".to_owned(),
        }
    }
}

} // verus!
