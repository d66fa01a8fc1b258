//! What every Inertia response shares: the authenticated user.

use vstd::prelude::*;

use crate::controllers::profile::Account;

verus! {

/// Shares the authenticated user on every Inertia response as `auth.user`
/// (`null` for a guest), the shape the front end's layout renders from.
#[derive(Clone, Debug, PartialEq, Eq)]
pub struct AuthShare;

/// The shared view of the authenticated user.
#[derive(Clone, Debug, PartialEq, Eq)]
pub struct SharedUser {
    pub id: i64,
    pub name: String,
    pub email: String,
}

/// The shared `auth` prop.
#[derive(Clone, Debug, PartialEq, Eq)]
pub struct SharedAuth {
    /// `None` for a guest.
    pub user: Option<SharedUser>,
}

/// `s` shares exactly the id, name and e-mail of `a`.
pub open spec fn shares(s: SharedUser, a: Account) -> bool {
    s.id == a.id && s.name@ == a.name@ && s.email@ == a.email@
}

impl AuthShare {
    /// The `auth` prop for the current user (`None` for a guest).
    pub fn share(&self, user: Option<&Account>) -> (r: SharedAuth)
        ensures
            user is None <==> r.user is None,
            user matches Some(a) ==> (r.user matches Some(s) && shares(s, *a)),
    {
        match user {
            Some(a) => SharedAuth {
                user: Some(SharedUser { id: a.id, name: a.name.clone(), email: a.email.clone() }),
            },
            None => SharedAuth { user: None },
        }
    }
}

} // verus!
