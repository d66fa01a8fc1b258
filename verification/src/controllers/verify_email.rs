//! E-mail verification: the notice, the resend, and the link consumer.
//!
//! A verified user has nothing to do on the notice and is sent on to
//! `/dashboard`; a resend mails only an unverified user; a consumed token
//! leads to `/dashboard`, a bad one back to the notice with a status flag.

use vstd::prelude::*;
use vstd::string::StringExecFns;

use crate::controllers::{redirect, redirects_to, Reply};

verus! {

/// The link a verification token is appended to (`{base}?token=…`): the
/// `/verify-email/verify` consumer under the kit's base URL.
pub fn verify_base(app_url: &str) -> (r: String)
    ensures
        r@ == app_url@ + "/verify-email/verify"@,
{
    let mut base = app_url.to_owned();
    base.append("/verify-email/verify");
    base
}

/// Props of the verification notice page.
#[derive(Clone, Debug, PartialEq, Eq)]
pub struct VerifyEmailProps {
    /// `None` on the plain notice; `Some("invalid-or-expired")` when a bad
    /// token reached the link consumer.
    pub status: Option<String>,
}

/// The status flag of the notice props.
pub open spec fn status_view(p: VerifyEmailProps) -> Option<Seq<char>> {
    match p.status {
        Some(s) => Some(s@),
        None => None,
    }
}

/// `r` renders the verification notice with the status flag `status`.
pub open spec fn shows_notice(r: Reply, status: Option<Seq<char>>) -> bool {
    r matches Reply::VerifyNotice { props } && status_view(props) == status
}

impl VerifyEmailProps {
    /// The plain notice.
    pub fn notice() -> (r: VerifyEmailProps)
        ensures
            status_view(r) == None::<Seq<char>>,
    {
        VerifyEmailProps { status: None }
    }

    /// The notice after a bad verification link.
    pub fn invalid_or_expired() -> (r: VerifyEmailProps)
        ensures
            status_view(r) == Some("invalid-or-expired"@),
    {
        VerifyEmailProps { status: Some("invalid-or-expired".to_owned()) }
    }
}

/// The answer to `GET /verify-email`, given the current user's verification
/// state (`None` when no user resolves): a verified user is sent on to
/// `/dashboard`, everyone else sees the plain notice.
pub fn notice_reply(user_verified: Option<bool>) -> (r: Reply)
    ensures
        user_verified == Some(true) ==> redirects_to(r, "/dashboard"@),
        user_verified != Some(true) ==> shows_notice(r, None),
{
    match user_verified {
        Some(true) => redirect("/dashboard"),
        _ => Reply::VerifyNotice { props: VerifyEmailProps::notice() },
    }
}

/// What a resend does.
#[derive(Clone, Debug, PartialEq, Eq)]
pub enum ResendPlan {
    /// No user resolves: answer `401`.
    Unauthorized,
    /// Mail a fresh link to the (unverified) user, then answer.
    Send,
    /// The user is already verified: mail nothing, then answer.
    Skip,
}

/// What `POST /email/verification-notification` does for the current
/// user's verification state (`None` when no user resolves).
pub fn resend_plan(user_verified: Option<bool>) -> (r: ResendPlan)
    ensures
        user_verified is None <==> r is Unauthorized,
        user_verified == Some(false) <==> r is Send,
        user_verified == Some(true) <==> r is Skip,
{
    match user_verified {
        None => ResendPlan::Unauthorized,
        Some(false) => ResendPlan::Send,
        Some(true) => ResendPlan::Skip,
    }
}

/// The answer to a resend that found a user (mailed or not).
pub fn resend_reply() -> (r: Reply)
    ensures
        redirects_to(r, "/verify-email"@),
{
    redirect("/verify-email")
}

/// The answer to `GET /verify-email/verify`, given whether the token was
/// consumed: into `/dashboard`, or back to the notice flagged
/// `invalid-or-expired`.
pub fn verify_reply(consumed: bool) -> (r: Reply)
    ensures
        consumed ==> redirects_to(r, "/dashboard"@),
        !consumed ==> shows_notice(r, Some("invalid-or-expired"@)),
{
    if consumed {
        redirect("/dashboard")
    } else {
        Reply::VerifyNotice { props: VerifyEmailProps::invalid_or_expired() }
    }
}

} // verus!
