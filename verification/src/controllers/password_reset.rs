//! Password reset: request a link, then set a new password with it.
//!
//! Requesting a link answers the same way whether or not the address is
//! registered, so a caller cannot probe which addresses exist. A reset with
//! a bad, expired or spent token is refused on the `token` field.

use vstd::prelude::*;
use vstd::string::StringExecFns;

use crate::controllers::{query_or_empty, redirect, redirects_to, Reply};
use crate::validation::{email_is_valid, has_min_chars, rule, staged, valid_email, FormErrors};

verus! {

/// The link a reset token is appended to (`{base}?token=…`): the
/// `/reset-password` page under the kit's base URL.
pub fn reset_base(app_url: &str) -> (r: String)
    ensures
        r@ == app_url@ + "/reset-password"@,
{
    let mut base = app_url.to_owned();
    base.append("/reset-password");
    base
}

/// Props of the "request a reset link" page.
#[derive(Clone, Debug, PartialEq, Eq)]
pub struct ForgotPasswordProps {}

/// Props of the new-password page.
#[derive(Clone, Debug, PartialEq, Eq)]
pub struct ResetPasswordProps {
    /// The token from the e-mailed link, carried through to the form.
    pub token: String,
}

impl ResetPasswordProps {
    /// The page props for the `token` query parameter (empty when absent;
    /// the post then fails the token check).
    pub fn from_query(token: Option<String>) -> (r: ResetPasswordProps)
        ensures
            r.token@ == match token {
                Some(t) => t@,
                None => Seq::<char>::empty(),
            },
    {
        ResetPasswordProps { token: query_or_empty(token) }
    }
}

/// The "request a reset link" form.
#[derive(Clone, Debug, PartialEq, Eq)]
pub struct SendLinkRequest {
    pub email: String,
}

impl SendLinkRequest {
    /// The failures of the per-field rules.
    pub open spec fn field_errors(&self) -> Seq<(Seq<char>, Seq<char>)> {
        rule(!valid_email(self.email@), "email"@, "Enter a valid email address."@)
    }

    /// Runs the per-field rules.
    pub fn validate(&self) -> (r: FormErrors)
        ensures
            r@ == self.field_errors(),
    {
        let mut errs = FormErrors::new();
        if !email_is_valid(self.email.as_str()) {
            errs.add("email", "Enter a valid email address.");
        }
        assert(errs@ =~= self.field_errors());
        errs
    }

    /// The whole validation pipeline (no cross-field check).
    pub fn check(&self) -> (r: Result<(), FormErrors>)
        ensures
            valid_email(self.email@) <==> r is Ok,
            r is Ok <==> self.field_errors().len() == 0,
            r matches Err(e) ==> e@ == self.field_errors(),
    {
        let errs = self.validate();
        if errs.is_empty() {
            Ok(())
        } else {
            Err(errs)
        }
    }
}

/// The new-password form.
#[derive(Clone, Debug, PartialEq, Eq)]
pub struct ResetRequest {
    pub token: String,
    pub password: String,
    pub password_confirmation: String,
}

impl ResetRequest {
    /// The failures of the per-field rules.
    pub open spec fn field_errors(&self) -> Seq<(Seq<char>, Seq<char>)> {
        rule(!(self.password@.len() >= 8), "password"@, "Password must be at least 8 characters."@)
    }

    /// The failures of the cross-field check.
    pub open spec fn cross_errors(&self) -> Seq<(Seq<char>, Seq<char>)> {
        rule(self.password@ != self.password_confirmation@, "password"@, "Passwords do not match."@)
    }

    /// Runs the per-field rules.
    pub fn validate(&self) -> (r: FormErrors)
        ensures
            r@ == self.field_errors(),
    {
        let mut errs = FormErrors::new();
        if !has_min_chars(self.password.as_str(), 8) {
            errs.add("password", "Password must be at least 8 characters.");
        }
        assert(errs@ =~= self.field_errors());
        errs
    }

    /// Cross-field check: the password and its confirmation must match.
    pub fn after_validation(&self) -> (r: Result<(), FormErrors>)
        ensures
            r is Ok <==> self.cross_errors().len() == 0,
            r matches Err(e) ==> e@ == self.cross_errors(),
    {
        if self.password != self.password_confirmation {
            return Err(FormErrors::single("password", "Passwords do not match."));
        }
        Ok(())
    }

    /// The whole validation pipeline: field rules, then (only when they all
    /// pass) the cross-field check.
    pub fn check(&self) -> (r: Result<(), FormErrors>)
        ensures
            (self.password@.len() >= 8 && self.password@ == self.password_confirmation@) <==> r is Ok,
            r is Ok <==> staged(self.field_errors(), self.cross_errors()).len() == 0,
            r matches Err(e) ==> e@ == staged(self.field_errors(), self.cross_errors()),
    {
        let errs = self.validate();
        if !errs.is_empty() {
            return Err(errs);
        }
        self.after_validation()
    }
}

/// The answer to a (valid) request for a reset link. It takes no input:
/// whether the address is registered, and whether a mail went out, cannot
/// show in it.
pub fn send_link_reply() -> (r: Reply)
    ensures
        redirects_to(r, "/forgot-password"@),
{
    redirect("/forgot-password")
}

/// The answer to a (valid) new-password form, given whether the token was
/// consumed and the password set: into `/login` with the success flash, or
/// the 422 envelope with the error on `token`.
pub fn reset_reply(completed: bool) -> (r: Reply)
    ensures
        completed ==> (r matches Reply::RedirectWithSuccess { to, message }
            && to@ == "/login"@
            && message@ == "Your password has been reset. Log in with your new password."@),
        !completed ==> (r matches Reply::Unprocessable { errors }
            && errors@ == seq![("token"@, "This password reset link is invalid or has expired."@)]),
{
    if completed {
        Reply::RedirectWithSuccess {
            to: "/login".to_owned(),
            message: "Your password has been reset. Log in with your new password.".to_owned(),
        }
    } else {
        Reply::Unprocessable {
            errors: FormErrors::single("token", "This password reset link is invalid or has expired."),
        }
    }
}

/// An accepted new-password form has a matching confirmation and a
/// password of eight or more characters.
pub proof fn law_accepted_reset_is_well_formed(form: ResetRequest)
    requires
        staged(form.field_errors(), form.cross_errors()).len() == 0,
    ensures
        form.password@ == form.password_confirmation@,
        form.password@.len() >= 8,
{
}

/// The new-password rules fail exactly on what they check: the length
/// rule only on fewer than eight characters, the cross-field check only on
/// a mismatched confirmation; a form with eight or more characters and a
/// matching confirmation is accepted, whatever the characters are.
pub proof fn law_reset_rules_fail_exactly_on_their_checks(form: ResetRequest)
    ensures
        form.field_errors().contains(("password"@, "Password must be at least 8 characters."@)) <==> form.password@.len() < 8,
        form.field_errors().len() == 0 <==> form.password@.len() >= 8,
        form.cross_errors().len() == 0 <==> form.password@ == form.password_confirmation@,
        (form.password@.len() >= 8 && form.password@ == form.password_confirmation@)
            <==> staged(form.field_errors(), form.cross_errors()).len() == 0,
{
    let f = form.field_errors();
    if form.password@.len() < 8 {
        assert(f[0] == ("password"@, "Password must be at least 8 characters."@));
    }
}

} // verus!
