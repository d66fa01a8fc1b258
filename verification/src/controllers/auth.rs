//! Authentication: login, registration and logout.
//!
//! The login and register forms are validated field by field, then (for
//! registration) cross-field; failures go back to the page they came from.
//! A login succeeds into `/dashboard` exactly when the credentials were
//! accepted; a registration is refused when the address is already taken.

use vstd::prelude::*;

use crate::controllers::{deliver_error, deliver_errors, delivers, redirect, redirects_to, Reply};
use crate::validation::{email_is_valid, has_min_chars, lemma_three_rules, lemma_two_rules, rule, staged, valid_email, FormErrors};

verus! {

/// Props of the login page (validation errors ride Inertia's own `errors`).
#[derive(Clone, Debug, PartialEq, Eq)]
pub struct LoginProps {}

/// Props of the registration page.
#[derive(Clone, Debug, PartialEq, Eq)]
pub struct RegisterProps {}

/// The login form.
#[derive(Clone, Debug, PartialEq, Eq)]
pub struct LoginRequest {
    pub email: String,
    pub password: String,
    /// Keep the session beyond the browser session (absent means `false`).
    pub remember: bool,
}

impl LoginRequest {
    /// The failures of the per-field rules, in field order.
    pub open spec fn field_errors(&self) -> Seq<(Seq<char>, Seq<char>)> {
        rule(!valid_email(self.email@), "email"@, "Please enter a valid email address"@)
            + rule(!(self.password@.len() >= 1), "password"@, "Password is required"@)
    }

    /// Runs the per-field rules.
    pub fn validate(&self) -> (r: FormErrors)
        ensures
            r@ == self.field_errors(),
    {
        let mut errs = FormErrors::new();
        if !email_is_valid(self.email.as_str()) {
            errs.add("email", "Please enter a valid email address");
        }
        if !has_min_chars(self.password.as_str(), 1) {
            errs.add("password", "Password is required");
        }
        assert(errs@ =~= self.field_errors());
        errs
    }

    /// The whole validation pipeline (the login form has no cross-field check).
    pub fn check(&self) -> (r: Result<(), FormErrors>)
        ensures
            (valid_email(self.email@) && self.password@.len() >= 1) <==> r is Ok,
            r is Ok <==> self.field_errors().len() == 0,
            r matches Err(e) ==> e@ == self.field_errors(),
    {
        let errs = self.validate();
        if errs.is_empty() {
            Ok(())
        } else {
            Err(errs)
        }
    }
}

/// The registration form.
#[derive(Clone, Debug, PartialEq, Eq)]
pub struct RegisterRequest {
    pub name: String,
    pub email: String,
    pub password: String,
    pub password_confirmation: String,
}

impl RegisterRequest {
    /// The failures of the per-field rules, in field order.
    pub open spec fn field_errors(&self) -> Seq<(Seq<char>, Seq<char>)> {
        rule(!(self.name@.len() >= 2), "name"@, "Name must be at least 2 characters"@)
            + rule(!valid_email(self.email@), "email"@, "Please enter a valid email address"@)
            + rule(!(self.password@.len() >= 8), "password"@, "Password must be at least 8 characters"@)
    }

    /// The failures of the cross-field check.
    pub open spec fn cross_errors(&self) -> Seq<(Seq<char>, Seq<char>)> {
        rule(self.password@ != self.password_confirmation@, "password_confirmation"@, "Passwords do not match."@)
    }

    /// Runs the per-field rules.
    pub fn validate(&self) -> (r: FormErrors)
        ensures
            r@ == self.field_errors(),
    {
        let mut errs = FormErrors::new();
        if !has_min_chars(self.name.as_str(), 2) {
            errs.add("name", "Name must be at least 2 characters");
        }
        if !email_is_valid(self.email.as_str()) {
            errs.add("email", "Please enter a valid email address");
        }
        if !has_min_chars(self.password.as_str(), 8) {
            errs.add("password", "Password must be at least 8 characters");
        }
        assert(errs@ =~= self.field_errors());
        errs
    }

    /// Cross-field check: the password and its confirmation must match.
    pub fn after_validation(&self) -> (r: Result<(), FormErrors>)
        ensures
            r is Ok <==> self.cross_errors().len() == 0,
            r matches Err(e) ==> e@ == self.cross_errors(),
    {
        if self.password != self.password_confirmation {
            return Err(FormErrors::single("password_confirmation", "Passwords do not match."));
        }
        Ok(())
    }

    /// The whole validation pipeline: field rules, then (only when they all
    /// pass) the cross-field check.
    pub fn check(&self) -> (r: Result<(), FormErrors>)
        ensures
            (self.name@.len() >= 2 && valid_email(self.email@) && self.password@.len() >= 8
                && self.password@ == self.password_confirmation@) <==> r is Ok,
            r is Ok <==> staged(self.field_errors(), self.cross_errors()).len() == 0,
            r matches Err(e) ==> e@ == staged(self.field_errors(), self.cross_errors()),
    {
        let errs = self.validate();
        if !errs.is_empty() {
            return Err(errs);
        }
        self.after_validation()
    }
}

/// Delivers login validation failures.
pub fn render_login(wants_inertia: bool, errors: FormErrors) -> (r: Reply)
    ensures
        delivers(r, "auth/Login"@, wants_inertia, errors@),
{
    deliver_errors("auth/Login", wants_inertia, errors)
}

/// Delivers registration validation failures.
pub fn render_register(wants_inertia: bool, errors: FormErrors) -> (r: Reply)
    ensures
        delivers(r, "auth/Register"@, wants_inertia, errors@),
{
    deliver_errors("auth/Register", wants_inertia, errors)
}

/// The answer to a valid login form, given whether the credentials were
/// accepted: into `/dashboard`, or the credentials error on `email`.
pub fn login_reply(authenticated: bool, wants_inertia: bool) -> (r: Reply)
    ensures
        (r is Redirect) <==> authenticated,
        authenticated ==> redirects_to(r, "/dashboard"@),
        !authenticated ==> delivers(
            r,
            "auth/Login"@,
            wants_inertia,
            seq![("email"@, "These credentials do not match our records."@)],
        ),
{
    if authenticated {
        redirect("/dashboard")
    } else {
        deliver_error("auth/Login", wants_inertia, "email", "These credentials do not match our records.")
    }
}

/// The refusal of a valid registration form, when its address is already
/// registered; `None` lets the registration proceed.
pub fn register_conflict(email_taken: bool, wants_inertia: bool) -> (r: Option<Reply>)
    ensures
        r is Some <==> email_taken,
        r matches Some(reply) ==> delivers(
            reply,
            "auth/Register"@,
            wants_inertia,
            seq![("email"@, "This email is already registered."@)],
        ),
{
    if email_taken {
        Some(deliver_error("auth/Register", wants_inertia, "email", "This email is already registered."))
    } else {
        None
    }
}

/// The answer to a completed registration (the new user is logged in and
/// still unverified; the `verified` gate sends them on to the notice).
pub fn register_reply() -> (r: Reply)
    ensures
        redirects_to(r, "/dashboard"@),
{
    redirect("/dashboard")
}

/// The answer to a logout.
pub fn logout_reply() -> (r: Reply)
    ensures
        redirects_to(r, "/"@),
{
    redirect("/")
}

/// A registration form that passes the pipeline has a matching
/// confirmation, a valid e-mail, a name of two or more characters and a
/// password of eight or more.
pub proof fn law_accepted_registration_is_well_formed(form: RegisterRequest)
    requires
        staged(form.field_errors(), form.cross_errors()).len() == 0,
    ensures
        form.password@ == form.password_confirmation@,
        valid_email(form.email@),
        form.name@.len() >= 2,
        form.password@.len() >= 8,
{
    if form.name@.len() < 2 || !valid_email(form.email@) || form.password@.len() < 8 {
        assert(form.field_errors().len() > 0);
    }
}

/// The login rules fail exactly on what they check: the e-mail entry is
/// there exactly when the validator rejects the address, the password
/// entry exactly when the password is empty; a form with a valid address
/// and a non-empty password is accepted.
pub proof fn law_login_rules_fail_exactly_on_their_checks(form: LoginRequest)
    ensures
        form.field_errors().contains(("email"@, "Please enter a valid email address"@)) <==> !valid_email(form.email@),
        form.field_errors().contains(("password"@, "Password is required"@)) <==> form.password@.len() == 0,
        form.field_errors().len() == 0 <==> (valid_email(form.email@) && form.password@.len() >= 1),
{
    reveal_strlit("email");
    reveal_strlit("password");
    assert("email"@.len() != "password"@.len());
    lemma_two_rules(
        !valid_email(form.email@), "email"@, "Please enter a valid email address"@,
        !(form.password@.len() >= 1), "password"@, "Password is required"@,
    );
}

/// The registration rules fail exactly on what they check (the password
/// rule only on fewer than eight characters), and a form with a name of
/// two or more characters, a valid address, a password of eight or more
/// and a matching confirmation is accepted.
pub proof fn law_registration_rules_fail_exactly_on_their_checks(form: RegisterRequest)
    ensures
        form.field_errors().contains(("password"@, "Password must be at least 8 characters"@)) <==> form.password@.len() < 8,
        form.field_errors().contains(("name"@, "Name must be at least 2 characters"@)) <==> form.name@.len() < 2,
        form.field_errors().contains(("email"@, "Please enter a valid email address"@)) <==> !valid_email(form.email@),
        form.cross_errors().len() == 0 <==> form.password@ == form.password_confirmation@,
        (form.name@.len() >= 2 && valid_email(form.email@) && form.password@.len() >= 8
            && form.password@ == form.password_confirmation@)
            <==> staged(form.field_errors(), form.cross_errors()).len() == 0,
{
    reveal_strlit("name");
    reveal_strlit("email");
    reveal_strlit("password");
    assert("name"@[0] != "email"@[0]);
    assert("name"@.len() != "password"@.len());
    assert("email"@.len() != "password"@.len());
    lemma_three_rules(
        !(form.name@.len() >= 2), "name"@, "Name must be at least 2 characters"@,
        !valid_email(form.email@), "email"@, "Please enter a valid email address"@,
        !(form.password@.len() >= 8), "password"@, "Password must be at least 8 characters"@,
    );
    law_accepted_registration_is_well_formed_converse(form);
}

proof fn law_accepted_registration_is_well_formed_converse(form: RegisterRequest)
    ensures
        (form.name@.len() >= 2 && valid_email(form.email@) && form.password@.len() >= 8
            && form.password@ == form.password_confirmation@)
            ==> staged(form.field_errors(), form.cross_errors()).len() == 0,
{
}

/// Whatever registration accepts, login validation accepts too: the
/// address and password of an accepted registration pass the login rules.
pub proof fn law_registered_credentials_pass_login_rules(reg: RegisterRequest, login: LoginRequest)
    requires
        staged(reg.field_errors(), reg.cross_errors()).len() == 0,
        login.email@ == reg.email@,
        login.password@ == reg.password@,
    ensures
        login.field_errors().len() == 0,
{
    law_accepted_registration_is_well_formed(reg);
}

} // verus!
