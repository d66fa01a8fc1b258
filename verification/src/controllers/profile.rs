//! Profile management for the signed-in user: show, update name and
//! e-mail, rotate the password, delete the account.
//!
//! Changing the e-mail address drops the verification and mails a fresh
//! link; an address that belongs to another account is refused. The
//! password rotation and the deletion are gated on the user's password.

use vstd::prelude::*;

use crate::controllers::{redirect, redirects_to, Reply};
use crate::validation::{email_is_valid, has_min_chars, rule, staged, valid_email, FormErrors};

verus! {

/// What the profile logic reads and writes of a user row.
#[derive(Clone, Debug, PartialEq, Eq)]
pub struct Account {
    pub id: i64,
    pub name: String,
    pub email: String,
    /// Whether `email_verified_at` is set.
    pub email_verified: bool,
}

/// Props of the profile page.
#[derive(Clone, Debug, PartialEq, Eq)]
pub struct ProfileProps {
    pub name: String,
    pub email: String,
    pub email_verified: bool,
}

/// `p` shows the user `a`.
pub open spec fn props_of(p: ProfileProps, a: Account) -> bool {
    &&& p.name@ == a.name@
    &&& p.email@ == a.email@
    &&& p.email_verified == a.email_verified
}

impl ProfileProps {
    /// The profile page seeded from the user.
    pub fn of(user: &Account) -> (r: ProfileProps)
        ensures
            props_of(r, *user),
    {
        ProfileProps {
            name: user.name.clone(),
            email: user.email.clone(),
            email_verified: user.email_verified,
        }
    }
}

/// `r` delivers profile form failures `errors` for the user `user`: the
/// profile page seeded from `user` with the errors for an Inertia client,
/// the 422 envelope otherwise.
pub open spec fn delivers_profile(
    r: Reply,
    user: Account,
    wants_inertia: bool,
    errors: Seq<(Seq<char>, Seq<char>)>,
) -> bool {
    if wants_inertia {
        r matches Reply::RerenderProfile { profile, errors: e } && props_of(profile, user) && e@ == errors
    } else {
        r matches Reply::Unprocessable { errors: e } && e@ == errors
    }
}

/// Delivers profile validation failures. An Inertia client gets the
/// profile page re-rendered from the current user (`None` when none
/// resolves, which answers `401`); any other client the 422 envelope, for
/// which no user is needed.
pub fn render_profile(wants_inertia: bool, user: Option<&Account>, errors: FormErrors) -> (r: Reply)
    ensures
        !wants_inertia ==> (r matches Reply::Unprocessable { errors: e } && e@ == errors@),
        wants_inertia && user is None ==> r is Unauthorized,
        wants_inertia ==> (user matches Some(u) ==> delivers_profile(r, *u, true, errors@)),
{
    if !wants_inertia {
        Reply::Unprocessable { errors }
    } else {
        match user {
            Some(u) => Reply::RerenderProfile { profile: ProfileProps::of(u), errors },
            None => Reply::Unauthorized,
        }
    }
}

/// Delivers the single failure `(field, message)` for the user `user`.
fn render_profile_error(wants_inertia: bool, user: &Account, field: &str, message: &str) -> (r: Reply)
    ensures
        delivers_profile(r, *user, wants_inertia, seq![(field@, message@)]),
{
    render_profile(wants_inertia, Some(user), FormErrors::single(field, message))
}

/// The name-and-e-mail form.
#[derive(Clone, Debug, PartialEq, Eq)]
pub struct UpdateProfileRequest {
    pub name: String,
    pub email: String,
}

impl UpdateProfileRequest {
    /// The failures of the per-field rules, in field order.
    pub open spec fn field_errors(&self) -> Seq<(Seq<char>, Seq<char>)> {
        rule(!(self.name@.len() >= 1), "name"@, "Name is required."@)
            + rule(!valid_email(self.email@), "email"@, "Enter a valid email address."@)
    }

    /// Runs the per-field rules.
    pub fn validate(&self) -> (r: FormErrors)
        ensures
            r@ == self.field_errors(),
    {
        let mut errs = FormErrors::new();
        if !has_min_chars(self.name.as_str(), 1) {
            errs.add("name", "Name is required.");
        }
        if !email_is_valid(self.email.as_str()) {
            errs.add("email", "Enter a valid email address.");
        }
        assert(errs@ =~= self.field_errors());
        errs
    }

    /// The whole validation pipeline (no cross-field check).
    pub fn check(&self) -> (r: Result<(), FormErrors>)
        ensures
            (self.name@.len() >= 1 && valid_email(self.email@)) <==> r is Ok,
            r is Ok <==> self.field_errors().len() == 0,
            r matches Err(e) ==> e@ == self.field_errors(),
    {
        let errs = self.validate();
        if errs.is_empty() {
            Ok(())
        } else {
            Err(errs)
        }
    }
}

/// The password-rotation form.
#[derive(Clone, Debug, PartialEq, Eq)]
pub struct UpdatePasswordRequest {
    pub current_password: String,
    pub password: String,
    pub password_confirmation: String,
}

impl UpdatePasswordRequest {
    /// The failures of the per-field rules, in field order.
    pub open spec fn field_errors(&self) -> Seq<(Seq<char>, Seq<char>)> {
        rule(!(self.password@.len() >= 8), "password"@, "Password must be at least 8 characters."@)
            + rule(!(self.password_confirmation@.len() >= 1), "password_confirmation"@, "Confirm your new password."@)
    }

    /// The failures of the cross-field check.
    pub open spec fn cross_errors(&self) -> Seq<(Seq<char>, Seq<char>)> {
        rule(self.password@ != self.password_confirmation@, "password_confirmation"@, "Passwords do not match."@)
    }

    /// Runs the per-field rules.
    pub fn validate(&self) -> (r: FormErrors)
        ensures
            r@ == self.field_errors(),
    {
        let mut errs = FormErrors::new();
        if !has_min_chars(self.password.as_str(), 8) {
            errs.add("password", "Password must be at least 8 characters.");
        }
        if !has_min_chars(self.password_confirmation.as_str(), 1) {
            errs.add("password_confirmation", "Confirm your new password.");
        }
        assert(errs@ =~= self.field_errors());
        errs
    }

    /// Cross-field check: the new password and its confirmation must match.
    pub fn after_validation(&self) -> (r: Result<(), FormErrors>)
        ensures
            r is Ok <==> self.cross_errors().len() == 0,
            r matches Err(e) ==> e@ == self.cross_errors(),
    {
        if self.password != self.password_confirmation {
            return Err(FormErrors::single("password_confirmation", "Passwords do not match."));
        }
        Ok(())
    }

    /// The whole validation pipeline: field rules, then (only when they all
    /// pass) the cross-field check.
    pub fn check(&self) -> (r: Result<(), FormErrors>)
        ensures
            (self.password@.len() >= 8 && self.password_confirmation@.len() >= 1
                && self.password@ == self.password_confirmation@) <==> r is Ok,
            r is Ok <==> staged(self.field_errors(), self.cross_errors()).len() == 0,
            r matches Err(e) ==> e@ == staged(self.field_errors(), self.cross_errors()),
    {
        let errs = self.validate();
        if !errs.is_empty() {
            return Err(errs);
        }
        self.after_validation()
    }
}

/// The account-deletion form: only the confirming password, with no shape
/// rules (it is checked against the stored hash).
#[derive(Clone, Debug, PartialEq, Eq)]
pub struct DeleteAccountRequest {
    pub password: String,
}

impl DeleteAccountRequest {
    /// The whole validation pipeline: there is nothing to reject.
    pub fn check(&self) -> (r: Result<(), FormErrors>)
        ensures
            r is Ok,
    {
        Ok(())
    }
}

/// Whether the form changes the user's e-mail address.
pub fn email_changed(user: &Account, form: &UpdateProfileRequest) -> (r: bool)
    ensures
        r == (user.email@ != form.email@),
{
    user.email != form.email
}

/// What a valid profile update does.
#[derive(Clone, Debug, PartialEq, Eq)]
pub enum ProfileUpdate {
    /// Refuse, answering with the reply.
    Reject(Reply),
    /// Save the row as `account`; mail a fresh verification link when
    /// `send_verification`.
    Save { account: Account, send_verification: bool },
}

/// The new address is held by a different account.
pub open spec fn email_taken_by_other(user: Account, form: UpdateProfileRequest, email_owner: Option<i64>) -> bool {
    &&& user.email@ != form.email@
    &&& email_owner matches Some(owner) && owner != user.id
}

/// The row a profile update writes: the form's name and e-mail, the
/// verification kept only when the address is unchanged.
pub open spec fn updated_account(user: Account, form: UpdateProfileRequest) -> (i64, Seq<char>, Seq<char>, bool) {
    (user.id, form.name@, form.email@, user.email_verified && user.email@ == form.email@)
}

/// Plans a valid profile update of `user`. `email_owner` is the id of the
/// account that holds the form's address, when the address changes and
/// some account holds it (it is only looked up when the address changes).
pub fn plan_profile_update(
    user: Account,
    form: UpdateProfileRequest,
    email_owner: Option<i64>,
    wants_inertia: bool,
) -> (r: ProfileUpdate)
    ensures
        email_taken_by_other(user, form, email_owner) ==> (r matches ProfileUpdate::Reject(reply)
            && delivers_profile(reply, user, wants_inertia, seq![("email"@, "This email is already registered."@)])),
        (user.email@ != form.email@ && (email_owner matches Some(owner) && owner != user.id)) ==> (r matches ProfileUpdate::Reject(reply)
            && delivers_profile(reply, user, wants_inertia, seq![("email"@, "This email is already registered."@)])),
        (user.email@ == form.email@ || email_owner is None || email_owner == Some(user.id)) ==> r is Save,
        !email_taken_by_other(user, form, email_owner) ==> (r matches ProfileUpdate::Save { account, send_verification }
            && (account.id, account.name@, account.email@, account.email_verified) == updated_account(user, form)
            && send_verification == (user.email@ != form.email@)),
{
    let changed = email_changed(&user, &form);
    if changed {
        if let Some(owner) = email_owner {
            if owner != user.id {
                let reply = render_profile_error(wants_inertia, &user, "email", "This email is already registered.");
                return ProfileUpdate::Reject(reply);
            }
        }
    }
    let verified = if changed {
        false
    } else {
        user.email_verified
    };
    let account = Account { id: user.id, name: form.name, email: form.email, email_verified: verified };
    ProfileUpdate::Save { account, send_verification: changed }
}

/// The refusal of a password rotation whose current password did not
/// verify; `None` lets the rotation proceed.
pub fn password_gate(user: &Account, current_password_ok: bool, wants_inertia: bool) -> (r: Option<Reply>)
    ensures
        r is None <==> current_password_ok,
        r matches Some(reply) ==> delivers_profile(
            reply,
            *user,
            wants_inertia,
            seq![("current_password"@, "The current password is incorrect."@)],
        ),
{
    if current_password_ok {
        None
    } else {
        Some(render_profile_error(wants_inertia, user, "current_password", "The current password is incorrect."))
    }
}

/// The refusal of an account deletion whose confirming password did not
/// verify; `None` lets the deletion proceed.
pub fn delete_gate(user: &Account, password_ok: bool, wants_inertia: bool) -> (r: Option<Reply>)
    ensures
        r is None <==> password_ok,
        r matches Some(reply) ==> delivers_profile(
            reply,
            *user,
            wants_inertia,
            seq![("password"@, "The password is incorrect."@)],
        ),
{
    if password_ok {
        None
    } else {
        Some(render_profile_error(wants_inertia, user, "password", "The password is incorrect."))
    }
}

/// The answer to a saved profile or a rotated password.
pub fn profile_saved_reply() -> (r: Reply)
    ensures
        redirects_to(r, "/profile"@),
{
    redirect("/profile")
}

/// The answer to a deleted account.
pub fn account_deleted_reply() -> (r: Reply)
    ensures
        redirects_to(r, "/"@),
{
    redirect("/")
}

/// A new address held by any other account is refused, whichever the two
/// ids are; an unchanged address, an unheld one, or one held by the user
/// is never refused. A saved row always gets the form's address, and it is
/// verified only when the address did not change and was verified before.
pub proof fn law_foreign_address_is_refused(user: Account, form: UpdateProfileRequest, email_owner: Option<i64>)
    ensures
        (user.email@ != form.email@ && (email_owner matches Some(owner) && owner != user.id))
            ==> email_taken_by_other(user, form, email_owner),
        (user.email@ == form.email@ || email_owner is None || email_owner == Some(user.id))
            ==> !email_taken_by_other(user, form, email_owner),
        updated_account(user, form).0 == user.id,
        updated_account(user, form).1 == form.name@,
        updated_account(user, form).2 == form.email@,
        updated_account(user, form).3 == (user.email_verified && user.email@ == form.email@),
        user.email@ != form.email@ ==> !updated_account(user, form).3,
{
}

/// Re-submitting a saved profile changes nothing: the row a profile
/// update writes, updated again with the same form, is refused by no
/// owner of the address, is written unchanged, and mails no link.
pub proof fn law_profile_update_is_idempotent(user: Account, form: UpdateProfileRequest, email_owner: Option<i64>)
    ensures
        ({
            let saved = Account {
                id: user.id,
                name: form.name,
                email: form.email,
                email_verified: updated_account(user, form).3,
            };
            &&& !email_taken_by_other(saved, form, email_owner)
            &&& updated_account(saved, form) == updated_account(user, form)
            &&& saved.email@ == form.email@
        }),
{
}

/// An accepted rotation form has a matching confirmation and a new
/// password of eight or more characters.
pub proof fn law_accepted_rotation_is_well_formed(form: UpdatePasswordRequest)
    requires
        staged(form.field_errors(), form.cross_errors()).len() == 0,
    ensures
        form.password@ == form.password_confirmation@,
        form.password@.len() >= 8,
{
    if form.password@.len() < 8 {
        assert(form.field_errors().len() > 0);
    }
}

} // verus!
