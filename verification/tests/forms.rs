use nebula::controllers::auth::{LoginRequest, RegisterRequest};
use nebula::controllers::password_reset::{ResetRequest, SendLinkRequest};
use nebula::controllers::profile::{DeleteAccountRequest, UpdatePasswordRequest, UpdateProfileRequest};
use nebula::validation::{has_min_chars, FormErrors};

fn pairs(e: &FormErrors) -> Vec<(String, String)> {
    e.entries.iter().map(|x| (x.field.clone(), x.message.clone())).collect()
}

fn s(x: &str) -> String {
    x.to_string()
}

#[test]
fn email_rule_follows_the_validator() {
    let ok = |e: &str| SendLinkRequest { email: s(e) }.check().is_ok();
    assert!(ok("grace@nebula.test"));
    assert!(ok("edsger.new@x.com"));
    assert!(!ok(""));
    assert!(!ok("grace.nebula.test"));
    assert!(!ok("grace@"));
    assert!(!ok("@nebula.test"));
}

#[test]
fn length_rule_counts_characters() {
    assert!(has_min_chars("ab", 2));
    assert!(!has_min_chars("a", 2));
    assert!(has_min_chars("éé", 2));
    assert!(!has_min_chars("é", 2));
    assert!(has_min_chars("", 0));
}

#[test]
fn a_well_formed_login_passes() {
    let form = LoginRequest { email: s("pin@x.com"), password: s("supersecret"), remember: false };
    assert!(form.check().is_ok());
}

#[test]
fn login_field_failures_are_reported_in_field_order() {
    let form = LoginRequest { email: s("not-an-address"), password: s(""), remember: true };
    let errs = form.check().unwrap_err();
    assert_eq!(
        pairs(&errs),
        vec![
            (s("email"), s("Please enter a valid email address")),
            (s("password"), s("Password is required")),
        ]
    );
}

#[test]
fn registration_confirmation_must_match() {
    let form = RegisterRequest {
        name: s("Grace Hopper"),
        email: s("grace@nebula.test"),
        password: s("supersecret"),
        password_confirmation: s("supersecreT"),
    };
    let errs = form.check().unwrap_err();
    assert_eq!(pairs(&errs), vec![(s("password_confirmation"), s("Passwords do not match."))]);
}

#[test]
fn registration_cross_check_waits_for_the_field_rules() {
    let form = RegisterRequest {
        name: s("G"),
        email: s("grace"),
        password: s("short"),
        password_confirmation: s("different"),
    };
    let errs = form.check().unwrap_err();
    assert_eq!(
        pairs(&errs),
        vec![
            (s("name"), s("Name must be at least 2 characters")),
            (s("email"), s("Please enter a valid email address")),
            (s("password"), s("Password must be at least 8 characters")),
        ]
    );
}

#[test]
fn a_well_formed_registration_passes() {
    let form = RegisterRequest {
        name: s("Grace Hopper"),
        email: s("grace@nebula.test"),
        password: s("supersecret"),
        password_confirmation: s("supersecret"),
    };
    assert!(form.validate().is_empty());
    assert!(form.after_validation().is_ok());
    assert!(form.check().is_ok());
}

#[test]
fn send_link_form_needs_an_address() {
    assert!(SendLinkRequest { email: s("ada@x.com") }.check().is_ok());
    let errs = SendLinkRequest { email: s("nobody") }.check().unwrap_err();
    assert_eq!(pairs(&errs), vec![(s("email"), s("Enter a valid email address."))]);
}

#[test]
fn reset_form_mismatch_lands_on_password() {
    let ok = ResetRequest { token: s("t"), password: s("newpass1!"), password_confirmation: s("newpass1!") };
    assert!(ok.check().is_ok());
    let bad = ResetRequest { token: s("t"), password: s("newpass1!"), password_confirmation: s("newpass2!") };
    assert_eq!(pairs(&bad.check().unwrap_err()), vec![(s("password"), s("Passwords do not match."))]);
    let short = ResetRequest { token: s(""), password: s("short"), password_confirmation: s("other") };
    assert_eq!(
        pairs(&short.check().unwrap_err()),
        vec![(s("password"), s("Password must be at least 8 characters."))]
    );
}

#[test]
fn profile_form_rules() {
    assert!(UpdateProfileRequest { name: s("Edsger Dijkstra"), email: s("edsger.new@x.com") }.check().is_ok());
    let errs = UpdateProfileRequest { name: s(""), email: s("x") }.check().unwrap_err();
    assert_eq!(
        pairs(&errs),
        vec![(s("name"), s("Name is required.")), (s("email"), s("Enter a valid email address."))]
    );
}

#[test]
fn rotation_form_rules() {
    let ok = UpdatePasswordRequest {
        current_password: s("oldpass1!"),
        password: s("brandnew1!"),
        password_confirmation: s("brandnew1!"),
    };
    assert!(ok.check().is_ok());
    let empty_confirmation = UpdatePasswordRequest {
        current_password: s("oldpass1!"),
        password: s("brandnew1!"),
        password_confirmation: s(""),
    };
    assert_eq!(
        pairs(&empty_confirmation.check().unwrap_err()),
        vec![(s("password_confirmation"), s("Confirm your new password."))]
    );
    let mismatch = UpdatePasswordRequest {
        current_password: s("oldpass1!"),
        password: s("brandnew1!"),
        password_confirmation: s("brandnew2!"),
    };
    assert_eq!(
        pairs(&mismatch.check().unwrap_err()),
        vec![(s("password_confirmation"), s("Passwords do not match."))]
    );
}

#[test]
fn deletion_form_has_no_shape_rules() {
    assert!(DeleteAccountRequest { password: s("") }.check().is_ok());
    assert!(DeleteAccountRequest { password: s("wrong") }.check().is_ok());
}

#[test]
fn error_bag_records_in_order() {
    let mut e = FormErrors::new();
    assert!(e.is_empty());
    e.add("a", "first");
    e.add("b", "second");
    assert_eq!(e.len(), 2);
    assert_eq!(pairs(&e), vec![(s("a"), s("first")), (s("b"), s("second"))]);
    assert_eq!(pairs(&FormErrors::single("token", "t")), vec![(s("token"), s("t"))]);
}
