use nebula::bootstrap::{AuthShare, SharedAuth, SharedUser};
use nebula::controllers::auth::{login_reply, logout_reply, register_conflict, register_reply, render_login, render_register};
use nebula::controllers::home::HomeProps;
use nebula::controllers::password_reset::{reset_reply, send_link_reply, ResetPasswordProps};
use nebula::controllers::profile::{
    account_deleted_reply, delete_gate, email_changed, password_gate, plan_profile_update,
    profile_saved_reply, render_profile, Account, ProfileProps, ProfileUpdate, UpdateProfileRequest,
};
use nebula::controllers::verify_email::{
    notice_reply, resend_plan, resend_reply, verify_reply, ResendPlan, VerifyEmailProps,
};
use nebula::controllers::{deliver_errors, query_or_empty, redirect, InertiaCtx, Reply};
use nebula::validation::FormErrors;

fn s(x: &str) -> String {
    x.to_string()
}

fn to(path: &str) -> Reply {
    Reply::Redirect { to: s(path) }
}

fn edsger() -> Account {
    Account { id: 7, name: s("Edsger"), email: s("edsger@x.com"), email_verified: true }
}

#[test]
fn login_answers() {
    assert_eq!(login_reply(true, false), to("/dashboard"));
    assert_eq!(login_reply(true, true), to("/dashboard"));
    assert_eq!(
        login_reply(false, false),
        Reply::Unprocessable { errors: FormErrors::single("email", "These credentials do not match our records.") }
    );
    assert_eq!(
        login_reply(false, true),
        Reply::Rerender {
            component: s("auth/Login"),
            errors: FormErrors::single("email", "These credentials do not match our records."),
        }
    );
}

#[test]
fn form_failures_go_back_to_their_page() {
    let errs = FormErrors::single("email", "Please enter a valid email address");
    assert_eq!(
        render_login(true, errs.clone()),
        Reply::Rerender { component: s("auth/Login"), errors: errs.clone() }
    );
    assert_eq!(render_login(false, errs.clone()), Reply::Unprocessable { errors: errs.clone() });
    assert_eq!(
        render_register(true, errs.clone()),
        Reply::Rerender { component: s("auth/Register"), errors: errs.clone() }
    );
    assert_eq!(
        deliver_errors("Profile", false, errs.clone()),
        Reply::Unprocessable { errors: errs }
    );
}

#[test]
fn registration_refuses_a_taken_address() {
    assert_eq!(register_conflict(false, true), None);
    assert_eq!(
        register_conflict(true, false),
        Some(Reply::Unprocessable { errors: FormErrors::single("email", "This email is already registered.") })
    );
    assert_eq!(register_reply(), to("/dashboard"));
    assert_eq!(logout_reply(), to("/"));
}

#[test]
fn reset_link_requests_answer_the_same_way() {
    assert_eq!(send_link_reply(), to("/forgot-password"));
    assert_eq!(send_link_reply(), send_link_reply());
}

#[test]
fn reset_answers() {
    assert_eq!(
        reset_reply(true),
        Reply::RedirectWithSuccess {
            to: s("/login"),
            message: s("Your password has been reset. Log in with your new password."),
        }
    );
    assert_eq!(
        reset_reply(false),
        Reply::Unprocessable {
            errors: FormErrors::single("token", "This password reset link is invalid or has expired."),
        }
    );
    assert_eq!(ResetPasswordProps::from_query(Some(s("abc"))).token, "abc");
    assert_eq!(ResetPasswordProps::from_query(None).token, "");
    assert_eq!(query_or_empty(None), "");
}

#[test]
fn changing_the_email_drops_verification_and_resends() {
    let form = UpdateProfileRequest { name: s("Edsger Dijkstra"), email: s("edsger.new@x.com") };
    assert!(email_changed(&edsger(), &form));
    let plan = plan_profile_update(edsger(), form, None, true);
    assert_eq!(
        plan,
        ProfileUpdate::Save {
            account: Account { id: 7, name: s("Edsger Dijkstra"), email: s("edsger.new@x.com"), email_verified: false },
            send_verification: true,
        }
    );
}

#[test]
fn keeping_the_email_keeps_verification() {
    let form = UpdateProfileRequest { name: s("E. W. Dijkstra"), email: s("edsger@x.com") };
    assert!(!email_changed(&edsger(), &form));
    let plan = plan_profile_update(edsger(), form, Some(99), false);
    assert_eq!(
        plan,
        ProfileUpdate::Save {
            account: Account { id: 7, name: s("E. W. Dijkstra"), email: s("edsger@x.com"), email_verified: true },
            send_verification: false,
        }
    );
}

#[test]
fn an_address_of_another_account_is_refused() {
    let form = UpdateProfileRequest { name: s("Edsger"), email: s("ada@x.com") };
    let plan = plan_profile_update(edsger(), form, Some(3), true);
    assert_eq!(
        plan,
        ProfileUpdate::Reject(Reply::RerenderProfile {
            profile: ProfileProps { name: s("Edsger"), email: s("edsger@x.com"), email_verified: true },
            errors: FormErrors::single("email", "This email is already registered."),
        })
    );
    let form = UpdateProfileRequest { name: s("Edsger"), email: s("other@x.com") };
    match plan_profile_update(edsger(), form, Some(7), false) {
        ProfileUpdate::Save { send_verification, .. } => assert!(send_verification),
        other => panic!("own id must not conflict: {other:?}"),
    }
}

#[test]
fn password_and_delete_gates() {
    assert_eq!(password_gate(&edsger(), true, false), None);
    assert_eq!(
        password_gate(&edsger(), false, false),
        Some(Reply::Unprocessable { errors: FormErrors::single("current_password", "The current password is incorrect.") })
    );
    assert_eq!(delete_gate(&edsger(), true, true), None);
    assert_eq!(
        delete_gate(&edsger(), false, true),
        Some(Reply::RerenderProfile {
            profile: ProfileProps::of(&edsger()),
            errors: FormErrors::single("password", "The password is incorrect."),
        })
    );
    assert_eq!(profile_saved_reply(), to("/profile"));
    assert_eq!(account_deleted_reply(), to("/"));
}

#[test]
fn profile_failures_need_a_user_only_for_inertia() {
    let errs = FormErrors::single("name", "Name is required.");
    assert_eq!(render_profile(false, None, errs.clone()), Reply::Unprocessable { errors: errs.clone() });
    assert_eq!(render_profile(true, None, errs.clone()), Reply::Unauthorized);
    assert_eq!(
        render_profile(true, Some(&edsger()), errs.clone()),
        Reply::RerenderProfile { profile: ProfileProps::of(&edsger()), errors: errs }
    );
    let p = ProfileProps::of(&edsger());
    assert_eq!(p, ProfileProps { name: s("Edsger"), email: s("edsger@x.com"), email_verified: true });
}

#[test]
fn verification_notice_and_link() {
    assert_eq!(notice_reply(Some(true)), to("/dashboard"));
    assert_eq!(notice_reply(Some(false)), Reply::VerifyNotice { props: VerifyEmailProps { status: None } });
    assert_eq!(notice_reply(None), Reply::VerifyNotice { props: VerifyEmailProps::notice() });
    assert_eq!(verify_reply(true), to("/dashboard"));
    assert_eq!(
        verify_reply(false),
        Reply::VerifyNotice { props: VerifyEmailProps { status: Some(s("invalid-or-expired")) } }
    );
}

#[test]
fn resend_mails_only_unverified_users() {
    assert_eq!(resend_plan(None), ResendPlan::Unauthorized);
    assert_eq!(resend_plan(Some(false)), ResendPlan::Send);
    assert_eq!(resend_plan(Some(true)), ResendPlan::Skip);
    assert_eq!(resend_reply(), to("/verify-email"));
}

#[test]
fn header_lookup_ignores_case_and_takes_the_first() {
    let ctx = InertiaCtx::new(
        s("/login"),
        vec![(s("Accept"), s("text/html")), (s("X-Inertia"), s("true")), (s("x-inertia"), s("false"))],
    );
    assert_eq!(ctx.path(), "/login");
    assert_eq!(ctx.header("x-inertia"), Some("true"));
    assert_eq!(ctx.header("X-INERTIA"), Some("true"));
    assert_eq!(ctx.header("accept"), Some("text/html"));
    assert_eq!(ctx.header("X-Inertia-Version"), None);
}

#[test]
fn shared_auth_prop() {
    let share = AuthShare;
    assert_eq!(share.share(None), SharedAuth { user: None });
    assert_eq!(
        share.share(Some(&edsger())),
        SharedAuth { user: Some(SharedUser { id: 7, name: s("Edsger"), email: s("edsger@x.com") }) }
    );
}

#[test]
fn landing_page_greeting() {
    let p = HomeProps::welcome();
    assert_eq!(p.title, "Welcome to Suprnova!");
    assert_eq!(p.message, "Your Inertia app is ready.");
    assert_eq!(redirect("/x"), to("/x"));
}
