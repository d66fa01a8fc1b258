//! What the handlers answer, and the request snapshot they consult.
//!
//! A handler's answer is a [`Reply`]: a redirect to a literal path, an
//! Inertia re-render of the originating page with a flat `errors` prop, the
//! Laravel-style 422 envelope, or the e-mail verification notice. Form
//! failures are delivered by [`deliver_errors`]: Inertia submissions get the
//! re-render, every other client the 422 envelope.

pub mod auth;
pub mod home;
pub mod password_reset;
pub mod profile;
pub mod static_files;
pub mod verify_email;

use vstd::prelude::*;

use crate::controllers::profile::ProfileProps;
use crate::controllers::verify_email::VerifyEmailProps;
use crate::text::{eq_ignore_ascii_case, lemma_eq_ignore_ascii_case_equivalence, text_eq_ignore_ascii_case};
use crate::validation::FormErrors;

verus! {

/// A handler's answer.
#[derive(Clone, Debug, PartialEq, Eq)]
pub enum Reply {
    /// `302` with `Location` set to the literal path.
    Redirect { to: String },
    /// `302` to the literal path, flashing a one-shot success message that
    /// the next page's props carry under `flash.success`.
    RedirectWithSuccess { to: String, message: String },
    /// Inertia re-render of `component` with the flat `errors` prop.
    Rerender { component: String, errors: FormErrors },
    /// The `422 { message, errors }` validation envelope.
    Unprocessable { errors: FormErrors },
    /// The "please verify your e-mail" page with its props.
    VerifyNotice { props: VerifyEmailProps },
    /// Inertia re-render of the profile page, seeded from the current user,
    /// with the flat `errors` prop.
    RerenderProfile { profile: ProfileProps, errors: FormErrors },
    /// `401`: no authenticated user resolved.
    Unauthorized,
}

/// `r` redirects to the path `to`.
pub open spec fn redirects_to(r: Reply, to: Seq<char>) -> bool {
    r matches Reply::Redirect { to: t } && t@ == to
}

/// `r` delivers the failures `errors` of a form posted from `component`:
/// a re-render of that page for an Inertia client, the 422 envelope otherwise.
pub open spec fn delivers(
    r: Reply,
    component: Seq<char>,
    wants_inertia: bool,
    errors: Seq<(Seq<char>, Seq<char>)>,
) -> bool {
    if wants_inertia {
        r matches Reply::Rerender { component: c, errors: e } && c@ == component && e@ == errors
    } else {
        r matches Reply::Unprocessable { errors: e } && e@ == errors
    }
}

/// A redirect to the literal path `to`.
pub fn redirect(to: &str) -> (r: Reply)
    ensures
        redirects_to(r, to@),
{
    Reply::Redirect { to: to.to_owned() }
}

/// Delivers validation failures of a form posted from `component`: an
/// Inertia submission re-renders the page with the errors, any other client
/// gets the 422 envelope.
pub fn deliver_errors(component: &str, wants_inertia: bool, errors: FormErrors) -> (r: Reply)
    ensures
        delivers(r, component@, wants_inertia, errors@),
        wants_inertia <==> r is Rerender,
        !wants_inertia <==> r is Unprocessable,
        r matches Reply::Rerender { component: c, errors: e } ==> c@ == component@ && e@ == errors@,
        r matches Reply::Unprocessable { errors: e } ==> e@ == errors@,
{
    if wants_inertia {
        Reply::Rerender { component: component.to_owned(), errors }
    } else {
        Reply::Unprocessable { errors }
    }
}

/// The failure `(field, message)` delivered from `component`.
pub fn deliver_error(component: &str, wants_inertia: bool, field: &str, message: &str) -> (r: Reply)
    ensures
        delivers(r, component@, wants_inertia, seq![(field@, message@)]),
{
    deliver_errors(component, wants_inertia, FormErrors::single(field, message))
}

/// A query parameter's value, or the empty text when it is absent.
pub fn query_or_empty(value: Option<String>) -> (r: String)
    ensures
        r@ == match value {
            Some(v) => v@,
            None => Seq::<char>::empty(),
        },
{
    match value {
        Some(v) => v,
        None => String::new(),
    }
}

/// The kit's external base URL: the configured `APP_URL` when there is
/// one, the development default otherwise.
pub fn app_url(configured: Option<String>) -> (r: String)
    ensures
        r@ == match configured {
            Some(u) => u@,
            None => "http://localhost:8765"@,
        },
{
    match configured {
        Some(u) => u,
        None => "http://localhost:8765".to_owned(),
    }
}

/// The value of the first header whose name equals `name` ignoring ASCII
/// case, if any.
pub open spec fn lookup_header(headers: Seq<(Seq<char>, Seq<char>)>, name: Seq<char>) -> Option<Seq<char>>
    decreases headers.len(),
{
    if headers.len() == 0 {
        None
    } else if eq_ignore_ascii_case(headers[0].0, name) {
        Some(headers[0].1)
    } else {
        lookup_header(headers.drop_first(), name)
    }
}

/// An optional string slice seen as an optional text.
pub open spec fn opt_text(o: Option<&str>) -> Option<Seq<char>> {
    match o {
        Some(s) => Some(s@),
        None => None,
    }
}

/// The request bits an Inertia re-render consults (path and headers),
/// captured before the body is read.
pub struct InertiaCtx {
    path: String,
    headers: Vec<(String, String)>,
}

/// A header pair seen as a pair of texts.
pub open spec fn pair_view(p: (String, String)) -> (Seq<char>, Seq<char>) {
    (p.0@, p.1@)
}

impl InertiaCtx {
    /// The snapshotted request path.
    pub closed spec fn path_view(&self) -> Seq<char> {
        self.path@
    }

    /// The snapshotted headers, in request order.
    pub closed spec fn headers_view(&self) -> Seq<(Seq<char>, Seq<char>)> {
        self.headers@.map_values(|p: (String, String)| pair_view(p))
    }

    /// A snapshot of `path` and the (text-valued) `headers`.
    pub fn new(path: String, headers: Vec<(String, String)>) -> (r: InertiaCtx)
        ensures
            r.path_view() == path@,
            r.headers_view() == headers@.map_values(|p: (String, String)| pair_view(p)),
    {
        InertiaCtx { path, headers }
    }

    /// The request path.
    pub fn path(&self) -> (r: &str)
        ensures
            r@ == self.path_view(),
    {
        self.path.as_str()
    }

    /// The first header named `name`, compared ignoring ASCII case.
    pub fn header(&self, name: &str) -> (r: Option<&str>)
        ensures
            opt_text(r) == lookup_header(self.headers_view(), name@),
    {
        let ghost hs = self.headers_view();
        let n = self.headers.len();
        let mut i: usize = 0;
        assert(hs.skip(0) =~= hs);
        while i < n
            invariant
                n == self.headers@.len(),
                hs == self.headers_view(),
                hs.len() == n,
                i <= n,
                lookup_header(hs, name@) == lookup_header(hs.skip(i as int), name@),
            decreases n - i,
        {
            let key = self.headers[i].0.as_str();
            assert(hs[i as int] == pair_view(self.headers@[i as int]));
            assert(hs.skip(i as int)[0] == hs[i as int]);
            if text_eq_ignore_ascii_case(key, name) {
                return Some(self.headers[i].1.as_str());
            }
            assert(hs.skip(i as int).drop_first() =~= hs.skip(i + 1));
            i = i + 1;
        }
        None
    }
}

/// Delivering a bag of failures hands on the whole bag, every failure in
/// its order: the re-render (for an Inertia client) and the 422 envelope
/// (for any other) carry exactly the given errors, and the re-render is of
/// the page the form came from.
pub proof fn law_delivery_keeps_every_failure(
    r: Reply,
    component: Seq<char>,
    wants_inertia: bool,
    errors: Seq<(Seq<char>, Seq<char>)>,
)
    requires
        delivers(r, component, wants_inertia, errors),
    ensures
        wants_inertia <==> r is Rerender,
        !wants_inertia <==> r is Unprocessable,
        r matches Reply::Rerender { component: c, errors: e } ==> c@ == component && e@ == errors,
        r matches Reply::Unprocessable { errors: e } ==> e@ == errors,
        r matches Reply::Rerender { errors: e, .. } ==> e@.len() == errors.len(),
        r matches Reply::Unprocessable { errors: e } ==> e@.len() == errors.len(),
{
}

/// Header lookup ignores ASCII case: two names that differ only in case
/// find the same header.
pub proof fn law_header_lookup_ignores_ascii_case(
    headers: Seq<(Seq<char>, Seq<char>)>,
    a: Seq<char>,
    b: Seq<char>,
)
    requires
        eq_ignore_ascii_case(a, b),
    ensures
        lookup_header(headers, a) == lookup_header(headers, b),
    decreases headers.len(),
{
    if headers.len() > 0 {
        let k = headers[0].0;
        lemma_eq_ignore_ascii_case_equivalence(k, a, b);
        lemma_eq_ignore_ascii_case_equivalence(a, b, k);
        lemma_eq_ignore_ascii_case_equivalence(k, b, a);
        lemma_eq_ignore_ascii_case_equivalence(b, a, k);
        law_header_lookup_ignores_ascii_case(headers.drop_first(), a, b);
    }
}

} // verus!
