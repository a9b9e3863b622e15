//! Who may use the admin API: a request must carry the configured admin
//! token in its `x-admin-token` header.  The token is the `admin_api_token`
//! setting, or `dev-admin-token` when that is not set.  A request without
//! the header is answered 401, one with another value 403, and neither
//! reaches an endpoint; an admitted request is then routed.
use vstd::prelude::*;
use crate::route::{decide, decision_of, decision_view, Decision, DecisionView, HttpMethod};
use crate::text::{opt_view, str_eq};

verus! {

/// The admin token used when no `admin_api_token` is configured.
pub fn default_admin_token() -> (r: &'static str)
    ensures
        r@ == "dev-admin-token"@,
{
    "dev-admin-token"
}

/// The admin token in force, given the `admin_api_token` setting.
pub open spec fn admin_token_of(setting: Option<Seq<char>>) -> Seq<char> {
    match setting {
        Some(t) => t,
        None => "dev-admin-token"@,
    }
}

/// Why a request is refused before it is routed.
#[derive(Clone, Copy, Debug, PartialEq, Eq, Structural)]
pub enum TokenRefusal {
    /// The request has no `x-admin-token` header (401).
    Missing,
    /// The header's value is not the admin token (403).
    Mismatch,
}

/// The view of the `x-admin-token` header: absent, present but not text,
/// or its text.
pub open spec fn header_view(h: Option<Option<&str>>) -> Option<Option<Seq<char>>> {
    match h {
        Some(v) => Some(opt_view(v)),
        None => None,
    }
}

/// The outcome of the token check: admitted when the header's text is the
/// token in force; refused as missing without the header, and as a
/// mismatch otherwise.
pub open spec fn token_check_of(header: Option<Option<Seq<char>>>, setting: Option<Seq<char>>) -> Result<(), TokenRefusal> {
    match header {
        None => Err(TokenRefusal::Missing),
        Some(Some(h)) => if h == admin_token_of(setting) {
            Ok(())
        } else {
            Err(TokenRefusal::Mismatch)
        },
        Some(None) => Err(TokenRefusal::Mismatch),
    }
}

/// Checks the `x-admin-token` header (`None` when absent, `Some(None)` when
/// its value is not text) against the `admin_api_token` setting.
pub fn check_admin_token(header: Option<Option<&str>>, setting: Option<&str>) -> (r: Result<(), TokenRefusal>)
    ensures
        r == token_check_of(header_view(header), opt_view(setting)),
        r is Ok <==> header_view(header) == Some(Some(admin_token_of(opt_view(setting)))),
{
    let token = match setting {
        Some(t) => t,
        None => default_admin_token(),
    };
    match header {
        None => Err(TokenRefusal::Missing),
        Some(Some(h)) => if str_eq(h, token) {
            Ok(())
        } else {
            Err(TokenRefusal::Mismatch)
        },
        Some(None) => Err(TokenRefusal::Mismatch),
    }
}

/// The status and the message that answer a refused token.
pub open spec fn token_answer(r: TokenRefusal) -> (u16, Seq<char>) {
    match r {
        TokenRefusal::Missing => (401, "admin token required"@),
        TokenRefusal::Mismatch => (403, "invalid admin token"@),
    }
}

/// The status and the message that answer a refused token.
pub fn token_refusal_answer(r: TokenRefusal) -> (a: (u16, &'static str))
    ensures
        (a.0, a.1@) == token_answer(r),
{
    match r {
        TokenRefusal::Missing => (401, "admin token required"),
        TokenRefusal::Mismatch => (403, "invalid admin token"),
    }
}

/// What the admin API does with a request: refuse it for its token, or
/// else what routing decides.
pub enum Admission<'a> {
    Refused(TokenRefusal),
    Decided(Decision<'a>),
}

/// The view of an admission.
pub enum AdmissionView {
    Refused(TokenRefusal),
    Decided(DecisionView),
}

pub open spec fn admission_view(a: Admission) -> AdmissionView {
    match a {
        Admission::Refused(r) => AdmissionView::Refused(r),
        Admission::Decided(d) => AdmissionView::Decided(decision_view(d)),
    }
}

/// The admission of a request with path `path`, method `m` and the given
/// token header, under the `admin_api_token` setting: the token is checked
/// first, and only an admitted request is routed.
pub open spec fn admission_of(
    path: Seq<char>,
    m: HttpMethod,
    header: Option<Option<Seq<char>>>,
    setting: Option<Seq<char>>,
) -> AdmissionView {
    match token_check_of(header, setting) {
        Err(r) => AdmissionView::Refused(r),
        Ok(()) => AdmissionView::Decided(decision_of(path, m)),
    }
}

/// Admits and routes a request: refused for its token before anything is
/// routed, otherwise decided by the router.
pub fn admit_request<'a>(path: &'a str, m: HttpMethod, header: Option<Option<&str>>, setting: Option<&str>) -> (r: Admission<'a>)
    ensures
        admission_view(r) == admission_of(path@, m, header_view(header), opt_view(setting)),
{
    match check_admin_token(header, setting) {
        Err(refusal) => Admission::Refused(refusal),
        Ok(()) => Admission::Decided(decide(path, m)),
    }
}

/// No request reaches an endpoint without the admin token: a request whose
/// `x-admin-token` header is absent, not text, or not the token in force is
/// refused (401 when absent, 403 otherwise), whatever its path and method;
/// a request that carries the token is decided exactly as the router
/// decides it.
pub proof fn lemma_token_guards_every_request(
    path: Seq<char>,
    m: HttpMethod,
    header: Option<Option<Seq<char>>>,
    setting: Option<Seq<char>>,
)
    ensures
        header != Some(Some(admin_token_of(setting))) ==> admission_of(path, m, header, setting) is Refused,
        header is None ==> admission_of(path, m, header, setting) == AdmissionView::Refused(TokenRefusal::Missing),
        header matches Some(v) && v != Some(admin_token_of(setting)) ==> admission_of(path, m, header, setting)
            == AdmissionView::Refused(TokenRefusal::Mismatch),
        header == Some(Some(admin_token_of(setting))) ==> admission_of(path, m, header, setting)
            == AdmissionView::Decided(decision_of(path, m)),
{
}

} // verus!
