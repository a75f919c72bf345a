use vstd::prelude::*;

verus! {

/// The credential string the passwordless login yields: a cookie scoped
/// to path "/", secure and http-only, on the local host, when both the
/// cookie name and value came back; the empty credential otherwise.
pub open spec fn passwordless_cookie_spec(name: Option<String>, value: Option<String>) -> Seq<
    char,
> {
    match (name, value) {
        (Some(n), Some(v)) => n@ + "="@ + v@ + "; HttpOnly; Secure; Path=/; Domain=localhost"@,
        _ => Seq::empty(),
    }
}

/// Relies on ureq::Cookie (the cookie crate): its `Display` renders
/// `name=value` followed by the set attributes in a fixed order, which
/// for exactly HttpOnly, Secure, Path "/" and Domain "localhost" is the
/// stated concatenation.
#[verifier::external_body]
fn build_session_cookie(name: &str, value: &str) -> (r: String)
    ensures
        r@ == name@ + "="@ + value@ + "; HttpOnly; Secure; Path=/; Domain=localhost"@,
{
    ureq::Cookie::build((name, value))
        .domain("localhost")
        .path("/")
        .secure(true)
        .http_only(true)
        .build()
        .to_string()
}

/// Builds the cookie-style credential for a passwordless login result.
/// Both fields must be present for a usable credential; anything less
/// yields the empty one.
pub fn get_passwordless_cookie(name: Option<String>, value: Option<String>) -> (r: String)
    ensures
        r@ == passwordless_cookie_spec(name, value),
{
    match (name, value) {
        (Some(n), Some(v)) => build_session_cookie(n.as_str(), v.as_str()),
        _ => String::new(),
    }
}

} // verus!
