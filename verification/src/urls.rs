use vstd::prelude::*;
use vstd::string::StringExecFns;

verus! {

/// The login endpoint under a service-management base URL.
pub fn login_url(base: &str) -> (r: String)
    ensures
        r@ == base@ + "api/0.5/login"@,
{
    let mut s = String::from_str(base);
    s.append("api/0.5/login");
    s
}

/// The cluster-status endpoint under a service-management base URL.
pub fn status_url(base: &str) -> (r: String)
    ensures
        r@ == base@ + "api/0.5/status"@,
{
    let mut s = String::from_str(base);
    s.append("api/0.5/status");
    s
}

/// The fixed diagnostics document path under a server base URL.
pub fn systeminfo_url(base: &str) -> (r: String)
    ensures
        r@ == base@ + "admin/systeminfo.xml"@,
{
    let mut s = String::from_str(base);
    s.append("admin/systeminfo.xml");
    s
}

} // verus!
