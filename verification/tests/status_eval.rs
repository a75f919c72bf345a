use tableau_monitoring_execd::auth::get_passwordless_cookie;
use tableau_monitoring_execd::get_epoch_nanos;
use tableau_monitoring_execd::get_status_as_value;
use tableau_monitoring_execd::numfmt::severity_str;
use tableau_monitoring_execd::numfmt::u128_to_dec_string;
use tableau_monitoring_execd::poll::parse_checks;
use tableau_monitoring_execd::status::str_eq;
use tableau_monitoring_execd::urls::login_url;
use tableau_monitoring_execd::urls::status_url;
use tableau_monitoring_execd::urls::systeminfo_url;

fn eval(status: &str, deployment: Option<&str>) -> i8 {
    let status = status.to_string();
    let deployment = deployment.map(|d| d.to_string());
    get_status_as_value(&status, deployment.as_ref())
}

#[test]
fn healthy_statuses_evaluate_to_zero() {
    assert_eq!(eval("Active", None), 0);
    assert_eq!(eval("Enabled", None), 0);
    assert_eq!(eval("Running", None), 0);
}

#[test]
fn healthy_short_circuits_disabled_override() {
    assert_eq!(eval("Running", Some("Disabled")), 0);
    assert_eq!(eval("Active", Some("Disabled")), 0);
}

#[test]
fn busy_short_circuits_disabled_override() {
    assert_eq!(eval("Busy", Some("Disabled")), 1);
    assert_eq!(eval("Passive", Some("Disabled")), 1);
    assert_eq!(eval("Busy", None), 1);
}

#[test]
fn disabled_applies_only_to_unrecognized_statuses() {
    assert_eq!(eval("Stopped", Some("Disabled")), -1);
    assert_eq!(eval("Stopped", None), 2);
    assert_eq!(eval("Stopped", Some("Enabled")), 2);
}

#[test]
fn unrecognized_values_fall_through_to_unknown() {
    assert_eq!(eval("", None), 2);
    assert_eq!(eval("active", None), 2);
    assert_eq!(eval("SomethingNew", Some("SomethingElse")), 2);
    assert_eq!(eval("Disabled", None), 2);
}

#[test]
fn str_eq_compares_by_characters() {
    assert!(str_eq("Active", "Active"));
    assert!(!str_eq("Active", "Activ"));
    assert!(!str_eq("", "a"));
    assert!(str_eq("", ""));
}

#[test]
fn decimal_rendering_exact_values() {
    assert_eq!(u128_to_dec_string(0), "0");
    assert_eq!(u128_to_dec_string(7), "7");
    assert_eq!(u128_to_dec_string(10), "10");
    assert_eq!(u128_to_dec_string(1234567890123), "1234567890123");
}

#[test]
fn severity_rendering_exact_values() {
    assert_eq!(severity_str(-1), "-1");
    assert_eq!(severity_str(0), "0");
    assert_eq!(severity_str(1), "1");
    assert_eq!(severity_str(2), "2");
    assert_eq!(severity_str(3), "3");
}

#[test]
fn passwordless_cookie_is_built_with_fixed_attributes() {
    let c = get_passwordless_cookie(
        Some("workgroup_session_id".to_string()),
        Some("abc123".to_string()),
    );
    assert_eq!(
        c,
        "workgroup_session_id=abc123; HttpOnly; Secure; Path=/; Domain=localhost"
    );
}

#[test]
fn passwordless_cookie_requires_both_fields() {
    assert_eq!(get_passwordless_cookie(None, None), "");
    assert_eq!(get_passwordless_cookie(Some("n".to_string()), None), "");
    assert_eq!(get_passwordless_cookie(None, Some("v".to_string())), "");
}

#[test]
fn urls_are_joined_onto_the_base() {
    assert_eq!(
        login_url("https://localhost:8850/"),
        "https://localhost:8850/api/0.5/login"
    );
    assert_eq!(
        status_url("https://localhost:8850/"),
        "https://localhost:8850/api/0.5/status"
    );
    assert_eq!(
        systeminfo_url("https://localhost/"),
        "https://localhost/admin/systeminfo.xml"
    );
}

#[test]
fn checks_selection_covers_the_three_values() {
    let all = parse_checks("all");
    assert!(all.tsm && all.systeminfo);
    let tsm = parse_checks("tsm");
    assert!(tsm.tsm && !tsm.systeminfo);
    let si = parse_checks("systeminfo");
    assert!(!si.tsm && si.systeminfo);
    let none = parse_checks("other");
    assert!(!none.tsm && !none.systeminfo);
}

#[test]
fn epoch_nanos_reads_the_clock() {
    let a = get_epoch_nanos();
    assert!(a > 0);
}
