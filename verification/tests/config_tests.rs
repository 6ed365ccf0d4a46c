use mini_health_check::config::{
    user_agent, AcceptAllCertificates, CertificatePolicy, ClientConfig, MAX_REDIRECTS,
    TIMEOUT_SECS,
};
use mini_health_check::messages::{transport_failure_message, usage_message};

#[test]
fn config_has_fixed_options() {
    let c = ClientConfig::new();
    assert_eq!(c.timeout_secs, 10);
    assert_eq!(c.max_redirects, 0);
    assert_eq!(c.user_agent, "mini-health-check/0.1");
}

#[test]
fn config_constants() {
    assert_eq!(TIMEOUT_SECS, 10);
    assert_eq!(MAX_REDIRECTS, 0);
    assert_eq!(user_agent(), "mini-health-check/0.1");
}

#[test]
fn accept_all_accepts_empty_presentation() {
    let policy = AcceptAllCertificates;
    assert!(policy.accepts(&vec![], &vec![], 0));
}

#[test]
fn accept_all_accepts_any_presentation() {
    // An arbitrary, certainly invalid chain and name, at an arbitrary
    // time: still accepted — certificate validity is not under test.
    let policy = AcceptAllCertificates;
    let chain = vec![vec![0u8, 1, 2, 3], vec![255u8]];
    let name = vec![b'x', b'.', b'y'];
    assert!(policy.accepts(&chain, &name, 1_700_000_000));
}

#[test]
fn usage_message_names_program() {
    let m = usage_message("health-check");
    assert_eq!(m, "health-check: no URLs given\n");
}

#[test]
fn transport_message_names_url_and_cause() {
    let m = transport_failure_message("http://a.example", "connection refused");
    assert_eq!(
        m,
        "failed to send request to `http://a.example`: connection refused"
    );
}
