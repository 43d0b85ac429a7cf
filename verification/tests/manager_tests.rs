use wtbridge::cert::renewal_delay_secs;
use wtbridge::cert::renewal_wait_secs;
use wtbridge::cert::webhook_payload;
use wtbridge::cert::CertificateManager;
use wtbridge::cert::LoadPlan;
use wtbridge::identity::Identity;

fn plain_identity(not_before: i64, not_after: i64) -> Identity {
    Identity::new(vec![vec![1u8]], Vec::new(), not_before, not_after).unwrap()
}

#[test]
fn new_keeps_the_configuration() {
    let m = CertificateManager::new(
        Some(("cert.pem".to_string(), "key.pem".to_string())),
        Some("http://hook.example".to_string()),
    );
    assert_eq!(
        m.explicit_paths().clone(),
        Some(("cert.pem".to_string(), "key.pem".to_string()))
    );
    assert_eq!(m.webhook_url().clone(), Some("http://hook.example".to_string()));
    assert!(!m.auto_renews());

    let n = CertificateManager::new(None, None);
    assert_eq!(n.explicit_paths().clone(), None);
    assert_eq!(n.webhook_url().clone(), None);
    assert!(n.auto_renews());
}

#[test]
fn absent_identity_forces_regeneration() {
    let m = CertificateManager::new(None, None);
    assert_eq!(m.load_plan(None, 1000), LoadPlan::Regenerate);
}

#[test]
fn valid_identity_is_kept_and_fires_no_webhook() {
    let m = CertificateManager::new(None, Some("http://hook.example".to_string()));
    let id = plain_identity(0, 2000);
    // Twice in a row: same decision, no webhook either time.
    for _ in 0..2 {
        let plan = m.load_plan(Some(&id), 1000);
        assert_eq!(plan, LoadPlan::UseLoaded);
        assert!(!m.webhook_after_load(plan));
    }
}

#[test]
fn expired_identity_is_regenerated() {
    let m = CertificateManager::new(None, None);
    let id = plain_identity(0, 500);
    assert!(!id.is_valid_at(1000));
    assert_eq!(m.load_plan(Some(&id), 1000), LoadPlan::Regenerate);
}

#[test]
fn explicit_paths_keep_even_an_expired_identity() {
    let m = CertificateManager::new(
        Some(("c.pem".to_string(), "k.pem".to_string())),
        None,
    );
    let id = plain_identity(0, 500);
    assert_eq!(m.load_plan(Some(&id), 1000), LoadPlan::UseLoaded);
    // But an unreadable file still falls through to regeneration.
    assert_eq!(m.load_plan(None, 1000), LoadPlan::Regenerate);
}

#[test]
fn webhook_fires_exactly_on_regeneration_with_a_url() {
    let with_url = CertificateManager::new(None, Some("http://hook.example".to_string()));
    let without_url = CertificateManager::new(None, None);
    assert!(with_url.webhook_after_load(LoadPlan::Regenerate));
    assert!(!with_url.webhook_after_load(LoadPlan::UseLoaded));
    assert!(!without_url.webhook_after_load(LoadPlan::Regenerate));
    assert!(!without_url.webhook_after_load(LoadPlan::UseLoaded));
}

#[test]
fn renewal_delay_is_thirty_seconds_before_expiry() {
    // not_after = now + 100 seconds: sleep 70.
    assert_eq!(renewal_delay_secs(1100, 1000), 70);
    // not_after = now - 5 seconds: sleep 0.
    assert_eq!(renewal_delay_secs(995, 1000), 0);
    // Less than thirty seconds left: sleep 0.
    assert_eq!(renewal_delay_secs(1029, 1000), 0);
    assert_eq!(renewal_delay_secs(1030, 1000), 0);
    assert_eq!(renewal_delay_secs(1031, 1000), 1);
}

#[test]
fn daemon_wait_renews_at_once_when_invalid() {
    let id = plain_identity(0, 1100);
    assert_eq!(renewal_wait_secs(&id, 1000), 70);
    let expired = plain_identity(0, 500);
    assert_eq!(renewal_wait_secs(&expired, 1000), 0);
    // Not yet valid: renew at once rather than wait for the far-off expiry.
    let future = plain_identity(5000, 9000);
    assert_eq!(renewal_wait_secs(&future, 1000), 0);
}

#[test]
fn webhook_payload_is_the_exact_json_body() {
    let body = webhook_payload(&b"AbC123=".to_vec());
    assert_eq!(body, b"{\"certificate_hash\":\"AbC123=\"}".to_vec());
    let empty = webhook_payload(&Vec::new());
    assert_eq!(empty, b"{\"certificate_hash\":\"\"}".to_vec());
}
