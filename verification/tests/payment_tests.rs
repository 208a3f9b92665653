use evolith::payment::{
    calculate_overage, check_quota, event_action_for, overage_invoice_number, InvoiceStatus,
    PaymentConfig, PaymentError, ResourceType, WebhookHandler, UNLIMITED,
};
use hmac::Mac;

#[test]
fn test_payment_config_defaults() {
    let config = PaymentConfig::default();
    assert!(config.test_mode);
    assert!(
        config.stripe_secret_key.contains("test")
            || config.stripe_secret_key.contains("placeholder")
    );
}

#[test]
fn test_is_live_mode() {
    let mut config = PaymentConfig {
        test_mode: true,
        ..Default::default()
    };
    config.stripe_secret_key = "sk_test_xxx".to_string();
    assert!(!config.is_live_mode());

    config.test_mode = false;
    config.stripe_secret_key = "sk_live_xxx".to_string();
    assert!(config.is_live_mode());

    config.test_mode = false;
    config.stripe_secret_key = "sk_test_xxx".to_string();
    assert!(!config.is_live_mode());
}

#[test]
fn test_resource_type_display() {
    assert_eq!(ResourceType::ApiCalls.to_string(), "api_calls");
    assert_eq!(ResourceType::StorageMb.to_string(), "storage_mb");
    assert_eq!(ResourceType::Tools.to_string(), "tools");
}

#[test]
fn test_check_quota_within_limit() {
    // ApiCalls carries an overage rate.
    let check = check_quota(ResourceType::ApiCalls, 1000, 500, true);
    assert!(check.allowed);
    assert_eq!(check.remaining, 500);
    assert!(!check.overage_applies);
}

#[test]
fn test_check_quota_at_limit() {
    // Tools has no overage rate, so "at limit" truly blocks.
    let check = check_quota(ResourceType::Tools, 10, 10, false);
    assert!(!check.allowed);
    assert_eq!(check.remaining, 0);
    assert!(!check.overage_applies);
}

#[test]
fn test_check_quota_exceeded_with_overage() {
    let check = check_quota(ResourceType::ApiCalls, 1000, 1500, true);
    assert!(check.allowed);
    assert_eq!(check.remaining, 0);
    assert!(check.overage_applies);
}

#[test]
fn test_check_quota_unlimited() {
    let check = check_quota(ResourceType::ApiCalls, u64::MAX, 1000000, true);
    assert!(check.allowed);
    assert_eq!(check.remaining, u64::MAX);
    assert!(!check.overage_applies);
}

#[test]
fn test_calculate_overage() {
    assert_eq!(calculate_overage(1000, 500), 0);
    assert_eq!(calculate_overage(1000, 1000), 0);
    assert_eq!(calculate_overage(1000, 1500), 500);
}

#[test]
fn quota_keeps_its_inputs_and_accounts_for_every_unit() {
    let check = check_quota(ResourceType::Users, 10, 8, false);
    assert_eq!(check.resource_type, ResourceType::Users);
    assert_eq!(check.limit, 10);
    assert_eq!(check.used, 8);
    assert_eq!(check.remaining, 2);
    assert!(check.allowed);
    assert_eq!(check.used + check.remaining, check.limit + calculate_overage(10, 8));
    let over = check_quota(ResourceType::StorageMb, 100, 150, true);
    assert_eq!(over.used + over.remaining, over.limit + calculate_overage(100, 150));
    assert_eq!(UNLIMITED, u64::MAX);
}

#[test]
fn resource_type_names_every_variant() {
    assert_eq!(ResourceType::Skills.to_string(), "skills");
    assert_eq!(ResourceType::Snippets.to_string(), "snippets");
    assert_eq!(ResourceType::Users.to_string(), "users");
    assert_eq!(ResourceType::StorageMb.as_str(), "storage_mb");
}

#[test]
fn invoice_number_takes_the_first_group_of_the_tenant() {
    assert_eq!(
        overage_invoice_number("550e8400-e29b-41d4-a716-446655440000", "20240102030405"),
        "OVR-550e8400-20240102030405"
    );
    assert_eq!(overage_invoice_number("plain", "1"), "OVR-plain-1");
    assert_eq!(overage_invoice_number("", "7"), "OVR--7");
    let _ = InvoiceStatus::Draft;
}

#[test]
fn event_types_map_to_their_actions() {
    assert_eq!(event_action_for("customer.created"), "customer_created");
    assert_eq!(event_action_for("invoice.payment_failed"), "invoice_payment_failed");
    assert_eq!(event_action_for("payment_method.detached"), "payment_method_detached");
    assert_eq!(event_action_for("charge.refunded"), "ignored");
}

#[test]
fn payment_config_reads_its_variables() {
    let c = PaymentConfig::from_env_vars(
        Some("sk_live_abc".to_string()),
        Some("whsec_x".to_string()),
        Some("2024-01-01".to_string()),
        Some("false".to_string()),
    );
    assert_eq!(c.stripe_secret_key, "sk_live_abc");
    assert_eq!(c.stripe_webhook_secret, "whsec_x");
    assert_eq!(c.stripe_api_version, Some("2024-01-01".to_string()));
    assert!(!c.test_mode);
    assert!(c.is_live_mode());
    let d = PaymentConfig::from_env_vars(None, None, None, None);
    assert_eq!(d.stripe_secret_key, "sk_test_placeholder");
    assert_eq!(d.stripe_webhook_secret, "whsec_placeholder");
    assert!(d.test_mode);
}

fn sign(secret: &str, timestamp: i64, payload: &[u8]) -> String {
    let signed = format!("{}.{}", timestamp, String::from_utf8_lossy(payload));
    let mut mac = hmac::Hmac::<sha2::Sha256>::new_from_slice(secret.as_bytes()).unwrap();
    mac.update(signed.as_bytes());
    hex::encode(mac.finalize().into_bytes())
}

fn handler(secret: &str) -> WebhookHandler {
    let mut config = PaymentConfig::default();
    config.stripe_webhook_secret = secret.to_string();
    WebhookHandler::new(config)
}

#[test]
fn webhook_accepts_a_fresh_matching_signature() {
    let h = handler("whsec_test");
    let payload = br#"{"type":"invoice.paid"}"#;
    let sig = sign("whsec_test", 1_700_000_000, payload);
    let header = format!("t=1700000000,v1={}", sig);
    assert!(matches!(
        h.verify_signature(payload, &header, 1_700_000_000, 1_700_000_100),
        Ok(true)
    ));
    // The matching part may stand anywhere among the parts.
    let header = format!("v0=abc,v1={},v1=zz", sig);
    assert!(matches!(
        h.verify_signature(payload, &header, 1_700_000_000, 1_700_000_000),
        Ok(true)
    ));
}

#[test]
fn webhook_rejects_wrong_secret_and_stale_timestamps() {
    let h = handler("whsec_test");
    let payload = b"{}";
    let wrong = sign("other_secret", 1_700_000_000, payload);
    assert!(matches!(
        h.verify_signature(payload, &format!("v1={}", wrong), 1_700_000_000, 1_700_000_000),
        Err(PaymentError::WebhookSignatureInvalid)
    ));
    let right = sign("whsec_test", 1_700_000_000, payload);
    // More than five minutes apart, either way.
    assert!(matches!(
        h.verify_signature(payload, &format!("v1={}", right), 1_700_000_000, 1_700_000_301),
        Err(PaymentError::WebhookSignatureInvalid)
    ));
    assert!(matches!(
        h.verify_signature(payload, &format!("v1={}", right), 1_700_000_000, 1_699_999_699),
        Err(PaymentError::WebhookSignatureInvalid)
    ));
    // Exactly five minutes is still fresh.
    assert!(matches!(
        h.verify_signature(payload, &format!("v1={}", right), 1_700_000_000, 1_700_000_300),
        Ok(true)
    ));
    // The bare tag without the v1= prefix is not accepted.
    assert!(h.verify_signature(payload, &right, 1_700_000_000, 1_700_000_000).is_err());
}
