use evolith::audit::AuditContext;
use evolith::mailer::{
    invitation_email, invitation_email_body, invitation_link_for, invitation_subject_for,
    password_reset_email, reset_link_for, reset_subject, verification_email,
    verification_email_body, verification_link_for, verification_subject,
};

#[test]
fn links_carry_the_token() {
    assert_eq!(
        verification_link_for("https://evolith.io", "token123"),
        "https://evolith.io/verify-email?token=token123"
    );
    assert_eq!(
        reset_link_for("https://evolith.io", "t"),
        "https://evolith.io/reset-password?token=t"
    );
    assert_eq!(
        invitation_link_for("http://x", "t"),
        "http://x/accept-invitation?token=t"
    );
}

#[test]
fn subjects() {
    assert_eq!(verification_subject(), "Verify your Evolith account");
    assert_eq!(reset_subject(), "Reset your Evolith password");
    assert_eq!(
        invitation_subject_for("Test Workspace"),
        "You've been invited to Test Workspace on Evolith"
    );
}

#[test]
fn test_console_mailer_verification() {
    let e = verification_email("test@example.com", "TestUser", "token123", "https://evolith.io");
    assert_eq!(e.to, "test@example.com");
    assert_eq!(e.subject, "Verify your Evolith account");
    assert_eq!(e.link, "https://evolith.io/verify-email?token=token123");
    assert!(e.html_body.contains("Welcome to Evolith, TestUser!"));
    assert_eq!(e.html_body.matches(e.link.as_str()).count(), 2);
    assert!(e.html_body.starts_with("\n<!DOCTYPE html>"));
}

#[test]
fn test_console_mailer_password_reset() {
    let e = password_reset_email("test@example.com", "TestUser", "token123", "https://evolith.io");
    assert_eq!(e.subject, "Reset your Evolith password");
    assert_eq!(e.link, "https://evolith.io/reset-password?token=token123");
    assert!(e.html_body.contains("TestUser"));
    assert!(e.html_body.contains(e.link.as_str()));
}

#[test]
fn test_console_mailer_invitation() {
    let e = invitation_email(
        "test@example.com",
        "Admin User",
        "Test Workspace",
        "token123",
        "https://evolith.io",
    );
    assert_eq!(e.subject, "You've been invited to Test Workspace on Evolith");
    assert_eq!(e.link, "https://evolith.io/accept-invitation?token=token123");
    assert!(e.html_body.contains("Admin User"));
    assert!(e.html_body.contains("Test Workspace"));
    assert_eq!(
        e.html_body,
        invitation_email_body("Admin User", "Test Workspace", e.link.as_str())
    );
}

#[test]
fn bodies_place_name_and_link() {
    let b = verification_email_body("Ann", "L1NK");
    let name_at = b.find("Ann").unwrap();
    let link_at = b.find("L1NK").unwrap();
    assert!(name_at < link_at);
    assert!(b.ends_with("</html>\n"));
}

#[test]
fn audit_context_keeps_request_info() {
    let c = AuditContext::new(Some(1), None);
    assert_eq!(c.tenant_id, Some(1));
    assert_eq!(c.user_id, None);
    assert!(c.ip_address.is_none());
    let c = c.with_request_info(Some("10.0.0.1".to_string()), Some("curl".to_string()));
    assert_eq!(c.tenant_id, Some(1));
    assert_eq!(c.ip_address.as_deref(), Some("10.0.0.1"));
    assert_eq!(c.user_agent.as_deref(), Some("curl"));
}

#[test]
fn envelope_parses_sender_and_recipient() {
    let env = evolith::mailer::envelope("Evolith", "noreply@evolith.io", "user@example.com").expect("valid");
    assert_eq!(env.from_name.as_deref(), Some("Evolith"));
    assert_eq!(env.from_address, "noreply@evolith.io");
    assert_eq!(env.to_name, None);
    assert_eq!(env.to_address, "user@example.com");
    let named = evolith::mailer::envelope("Evolith", "noreply@evolith.io", "Ann <ann@example.com>").expect("valid");
    assert_eq!(named.to_name.as_deref(), Some("Ann"));
    assert_eq!(named.to_address, "ann@example.com");
}

#[test]
fn envelope_names_the_side_that_fails() {
    match evolith::mailer::envelope("Evolith", "noreply@evolith.io", "not an address") {
        Err(evolith::mailer::MailError::Validation(m)) => assert!(m.starts_with("Invalid recipient address: ")),
        other => panic!("unexpected {:?}", other.err()),
    }
    match evolith::mailer::envelope("Evolith", "broken", "not an address") {
        Err(evolith::mailer::MailError::Validation(m)) => assert!(m.starts_with("Invalid from address: ")),
        other => panic!("unexpected {:?}", other.err()),
    }
}
