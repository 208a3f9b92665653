//! E-mail messages: the links that they carry, their subjects and their HTML
//! bodies, and the record that the console mailer writes in place of sending.

use vstd::prelude::*;
use crate::text::string_from_str;

verus! {

/// The link that confirms an e-mail address.
pub open spec fn verification_link(base_url: Seq<char>, token: Seq<char>) -> Seq<char> {
    base_url + "/verify-email?token="@ + token
}

/// The link that resets a password.
pub open spec fn reset_link(base_url: Seq<char>, token: Seq<char>) -> Seq<char> {
    base_url + "/reset-password?token="@ + token
}

/// The link that accepts an invitation.
pub open spec fn invitation_link(base_url: Seq<char>, token: Seq<char>) -> Seq<char> {
    base_url + "/accept-invitation?token="@ + token
}

/// The subject of an invitation to a tenant.
pub open spec fn invitation_subject(tenant_name: Seq<char>) -> Seq<char> {
    "You've been invited to "@ + tenant_name + " on Evolith"@
}

fn join(parts: &[&str]) -> (r: String)
    ensures
        r@ == joined(parts@),
{
    let mut r = String::new();
    let mut i: usize = 0;
    while i < parts.len()
        invariant
            i <= parts@.len(),
            r@ == joined(parts@.take(i as int)),
        decreases parts@.len() - i,
    {
        r.append(parts[i]);
        assert(parts@.take(i + 1).drop_last() =~= parts@.take(i as int));
        i = i + 1;
    }
    assert(parts@.take(parts@.len() as int) =~= parts@);
    r
}

/// The concatenation of the texts of `parts`.
pub open spec fn joined(parts: Seq<&str>) -> Seq<char>
    decreases parts.len(),
{
    if parts.len() == 0 {
        Seq::empty()
    } else {
        joined(parts.drop_last()) + parts.last()@
    }
}

/// The HTML body of the verification e-mail.
pub open spec fn verification_body(username: Seq<char>, link: Seq<char>) -> Seq<char> {
    r#"
<!DOCTYPE html>
<html>
<head>
    <meta charset="utf-8">
    <title>Verify your email</title>
</head>
<body style="font-family: Arial, sans-serif; line-height: 1.6; color: #333; max-width: 600px; margin: 0 auto; padding: 20px;">
    <div style="background: #f9f9f9; border-radius: 8px; padding: 30px; margin-top: 20px;">
        <h1 style="color: #2c3e50; margin-bottom: 20px;">Welcome to Evolith, "#@ + username + r#"!</h1>
        <p style="margin-bottom: 20px;">Thank you for creating an account. Please verify your email address by clicking the button below:</p>
        <div style="text-align: center; margin: 30px 0;">
            <a href=""#@ + link + r#"" style="background: #3498db; color: white; padding: 12px 30px; text-decoration: none; border-radius: 5px; display: inline-block; font-weight: bold;">Verify Email Address</a>
        </div>
        <p style="color: #666; font-size: 14px;">Or copy and paste this link into your browser:</p>
        <p style="background: #eee; padding: 10px; border-radius: 4px; word-break: break-all; font-size: 13px;">"#@ + link + r#"</p>
        <p style="margin-top: 30px; color: #666; font-size: 13px;">If you didn't create an account with Evolith, you can safely ignore this email.</p>
    </div>
    <p style="text-align: center; color: #999; font-size: 12px; margin-top: 20px;">© Evolith. All rights reserved.</p>
</body>
</html>
"#@
}

/// The HTML body of the verification e-mail.
pub fn verification_email_body(username: &str, link: &str) -> (r: String)
    ensures
        r@ == verification_body(username@, link@),
{
    let parts = [r#"
<!DOCTYPE html>
<html>
<head>
    <meta charset="utf-8">
    <title>Verify your email</title>
</head>
<body style="font-family: Arial, sans-serif; line-height: 1.6; color: #333; max-width: 600px; margin: 0 auto; padding: 20px;">
    <div style="background: #f9f9f9; border-radius: 8px; padding: 30px; margin-top: 20px;">
        <h1 style="color: #2c3e50; margin-bottom: 20px;">Welcome to Evolith, "#, username, r#"!</h1>
        <p style="margin-bottom: 20px;">Thank you for creating an account. Please verify your email address by clicking the button below:</p>
        <div style="text-align: center; margin: 30px 0;">
            <a href=""#, link, r#"" style="background: #3498db; color: white; padding: 12px 30px; text-decoration: none; border-radius: 5px; display: inline-block; font-weight: bold;">Verify Email Address</a>
        </div>
        <p style="color: #666; font-size: 14px;">Or copy and paste this link into your browser:</p>
        <p style="background: #eee; padding: 10px; border-radius: 4px; word-break: break-all; font-size: 13px;">"#, link, r#"</p>
        <p style="margin-top: 30px; color: #666; font-size: 13px;">If you didn't create an account with Evolith, you can safely ignore this email.</p>
    </div>
    <p style="text-align: center; color: #999; font-size: 12px; margin-top: 20px;">© Evolith. All rights reserved.</p>
</body>
</html>
"#];
    let r = join(&parts);
    assert(parts@ =~= seq![r#"
<!DOCTYPE html>
<html>
<head>
    <meta charset="utf-8">
    <title>Verify your email</title>
</head>
<body style="font-family: Arial, sans-serif; line-height: 1.6; color: #333; max-width: 600px; margin: 0 auto; padding: 20px;">
    <div style="background: #f9f9f9; border-radius: 8px; padding: 30px; margin-top: 20px;">
        <h1 style="color: #2c3e50; margin-bottom: 20px;">Welcome to Evolith, "#, username, r#"!</h1>
        <p style="margin-bottom: 20px;">Thank you for creating an account. Please verify your email address by clicking the button below:</p>
        <div style="text-align: center; margin: 30px 0;">
            <a href=""#, link, r#"" style="background: #3498db; color: white; padding: 12px 30px; text-decoration: none; border-radius: 5px; display: inline-block; font-weight: bold;">Verify Email Address</a>
        </div>
        <p style="color: #666; font-size: 14px;">Or copy and paste this link into your browser:</p>
        <p style="background: #eee; padding: 10px; border-radius: 4px; word-break: break-all; font-size: 13px;">"#, link, r#"</p>
        <p style="margin-top: 30px; color: #666; font-size: 13px;">If you didn't create an account with Evolith, you can safely ignore this email.</p>
    </div>
    <p style="text-align: center; color: #999; font-size: 12px; margin-top: 20px;">© Evolith. All rights reserved.</p>
</body>
</html>
"#]);
    reveal_with_fuel(joined, 8);
    r
}

/// The HTML body of the password reset e-mail.
pub open spec fn password_reset_body(username: Seq<char>, link: Seq<char>) -> Seq<char> {
    r#"
<!DOCTYPE html>
<html>
<head>
    <meta charset="utf-8">
    <title>Reset your password</title>
</head>
<body style="font-family: Arial, sans-serif; line-height: 1.6; color: #333; max-width: 600px; margin: 0 auto; padding: 20px;">
    <div style="background: #f9f9f9; border-radius: 8px; padding: 30px; margin-top: 20px;">
        <h1 style="color: #2c3e50; margin-bottom: 20px;">Password Reset Request</h1>
        <p style="margin-bottom: 10px;">Hi "#@ + username + r#",</p>
        <p style="margin-bottom: 20px;">We received a request to reset your password. Click the button below to create a new password:</p>
        <div style="text-align: center; margin: 30px 0;">
            <a href=""#@ + link + r#"" style="background: #e74c3c; color: white; padding: 12px 30px; text-decoration: none; border-radius: 5px; display: inline-block; font-weight: bold;">Reset Password</a>
        </div>
        <p style="color: #666; font-size: 14px;">Or copy and paste this link into your browser:</p>
        <p style="background: #eee; padding: 10px; border-radius: 4px; word-break: break-all; font-size: 13px;">"#@ + link + r#"</p>
        <p style="margin-top: 20px; color: #666; font-size: 13px;"><strong>This link will expire in 1 hour.</strong></p>
        <p style="margin-top: 10px; color: #666; font-size: 13px;">If you didn't request a password reset, you can safely ignore this email. Your password will remain unchanged.</p>
    </div>
    <p style="text-align: center; color: #999; font-size: 12px; margin-top: 20px;">© Evolith. All rights reserved.</p>
</body>
</html>
"#@
}

/// The HTML body of the password reset e-mail.
pub fn password_reset_email_body(username: &str, link: &str) -> (r: String)
    ensures
        r@ == password_reset_body(username@, link@),
{
    let parts = [r#"
<!DOCTYPE html>
<html>
<head>
    <meta charset="utf-8">
    <title>Reset your password</title>
</head>
<body style="font-family: Arial, sans-serif; line-height: 1.6; color: #333; max-width: 600px; margin: 0 auto; padding: 20px;">
    <div style="background: #f9f9f9; border-radius: 8px; padding: 30px; margin-top: 20px;">
        <h1 style="color: #2c3e50; margin-bottom: 20px;">Password Reset Request</h1>
        <p style="margin-bottom: 10px;">Hi "#, username, r#",</p>
        <p style="margin-bottom: 20px;">We received a request to reset your password. Click the button below to create a new password:</p>
        <div style="text-align: center; margin: 30px 0;">
            <a href=""#, link, r#"" style="background: #e74c3c; color: white; padding: 12px 30px; text-decoration: none; border-radius: 5px; display: inline-block; font-weight: bold;">Reset Password</a>
        </div>
        <p style="color: #666; font-size: 14px;">Or copy and paste this link into your browser:</p>
        <p style="background: #eee; padding: 10px; border-radius: 4px; word-break: break-all; font-size: 13px;">"#, link, r#"</p>
        <p style="margin-top: 20px; color: #666; font-size: 13px;"><strong>This link will expire in 1 hour.</strong></p>
        <p style="margin-top: 10px; color: #666; font-size: 13px;">If you didn't request a password reset, you can safely ignore this email. Your password will remain unchanged.</p>
    </div>
    <p style="text-align: center; color: #999; font-size: 12px; margin-top: 20px;">© Evolith. All rights reserved.</p>
</body>
</html>
"#];
    let r = join(&parts);
    assert(parts@ =~= seq![r#"
<!DOCTYPE html>
<html>
<head>
    <meta charset="utf-8">
    <title>Reset your password</title>
</head>
<body style="font-family: Arial, sans-serif; line-height: 1.6; color: #333; max-width: 600px; margin: 0 auto; padding: 20px;">
    <div style="background: #f9f9f9; border-radius: 8px; padding: 30px; margin-top: 20px;">
        <h1 style="color: #2c3e50; margin-bottom: 20px;">Password Reset Request</h1>
        <p style="margin-bottom: 10px;">Hi "#, username, r#",</p>
        <p style="margin-bottom: 20px;">We received a request to reset your password. Click the button below to create a new password:</p>
        <div style="text-align: center; margin: 30px 0;">
            <a href=""#, link, r#"" style="background: #e74c3c; color: white; padding: 12px 30px; text-decoration: none; border-radius: 5px; display: inline-block; font-weight: bold;">Reset Password</a>
        </div>
        <p style="color: #666; font-size: 14px;">Or copy and paste this link into your browser:</p>
        <p style="background: #eee; padding: 10px; border-radius: 4px; word-break: break-all; font-size: 13px;">"#, link, r#"</p>
        <p style="margin-top: 20px; color: #666; font-size: 13px;"><strong>This link will expire in 1 hour.</strong></p>
        <p style="margin-top: 10px; color: #666; font-size: 13px;">If you didn't request a password reset, you can safely ignore this email. Your password will remain unchanged.</p>
    </div>
    <p style="text-align: center; color: #999; font-size: 12px; margin-top: 20px;">© Evolith. All rights reserved.</p>
</body>
</html>
"#]);
    reveal_with_fuel(joined, 8);
    r
}

/// The HTML body of the invitation e-mail.
pub open spec fn invitation_body(inviter_name: Seq<char>, tenant_name: Seq<char>, link: Seq<char>) -> Seq<char> {
    r#"
<!DOCTYPE html>
<html>
<head>
    <meta charset="utf-8">
    <title>Workspace Invitation</title>
</head>
<body style="font-family: Arial, sans-serif; line-height: 1.6; color: #333; max-width: 600px; margin: 0 auto; padding: 20px;">
    <div style="background: #f9f9f9; border-radius: 8px; padding: 30px; margin-top: 20px;">
        <h1 style="color: #2c3e50; margin-bottom: 20px;">You're Invited!</h1>
        <p style="margin-bottom: 20px;"><strong>"#@ + inviter_name + r#"</strong> has invited you to join <strong>"#@ + tenant_name + r#"</strong> on Evolith.</p>
        <p style="margin-bottom: 20px;">Evolith is an AI agent development platform that helps teams build, share, and deploy AI-powered tools and skills.</p>
        <div style="text-align: center; margin: 30px 0;">
            <a href=""#@ + link + r#"" style="background: #27ae60; color: white; padding: 12px 30px; text-decoration: none; border-radius: 5px; display: inline-block; font-weight: bold;">Accept Invitation</a>
        </div>
        <p style="color: #666; font-size: 14px;">Or copy and paste this link into your browser:</p>
        <p style="background: #eee; padding: 10px; border-radius: 4px; word-break: break-all; font-size: 13px;">"#@ + link + r#"</p>
        <p style="margin-top: 30px; color: #666; font-size: 13px;">This invitation will expire in 7 days. If you don't have an Evolith account yet, you'll be able to create one after clicking the link.</p>
    </div>
    <p style="text-align: center; color: #999; font-size: 12px; margin-top: 20px;">© Evolith. All rights reserved.</p>
</body>
</html>
"#@
}

/// The HTML body of the invitation e-mail.
pub fn invitation_email_body(inviter_name: &str, tenant_name: &str, link: &str) -> (r: String)
    ensures
        r@ == invitation_body(inviter_name@, tenant_name@, link@),
{
    let parts = [r#"
<!DOCTYPE html>
<html>
<head>
    <meta charset="utf-8">
    <title>Workspace Invitation</title>
</head>
<body style="font-family: Arial, sans-serif; line-height: 1.6; color: #333; max-width: 600px; margin: 0 auto; padding: 20px;">
    <div style="background: #f9f9f9; border-radius: 8px; padding: 30px; margin-top: 20px;">
        <h1 style="color: #2c3e50; margin-bottom: 20px;">You're Invited!</h1>
        <p style="margin-bottom: 20px;"><strong>"#, inviter_name, r#"</strong> has invited you to join <strong>"#, tenant_name, r#"</strong> on Evolith.</p>
        <p style="margin-bottom: 20px;">Evolith is an AI agent development platform that helps teams build, share, and deploy AI-powered tools and skills.</p>
        <div style="text-align: center; margin: 30px 0;">
            <a href=""#, link, r#"" style="background: #27ae60; color: white; padding: 12px 30px; text-decoration: none; border-radius: 5px; display: inline-block; font-weight: bold;">Accept Invitation</a>
        </div>
        <p style="color: #666; font-size: 14px;">Or copy and paste this link into your browser:</p>
        <p style="background: #eee; padding: 10px; border-radius: 4px; word-break: break-all; font-size: 13px;">"#, link, r#"</p>
        <p style="margin-top: 30px; color: #666; font-size: 13px;">This invitation will expire in 7 days. If you don't have an Evolith account yet, you'll be able to create one after clicking the link.</p>
    </div>
    <p style="text-align: center; color: #999; font-size: 12px; margin-top: 20px;">© Evolith. All rights reserved.</p>
</body>
</html>
"#];
    let r = join(&parts);
    assert(parts@ =~= seq![r#"
<!DOCTYPE html>
<html>
<head>
    <meta charset="utf-8">
    <title>Workspace Invitation</title>
</head>
<body style="font-family: Arial, sans-serif; line-height: 1.6; color: #333; max-width: 600px; margin: 0 auto; padding: 20px;">
    <div style="background: #f9f9f9; border-radius: 8px; padding: 30px; margin-top: 20px;">
        <h1 style="color: #2c3e50; margin-bottom: 20px;">You're Invited!</h1>
        <p style="margin-bottom: 20px;"><strong>"#, inviter_name, r#"</strong> has invited you to join <strong>"#, tenant_name, r#"</strong> on Evolith.</p>
        <p style="margin-bottom: 20px;">Evolith is an AI agent development platform that helps teams build, share, and deploy AI-powered tools and skills.</p>
        <div style="text-align: center; margin: 30px 0;">
            <a href=""#, link, r#"" style="background: #27ae60; color: white; padding: 12px 30px; text-decoration: none; border-radius: 5px; display: inline-block; font-weight: bold;">Accept Invitation</a>
        </div>
        <p style="color: #666; font-size: 14px;">Or copy and paste this link into your browser:</p>
        <p style="background: #eee; padding: 10px; border-radius: 4px; word-break: break-all; font-size: 13px;">"#, link, r#"</p>
        <p style="margin-top: 30px; color: #666; font-size: 13px;">This invitation will expire in 7 days. If you don't have an Evolith account yet, you'll be able to create one after clicking the link.</p>
    </div>
    <p style="text-align: center; color: #999; font-size: 12px; margin-top: 20px;">© Evolith. All rights reserved.</p>
</body>
</html>
"#]);
    reveal_with_fuel(joined, 10);
    r
}

fn link(base_url: &str, route: &str, token: &str) -> (r: String)
    ensures
        r@ == base_url@ + route@ + token@,
{
    let mut r = string_from_str(base_url);
    r.append(route);
    r.append(token);
    r
}

/// The link that confirms an e-mail address.
pub fn verification_link_for(base_url: &str, token: &str) -> (r: String)
    ensures
        r@ == verification_link(base_url@, token@),
{
    link(base_url, "/verify-email?token=", token)
}

/// The link that resets a password.
pub fn reset_link_for(base_url: &str, token: &str) -> (r: String)
    ensures
        r@ == reset_link(base_url@, token@),
{
    link(base_url, "/reset-password?token=", token)
}

/// The link that accepts an invitation.
pub fn invitation_link_for(base_url: &str, token: &str) -> (r: String)
    ensures
        r@ == invitation_link(base_url@, token@),
{
    link(base_url, "/accept-invitation?token=", token)
}

/// The subject of the verification e-mail.
pub fn verification_subject() -> (r: &'static str)
    ensures
        r@ == "Verify your Evolith account"@,
{
    "Verify your Evolith account"
}

/// The subject of the password-reset e-mail.
pub fn reset_subject() -> (r: &'static str)
    ensures
        r@ == "Reset your Evolith password"@,
{
    "Reset your Evolith password"
}

/// The subject of an invitation to a tenant.
pub fn invitation_subject_for(tenant_name: &str) -> (r: String)
    ensures
        r@ == invitation_subject(tenant_name@),
{
    let mut r = string_from_str("You've been invited to ");
    r.append(tenant_name);
    r.append(" on Evolith");
    r
}

/// One e-mail, ready to send: recipient, subject, the link it carries and its HTML body.
pub struct Email {
    pub to: String,
    pub subject: String,
    pub link: String,
    pub html_body: String,
}

/// The e-mail that asks `username` to confirm the address `to`.
pub fn verification_email(to: &str, username: &str, token: &str, base_url: &str) -> (e: Email)
    ensures
        e.to@ == to@,
        e.subject@ == "Verify your Evolith account"@,
        e.link@ == verification_link(base_url@, token@),
        e.html_body@ == verification_body(username@, verification_link(base_url@, token@)),
{
    let l = verification_link_for(base_url, token);
    let body = verification_email_body(username, l.as_str());
    Email {
        to: string_from_str(to),
        subject: string_from_str(verification_subject()),
        link: l,
        html_body: body,
    }
}

/// The e-mail that lets `username` reset the password of the account at `to`.
pub fn password_reset_email(to: &str, username: &str, token: &str, base_url: &str) -> (e: Email)
    ensures
        e.to@ == to@,
        e.subject@ == "Reset your Evolith password"@,
        e.link@ == reset_link(base_url@, token@),
        e.html_body@ == password_reset_body(username@, reset_link(base_url@, token@)),
{
    let l = reset_link_for(base_url, token);
    let body = password_reset_email_body(username, l.as_str());
    Email { to: string_from_str(to), subject: string_from_str(reset_subject()), link: l, html_body: body }
}

/// The e-mail that invites `to` into a tenant on behalf of `inviter_name`.
pub fn invitation_email(
    to: &str,
    inviter_name: &str,
    tenant_name: &str,
    token: &str,
    base_url: &str,
) -> (e: Email)
    ensures
        e.to@ == to@,
        e.subject@ == invitation_subject(tenant_name@),
        e.link@ == invitation_link(base_url@, token@),
        e.html_body@ == invitation_body(inviter_name@, tenant_name@, invitation_link(base_url@, token@)),
{
    let l = invitation_link_for(base_url, token);
    let body = invitation_email_body(inviter_name, tenant_name, l.as_str());
    Email {
        to: string_from_str(to),
        subject: invitation_subject_for(tenant_name),
        link: l,
        html_body: body,
    }
}

/// The mailer of development, which records what it would send instead of sending.
pub struct ConsoleMailer;

// ---------------------------------------------------------------------------
// Addresses
// ---------------------------------------------------------------------------

/// Errors of mail delivery.
#[derive(Debug)]
pub enum MailError {
    Config(String),
    Validation(String),
    Smtp(String),
}

/// What lettre's mailbox parser gives for `s`: the display name, if any, and the
/// address; or the text of its error.
pub uninterp spec fn mailbox_parse(s: Seq<char>) -> Result<(Option<Seq<char>>, Seq<char>), Seq<char>>;

/// The view of an optional string.
pub open spec fn name_view(o: Option<String>) -> Option<Seq<char>> {
    match o {
        Some(s) => Some(s@),
        None => None,
    }
}

/// `s.parse::<lettre::message::Mailbox>()`: the mailbox's name and its address as
/// text, or the error's text. The result depends on `s` alone and is named.
#[verifier::external_body]
fn parse_mailbox(s: &str) -> (r: Result<(Option<String>, String), String>)
    ensures
        match r {
            Ok((n, a)) => mailbox_parse(s@) == Ok::<(Option<Seq<char>>, Seq<char>), Seq<char>>(
                (name_view(n), a@),
            ),
            Err(e) => mailbox_parse(s@) == Err::<(Option<Seq<char>>, Seq<char>), Seq<char>>(e@),
        },
{
    match s.parse::<lettre::message::Mailbox>() {
        Ok(m) => Ok((m.name, m.email.to_string())),
        Err(e) => Err(e.to_string()),
    }
}

/// The sender of outgoing mail as one mailbox: `<name> <<address>>`.
pub open spec fn sender_text(from_name: Seq<char>, from_address: Seq<char>) -> Seq<char> {
    from_name + " <"@ + from_address + ">"@
}

/// The sender and the recipient of a message, each a display name and an address.
pub struct Envelope {
    pub from_name: Option<String>,
    pub from_address: String,
    pub to_name: Option<String>,
    pub to_address: String,
}

/// The envelope of a message from `from_name` at `from_address` to `to`, as the
/// mailbox parser reads the sender (`sender_text`) and the recipient; a validation
/// error that names the side that does not parse, the sender first.
pub fn envelope(from_name: &str, from_address: &str, to: &str) -> (r: Result<Envelope, MailError>)
    ensures
        match mailbox_parse(sender_text(from_name@, from_address@)) {
            Err(e) => r matches Err(MailError::Validation(m)) && m@ == "Invalid from address: "@ + e,
            Ok((fname, faddr)) => match mailbox_parse(to@) {
                Err(e) => r matches Err(MailError::Validation(m)) && m@
                    == "Invalid recipient address: "@ + e,
                Ok((tname, taddr)) => r matches Ok(env) && name_view(env.from_name) == fname
                    && env.from_address@ == faddr && name_view(env.to_name) == tname
                    && env.to_address@ == taddr,
            },
        },
{
    let mut sender = string_from_str(from_name);
    sender.append(" <");
    sender.append(from_address);
    sender.append(">");
    let (fname, faddr) = match parse_mailbox(sender.as_str()) {
        Ok(p) => p,
        Err(e) => {
            let mut m = string_from_str("Invalid from address: ");
            m.append(e.as_str());
            return Err(MailError::Validation(m));
        },
    };
    let (tname, taddr) = match parse_mailbox(to) {
        Ok(p) => p,
        Err(e) => {
            let mut m = string_from_str("Invalid recipient address: ");
            m.append(e.as_str());
            return Err(MailError::Validation(m));
        },
    };
    Ok(Envelope { from_name: fname, from_address: faddr, to_name: tname, to_address: taddr })
}

/// Whether `pat` occurs in `s`.
pub open spec fn occurs_in(s: Seq<char>, pat: Seq<char>) -> bool {
    exists|i: int| 0 <= i && i + pat.len() <= s.len() && #[trigger] s.subrange(i, i + pat.len()) == pat
}

/// Text that ends with `p1`, then `m`, then text that starts with `p2`, holds `p1`,
/// `m` and `p2` in a row.
proof fn lemma_occurs_between(a: Seq<char>, m: Seq<char>, c: Seq<char>, p1: Seq<char>, p2: Seq<char>)
    requires
        p1.len() <= a.len(),
        a.subrange(a.len() - p1.len(), a.len() as int) == p1,
        p2.len() <= c.len(),
        c.subrange(0, p2.len() as int) == p2,
    ensures
        occurs_in(a + m + c, p1 + m + p2),
{
    let i = a.len() - p1.len();
    let s = a + m + c;
    let pat = p1 + m + p2;
    assert forall|k: int| 0 <= k < pat.len() implies s.subrange(i, i + pat.len())[k] == pat[k] by {
        if k < p1.len() {
            assert(a.subrange(a.len() - p1.len(), a.len() as int)[k] == p1[k]);
        } else if k < p1.len() + m.len() {
        } else {
            assert(c.subrange(0, p2.len() as int)[k - p1.len() - m.len()] == p2[k - p1.len() - m.len()]);
        }
    }
    assert(s.subrange(i, i + pat.len()) =~= pat);
}

/// The verification e-mail greets the user by name and carries the link twice: as the
/// target of its button and as text to copy.
pub proof fn law_verification_body_carries_link(username: Seq<char>, link: Seq<char>)
    ensures
        occurs_in(verification_body(username, link), "<a href=\""@ + link + "\""@),
        occurs_in(verification_body(username, link), "\">"@ + link + "</p>"@),
        occurs_in(verification_body(username, link), "Welcome to Evolith, "@ + username + "!"@),
{
    let l0 = r#"
<!DOCTYPE html>
<html>
<head>
    <meta charset="utf-8">
    <title>Verify your email</title>
</head>
<body style="font-family: Arial, sans-serif; line-height: 1.6; color: #333; max-width: 600px; margin: 0 auto; padding: 20px;">
    <div style="background: #f9f9f9; border-radius: 8px; padding: 30px; margin-top: 20px;">
        <h1 style="color: #2c3e50; margin-bottom: 20px;">Welcome to Evolith, "#@;
    let l1 = r#"!</h1>
        <p style="margin-bottom: 20px;">Thank you for creating an account. Please verify your email address by clicking the button below:</p>
        <div style="text-align: center; margin: 30px 0;">
            <a href=""#@;
    let l2 = r#"" style="background: #3498db; color: white; padding: 12px 30px; text-decoration: none; border-radius: 5px; display: inline-block; font-weight: bold;">Verify Email Address</a>
        </div>
        <p style="color: #666; font-size: 14px;">Or copy and paste this link into your browser:</p>
        <p style="background: #eee; padding: 10px; border-radius: 4px; word-break: break-all; font-size: 13px;">"#@;
    let l3 = r#"</p>
        <p style="margin-top: 30px; color: #666; font-size: 13px;">If you didn't create an account with Evolith, you can safely ignore this email.</p>
    </div>
    <p style="text-align: center; color: #999; font-size: 12px; margin-top: 20px;">© Evolith. All rights reserved.</p>
</body>
</html>
"#@;
    reveal_strlit(r#"
<!DOCTYPE html>
<html>
<head>
    <meta charset="utf-8">
    <title>Verify your email</title>
</head>
<body style="font-family: Arial, sans-serif; line-height: 1.6; color: #333; max-width: 600px; margin: 0 auto; padding: 20px;">
    <div style="background: #f9f9f9; border-radius: 8px; padding: 30px; margin-top: 20px;">
        <h1 style="color: #2c3e50; margin-bottom: 20px;">Welcome to Evolith, "#);
    reveal_strlit(r#"!</h1>
        <p style="margin-bottom: 20px;">Thank you for creating an account. Please verify your email address by clicking the button below:</p>
        <div style="text-align: center; margin: 30px 0;">
            <a href=""#);
    reveal_strlit(r#"" style="background: #3498db; color: white; padding: 12px 30px; text-decoration: none; border-radius: 5px; display: inline-block; font-weight: bold;">Verify Email Address</a>
        </div>
        <p style="color: #666; font-size: 14px;">Or copy and paste this link into your browser:</p>
        <p style="background: #eee; padding: 10px; border-radius: 4px; word-break: break-all; font-size: 13px;">"#);
    reveal_strlit(r#"</p>
        <p style="margin-top: 30px; color: #666; font-size: 13px;">If you didn't create an account with Evolith, you can safely ignore this email.</p>
    </div>
    <p style="text-align: center; color: #999; font-size: 12px; margin-top: 20px;">© Evolith. All rights reserved.</p>
</body>
</html>
"#);
    reveal_strlit("<a href=\"");
    reveal_strlit("\"");
    reveal_strlit("\">");
    reveal_strlit("</p>");
    reveal_strlit("Welcome to Evolith, ");
    reveal_strlit("!");
    let body = verification_body(username, link);
    assert(body == l0 + username + l1 + link + l2 + link + l3);
    assert(l1.subrange(l1.len() - 9, l1.len() as int) =~= "<a href=\""@);
    assert(l2.subrange(0, 1) =~= "\""@);
    assert(body =~= (l0 + username + l1) + link + (l2 + link + l3));
    assert((l2 + link + l3).subrange(0, 1) =~= "\""@);
    let a = l0 + username + l1;
    assert(a.subrange(a.len() - 9, a.len() as int) =~= "<a href=\""@);
    lemma_occurs_between(a, link, l2 + link + l3, "<a href=\""@, "\""@);
    assert(l2.subrange(l2.len() - 2, l2.len() as int) =~= "\">"@);
    assert((l0 + username + l1 + link + l2).subrange((l0 + username + l1 + link + l2).len() - 2, (l0 + username + l1 + link + l2).len() as int) =~= "\">"@);
    assert(l3.subrange(0, 4) =~= "</p>"@);
    lemma_occurs_between(l0 + username + l1 + link + l2, link, l3, "\">"@, "</p>"@);
    assert(l0.subrange(l0.len() - 20, l0.len() as int) =~= "Welcome to Evolith, "@);
    assert(l1.subrange(0, 1) =~= "!"@);
    assert((l1 + link + l2 + link + l3).subrange(0, 1) =~= "!"@);
    assert(body =~= l0 + username + (l1 + link + l2 + link + l3));
    lemma_occurs_between(l0, username, l1 + link + l2 + link + l3, "Welcome to Evolith, "@, "!"@);
}

/// The password-reset e-mail greets the user by name and carries the reset link twice:
/// as the target of its button and as text to copy.
pub proof fn law_reset_body_carries_link(username: Seq<char>, link: Seq<char>)
    ensures
        occurs_in(password_reset_body(username, link), "<a href=\""@ + link + "\""@),
        occurs_in(password_reset_body(username, link), "\">"@ + link + "</p>"@),
        occurs_in(password_reset_body(username, link), "Hi "@ + username + ","@),
{
    let l0 = r#"
<!DOCTYPE html>
<html>
<head>
    <meta charset="utf-8">
    <title>Reset your password</title>
</head>
<body style="font-family: Arial, sans-serif; line-height: 1.6; color: #333; max-width: 600px; margin: 0 auto; padding: 20px;">
    <div style="background: #f9f9f9; border-radius: 8px; padding: 30px; margin-top: 20px;">
        <h1 style="color: #2c3e50; margin-bottom: 20px;">Password Reset Request</h1>
        <p style="margin-bottom: 10px;">Hi "#@;
    let l1 = r#",</p>
        <p style="margin-bottom: 20px;">We received a request to reset your password. Click the button below to create a new password:</p>
        <div style="text-align: center; margin: 30px 0;">
            <a href=""#@;
    let l2 = r#"" style="background: #e74c3c; color: white; padding: 12px 30px; text-decoration: none; border-radius: 5px; display: inline-block; font-weight: bold;">Reset Password</a>
        </div>
        <p style="color: #666; font-size: 14px;">Or copy and paste this link into your browser:</p>
        <p style="background: #eee; padding: 10px; border-radius: 4px; word-break: break-all; font-size: 13px;">"#@;
    let l3 = r#"</p>
        <p style="margin-top: 20px; color: #666; font-size: 13px;"><strong>This link will expire in 1 hour.</strong></p>
        <p style="margin-top: 10px; color: #666; font-size: 13px;">If you didn't request a password reset, you can safely ignore this email. Your password will remain unchanged.</p>
    </div>
    <p style="text-align: center; color: #999; font-size: 12px; margin-top: 20px;">© Evolith. All rights reserved.</p>
</body>
</html>
"#@;
    reveal_strlit(r#"
<!DOCTYPE html>
<html>
<head>
    <meta charset="utf-8">
    <title>Reset your password</title>
</head>
<body style="font-family: Arial, sans-serif; line-height: 1.6; color: #333; max-width: 600px; margin: 0 auto; padding: 20px;">
    <div style="background: #f9f9f9; border-radius: 8px; padding: 30px; margin-top: 20px;">
        <h1 style="color: #2c3e50; margin-bottom: 20px;">Password Reset Request</h1>
        <p style="margin-bottom: 10px;">Hi "#);
    reveal_strlit(r#",</p>
        <p style="margin-bottom: 20px;">We received a request to reset your password. Click the button below to create a new password:</p>
        <div style="text-align: center; margin: 30px 0;">
            <a href=""#);
    reveal_strlit(r#"" style="background: #e74c3c; color: white; padding: 12px 30px; text-decoration: none; border-radius: 5px; display: inline-block; font-weight: bold;">Reset Password</a>
        </div>
        <p style="color: #666; font-size: 14px;">Or copy and paste this link into your browser:</p>
        <p style="background: #eee; padding: 10px; border-radius: 4px; word-break: break-all; font-size: 13px;">"#);
    reveal_strlit(r#"</p>
        <p style="margin-top: 20px; color: #666; font-size: 13px;"><strong>This link will expire in 1 hour.</strong></p>
        <p style="margin-top: 10px; color: #666; font-size: 13px;">If you didn't request a password reset, you can safely ignore this email. Your password will remain unchanged.</p>
    </div>
    <p style="text-align: center; color: #999; font-size: 12px; margin-top: 20px;">© Evolith. All rights reserved.</p>
</body>
</html>
"#);
    reveal_strlit("<a href=\"");
    reveal_strlit("\"");
    reveal_strlit("\">");
    reveal_strlit("</p>");
    reveal_strlit("Hi ");
    reveal_strlit(",");
    let body = password_reset_body(username, link);
    assert(body == l0 + username + l1 + link + l2 + link + l3);
    let a = l0 + username + l1;
    assert(a.subrange(a.len() - 9, a.len() as int) =~= "<a href=\""@);
    assert(body =~= a + link + (l2 + link + l3));
    assert((l2 + link + l3).subrange(0, 1) =~= "\""@);
    lemma_occurs_between(a, link, l2 + link + l3, "<a href=\""@, "\""@);
    let b = l0 + username + l1 + link + l2;
    assert(b.subrange(b.len() - 2, b.len() as int) =~= "\">"@);
    assert(l3.subrange(0, 4) =~= "</p>"@);
    lemma_occurs_between(b, link, l3, "\">"@, "</p>"@);
    assert(l0.subrange(l0.len() - 3, l0.len() as int) =~= "Hi "@);
    assert((l1 + link + l2 + link + l3).subrange(0, 1) =~= ","@);
    assert(body =~= l0 + username + (l1 + link + l2 + link + l3));
    lemma_occurs_between(l0, username, l1 + link + l2 + link + l3, "Hi "@, ","@);
}

/// The invitation e-mail names who invites and into which workspace, and carries the
/// link twice: as the target of its button and as text to copy.
pub proof fn law_invitation_body_carries_link(inviter_name: Seq<char>, tenant_name: Seq<char>, link: Seq<char>)
    ensures
        occurs_in(invitation_body(inviter_name, tenant_name, link), "<a href=\""@ + link + "\""@),
        occurs_in(invitation_body(inviter_name, tenant_name, link), "\">"@ + link + "</p>"@),
        occurs_in(invitation_body(inviter_name, tenant_name, link), "<strong>"@ + inviter_name + "</strong>"@),
        occurs_in(invitation_body(inviter_name, tenant_name, link), "<strong>"@ + tenant_name + "</strong>"@),
{
    let l0 = r#"
<!DOCTYPE html>
<html>
<head>
    <meta charset="utf-8">
    <title>Workspace Invitation</title>
</head>
<body style="font-family: Arial, sans-serif; line-height: 1.6; color: #333; max-width: 600px; margin: 0 auto; padding: 20px;">
    <div style="background: #f9f9f9; border-radius: 8px; padding: 30px; margin-top: 20px;">
        <h1 style="color: #2c3e50; margin-bottom: 20px;">You're Invited!</h1>
        <p style="margin-bottom: 20px;"><strong>"#@;
    let l1 = r#"</strong> has invited you to join <strong>"#@;
    let l2 = r#"</strong> on Evolith.</p>
        <p style="margin-bottom: 20px;">Evolith is an AI agent development platform that helps teams build, share, and deploy AI-powered tools and skills.</p>
        <div style="text-align: center; margin: 30px 0;">
            <a href=""#@;
    let l3 = r#"" style="background: #27ae60; color: white; padding: 12px 30px; text-decoration: none; border-radius: 5px; display: inline-block; font-weight: bold;">Accept Invitation</a>
        </div>
        <p style="color: #666; font-size: 14px;">Or copy and paste this link into your browser:</p>
        <p style="background: #eee; padding: 10px; border-radius: 4px; word-break: break-all; font-size: 13px;">"#@;
    let l4 = r#"</p>
        <p style="margin-top: 30px; color: #666; font-size: 13px;">This invitation will expire in 7 days. If you don't have an Evolith account yet, you'll be able to create one after clicking the link.</p>
    </div>
    <p style="text-align: center; color: #999; font-size: 12px; margin-top: 20px;">© Evolith. All rights reserved.</p>
</body>
</html>
"#@;
    reveal_strlit(r#"
<!DOCTYPE html>
<html>
<head>
    <meta charset="utf-8">
    <title>Workspace Invitation</title>
</head>
<body style="font-family: Arial, sans-serif; line-height: 1.6; color: #333; max-width: 600px; margin: 0 auto; padding: 20px;">
    <div style="background: #f9f9f9; border-radius: 8px; padding: 30px; margin-top: 20px;">
        <h1 style="color: #2c3e50; margin-bottom: 20px;">You're Invited!</h1>
        <p style="margin-bottom: 20px;"><strong>"#);
    reveal_strlit(r#"</strong> has invited you to join <strong>"#);
    reveal_strlit(r#"</strong> on Evolith.</p>
        <p style="margin-bottom: 20px;">Evolith is an AI agent development platform that helps teams build, share, and deploy AI-powered tools and skills.</p>
        <div style="text-align: center; margin: 30px 0;">
            <a href=""#);
    reveal_strlit(r#"" style="background: #27ae60; color: white; padding: 12px 30px; text-decoration: none; border-radius: 5px; display: inline-block; font-weight: bold;">Accept Invitation</a>
        </div>
        <p style="color: #666; font-size: 14px;">Or copy and paste this link into your browser:</p>
        <p style="background: #eee; padding: 10px; border-radius: 4px; word-break: break-all; font-size: 13px;">"#);
    reveal_strlit(r#"</p>
        <p style="margin-top: 30px; color: #666; font-size: 13px;">This invitation will expire in 7 days. If you don't have an Evolith account yet, you'll be able to create one after clicking the link.</p>
    </div>
    <p style="text-align: center; color: #999; font-size: 12px; margin-top: 20px;">© Evolith. All rights reserved.</p>
</body>
</html>
"#);
    reveal_strlit("<a href=\"");
    reveal_strlit("\"");
    reveal_strlit("\">");
    reveal_strlit("</p>");
    reveal_strlit("<strong>");
    reveal_strlit("</strong>");
    let u = inviter_name;
    let t = tenant_name;
    let body = invitation_body(u, t, link);
    assert(body == l0 + u + l1 + t + l2 + link + l3 + link + l4);
    let a = l0 + u + l1 + t + l2;
    assert(a.subrange(a.len() - 9, a.len() as int) =~= "<a href=\""@);
    assert(body =~= a + link + (l3 + link + l4));
    assert((l3 + link + l4).subrange(0, 1) =~= "\""@);
    lemma_occurs_between(a, link, l3 + link + l4, "<a href=\""@, "\""@);
    let b = a + link + l3;
    assert(b.subrange(b.len() - 2, b.len() as int) =~= "\">"@);
    assert(l4.subrange(0, 4) =~= "</p>"@);
    lemma_occurs_between(b, link, l4, "\">"@, "</p>"@);
    assert(l0.subrange(l0.len() - 8, l0.len() as int) =~= "<strong>"@);
    let c = l1 + t + l2 + link + l3 + link + l4;
    assert(c.subrange(0, 9) =~= "</strong>"@);
    assert(body =~= l0 + u + c);
    lemma_occurs_between(l0, u, c, "<strong>"@, "</strong>"@);
    let d = l0 + u + l1;
    assert(d.subrange(d.len() - 8, d.len() as int) =~= "<strong>"@);
    let e = l2 + link + l3 + link + l4;
    assert(e.subrange(0, 9) =~= "</strong>"@);
    assert(body =~= d + t + e);
    lemma_occurs_between(d, t, e, "<strong>"@, "</strong>"@);
}

/// The three e-mails lead to three different pages for the same site and token, and
/// each link is the site's address followed by a path that ends in `?token=` and the
/// token itself.
pub proof fn law_links_lead_to_their_pages(base_url: Seq<char>, token: Seq<char>)
    ensures
        verification_link(base_url, token) != reset_link(base_url, token),
        verification_link(base_url, token) != invitation_link(base_url, token),
        reset_link(base_url, token) != invitation_link(base_url, token),
        verification_link(base_url, token).subrange(0, base_url.len() as int) == base_url,
        reset_link(base_url, token).subrange(0, base_url.len() as int) == base_url,
        invitation_link(base_url, token).subrange(0, base_url.len() as int) == base_url,
        reset_link(base_url, token).subrange(
            reset_link(base_url, token).len() - token.len() - 7,
            reset_link(base_url, token).len() as int,
        ) == "?token="@ + token,
        verification_link(base_url, token).subrange(
            verification_link(base_url, token).len() - token.len() - 7,
            verification_link(base_url, token).len() as int,
        ) == "?token="@ + token,
        invitation_link(base_url, token).subrange(
            invitation_link(base_url, token).len() - token.len() - 7,
            invitation_link(base_url, token).len() as int,
        ) == "?token="@ + token,
{
    reveal_strlit("/verify-email?token=");
    reveal_strlit("/reset-password?token=");
    reveal_strlit("/accept-invitation?token=");
    reveal_strlit("?token=");
    let v = verification_link(base_url, token);
    let r = reset_link(base_url, token);
    let i = invitation_link(base_url, token);
    assert(v.subrange(0, base_url.len() as int) =~= base_url);
    assert(r.subrange(0, base_url.len() as int) =~= base_url);
    assert(i.subrange(0, base_url.len() as int) =~= base_url);
    assert(v.subrange(v.len() - token.len() - 7, v.len() as int) =~= "?token="@ + token);
    assert(r.subrange(r.len() - token.len() - 7, r.len() as int) =~= "?token="@ + token);
    assert(i.subrange(i.len() - token.len() - 7, i.len() as int) =~= "?token="@ + token);
    assert(v.len() != r.len() && v.len() != i.len() && r.len() != i.len());
}

} // verus!
