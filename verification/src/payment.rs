//! Payment rules: the Stripe configuration, webhook signature checks, quota
//! decisions and the resources that usage is metered on.

use vstd::prelude::*;
use vstd::utf8::encode_utf8;
use crate::crypto::{from_utf8_lossy, hex_encode, hex_lower, hmac_sha256, hmac_sha256_tag, utf8_lossy};
use crate::text::{
    chars_eq, chars_slice, chars_start_with, format_i64, has_prefix, int_decimal,
    lemma_split_on_nonempty, split_on, str_equals, str_starts_with, string_from_str, to_chars,
};

verus! {

/// The errors of the payment service.
#[derive(Debug)]
pub enum PaymentError {
    StripeApi(String),
    CustomerNotFound(String),
    SubscriptionNotFound(String),
    PaymentMethodNotFound(String),
    WebhookSignatureInvalid,
    WebhookProcessingFailed(String),
    ConfigError(String),
    UsageTrackingError(String),
    OverageCalculationError(String),
}

/// The Stripe settings of the payment service.
#[derive(Debug, Clone)]
pub struct PaymentConfig {
    pub stripe_secret_key: String,
    pub stripe_webhook_secret: String,
    pub stripe_api_version: Option<String>,
    pub test_mode: bool,
}

/// The secret key that applies where `STRIPE__SECRET_KEY` is unset.
pub open spec fn default_secret_key() -> Seq<char> {
    "sk_test_placeholder"@
}

/// The webhook secret that applies where `STRIPE__WEBHOOK_SECRET` is unset.
pub open spec fn default_webhook_secret() -> Seq<char> {
    "whsec_placeholder"@
}

impl PaymentConfig {
    /// The configuration that the `STRIPE__SECRET_KEY`, `STRIPE__WEBHOOK_SECRET`,
    /// `STRIPE__API_VERSION` and `STRIPE__TEST_MODE` variables give, each `None` where
    /// the variable is unset. Test mode is on unless the last variable is set to
    /// something other than `true`.
    pub fn from_env_vars(
        secret_key: Option<String>,
        webhook_secret: Option<String>,
        api_version: Option<String>,
        test_mode: Option<String>,
    ) -> (c: Self)
        ensures
            c.stripe_secret_key@ == match secret_key {
                Some(s) => s@,
                None => default_secret_key(),
            },
            c.stripe_webhook_secret@ == match webhook_secret {
                Some(s) => s@,
                None => default_webhook_secret(),
            },
            c.stripe_api_version == api_version,
            c.test_mode == match test_mode {
                Some(s) => s@ == "true"@,
                None => true,
            },
    {
        let stripe_secret_key = match secret_key {
            Some(s) => s,
            None => string_from_str("sk_test_placeholder"),
        };
        let stripe_webhook_secret = match webhook_secret {
            Some(s) => s,
            None => string_from_str("whsec_placeholder"),
        };
        let test_mode = match test_mode {
            Some(s) => str_equals(s.as_str(), "true"),
            None => true,
        };
        PaymentConfig {
            stripe_secret_key,
            stripe_webhook_secret,
            stripe_api_version: api_version,
            test_mode,
        }
    }

    /// Whether payments are live: test mode is off and the secret key is a live key.
    pub fn is_live_mode(&self) -> (r: bool)
        ensures
            r == (!self.test_mode && has_prefix(self.stripe_secret_key@, "sk_live_"@)),
    {
        !self.test_mode && str_starts_with(self.stripe_secret_key.as_str(), "sk_live_")
    }
}

impl Default for PaymentConfig {
    /// The configuration of an environment that sets none of the Stripe variables.
    fn default() -> (c: Self)
        ensures
            c.stripe_secret_key@ == default_secret_key(),
            c.stripe_webhook_secret@ == default_webhook_secret(),
            c.stripe_api_version is None,
            c.test_mode,
    {
        PaymentConfig::from_env_vars(None, None, None, None)
    }
}

/// The handler of Stripe webhooks.
pub struct WebhookHandler {
    webhook_secret: String,
}

/// The largest difference, in seconds, between a webhook's timestamp and the current
/// time that the handler accepts.
pub const WEBHOOK_TOLERANCE_SECS: i64 = 300;

/// The text that a webhook signature signs: the timestamp in decimal, a dot, and the
/// payload read as UTF-8.
pub open spec fn signed_payload(timestamp: i64, payload: Seq<u8>) -> Seq<char> {
    int_decimal(timestamp as int) + "."@ + utf8_lossy(payload)
}

/// The `v1` signature that a webhook with this payload and timestamp must carry under
/// `secret`: the hexadecimal HMAC-SHA256 of the signed payload.
pub open spec fn expected_signature(secret: Seq<char>, timestamp: i64, payload: Seq<u8>) -> Seq<
    char,
> {
    hex_lower(hmac_sha256_tag(encode_utf8(secret), encode_utf8(signed_payload(timestamp, payload))))
}

/// Whether one comma-separated part of a signature header is a `v1` signature equal to
/// `expected`.
pub open spec fn is_matching_v1(part: Seq<char>, expected: Seq<char>) -> bool {
    has_prefix(part, "v1="@) && part.skip(3) == expected
}

/// Whether some comma-separated part of the header `header` is a matching `v1`
/// signature.
pub open spec fn header_has_signature(header: Seq<char>, expected: Seq<char>) -> bool {
    exists|i: int|
        0 <= i < split_on(header, ',').len() && is_matching_v1(
            #[trigger] split_on(header, ',')[i],
            expected,
        )
}

/// Whether `timestamp` lies within the tolerance of the current time `now`.
pub open spec fn timestamp_fresh(timestamp: i64, now: i64) -> bool {
    -300 <= now - timestamp <= 300
}

/// Whether one part of a signature header is a `v1` signature equal to `expected`.
fn part_matches(part: &[char], expected: &[char]) -> (r: bool)
    ensures
        r == is_matching_v1(part@, expected@),
{
    let v1 = to_chars("v1=");
    proof {
        reveal_strlit("v1=");
    }
    if !chars_start_with(part, &v1) {
        return false;
    }
    let rest = chars_slice(part, 3, part.len());
    assert(rest@ == part@.skip(3));
    chars_eq(&rest, expected)
}

/// Whether some comma-separated part of `header` is a `v1` signature equal to
/// `expected`.
fn find_signature(header: &str, expected: &[char]) -> (r: bool)
    ensures
        r == header_has_signature(header@, expected@),
{
    let cs = to_chars(header);
    let mut cur: Vec<char> = Vec::new();
    let mut i: usize = 0;
    assert(cs@.take(0) =~= Seq::<char>::empty());
    while i < cs.len()
        invariant
            cs@ == header@,
            i <= cs@.len(),
            split_on(cs@.take(i as int), ',').len() >= 1,
            cur@ == split_on(cs@.take(i as int), ',').last(),
            forall|j: int|
                0 <= j < split_on(cs@.take(i as int), ',').len() - 1 ==> !is_matching_v1(
                    #[trigger] split_on(cs@.take(i as int), ',')[j],
                    expected@,
                ),
        decreases cs@.len() - i,
    {
        let ghost prev = cs@.take(i as int);
        let ghost next = cs@.take(i + 1);
        assert(next.drop_last() =~= prev);
        assert(next.last() == cs@[i as int]);
        if cs[i] == ',' {
            if part_matches(&cur, expected) {
                proof {
                    let p = split_on(prev, ',').len() - 1;
                    lemma_split_step(cs@, i + 1);
                    assert(split_on(next, ',')[p] == cur@);
                    lemma_split_prefix_pieces(cs@, i + 1, cs@.len() as int, p);
                    assert(cs@.take(cs@.len() as int) =~= cs@);
                    assert(is_matching_v1(split_on(header@, ',')[p], expected@));
                }
                return true;
            }
            cur = Vec::new();
        } else {
            cur.push(cs[i]);
        }
        proof {
            lemma_split_step(cs@, i + 1);
        }
        i = i + 1;
        assert forall|j: int|
            0 <= j < split_on(cs@.take(i as int), ',').len() - 1 implies !is_matching_v1(
            #[trigger] split_on(cs@.take(i as int), ',')[j],
            expected@,
        ) by {
            if j < split_on(prev, ',').len() - 1 {
                assert(split_on(cs@.take(i as int), ',')[j] == split_on(prev, ',')[j]);
            }
        }
    }
    assert(cs@.take(cs@.len() as int) =~= cs@);
    let found = part_matches(&cur, expected);
    if !found {
        assert forall|j: int| 0 <= j < split_on(header@, ',').len() implies !is_matching_v1(
            #[trigger] split_on(header@, ',')[j],
            expected@,
        ) by {}
    }
    found
}

/// Every piece that is complete in a prefix of `s` is a piece of every longer prefix.
proof fn lemma_split_prefix_pieces(s: Seq<char>, k: int, m: int, j: int)
    requires
        0 <= k <= m <= s.len(),
        0 <= j < split_on(s.take(k), ',').len() - 1,
    ensures
        j < split_on(s.take(m), ',').len() - 1,
        split_on(s.take(m), ',')[j] == split_on(s.take(k), ',')[j],
    decreases m - k,
{
    if m > k {
        lemma_split_prefix_pieces(s, k, m - 1, j);
        lemma_split_step(s, m);
    }
}

/// Extending a prefix by one character keeps every completed piece.
proof fn lemma_split_step(s: Seq<char>, k: int)
    requires
        0 < k <= s.len(),
    ensures
        split_on(s.take(k - 1), ',').len() <= split_on(s.take(k), ',').len(),
        forall|j: int|
            0 <= j < split_on(s.take(k - 1), ',').len() - 1 ==> #[trigger] split_on(s.take(k), ',')[j]
                == split_on(s.take(k - 1), ',')[j],
        s[k - 1] == ',' ==> split_on(s.take(k), ',')[split_on(s.take(k - 1), ',').len() - 1]
            == split_on(s.take(k - 1), ',').last(),
        s[k - 1] == ',' ==> split_on(s.take(k), ',').len() == split_on(s.take(k - 1), ',').len() + 1,
{
    assert(s.take(k).drop_last() =~= s.take(k - 1));
    lemma_split_on_nonempty(s.take(k - 1), ',');
}

proof fn lemma_split_append(a: Seq<char>, b: Seq<char>, sep: char)
    requires
        forall|j: int| 0 <= j < b.len() ==> b[j] != sep,
    ensures
        split_on(a.push(sep) + b, sep) == split_on(a, sep).push(b),
    decreases b.len(),
{
    if b.len() == 0 {
        assert(a.push(sep) + b =~= a.push(sep));
        assert(a.push(sep).drop_last() =~= a);
        assert(b =~= Seq::<char>::empty());
    } else {
        let c = a.push(sep) + b;
        assert(c.drop_last() =~= a.push(sep) + b.drop_last());
        assert forall|j: int| 0 <= j < b.drop_last().len() implies b.drop_last()[j] != sep by {
            assert(b.drop_last()[j] == b[j]);
        }
        lemma_split_append(a, b.drop_last(), sep);
        lemma_split_on_nonempty(a, sep);
        assert(b.drop_last().push(b.last()) =~= b);
        assert(split_on(c, sep) =~= split_on(a, sep).push(b));
    }
}

proof fn lemma_hex_no_comma(data: Seq<u8>)
    ensures
        forall|j: int| 0 <= j < hex_lower(data).len() ==> #[trigger] hex_lower(data)[j] != ',',
        hex_lower(data).len() == 2 * data.len(),
    decreases data.len(),
{
    if data.len() > 0 {
        lemma_hex_no_comma(data.drop_last());
        let h = hex_lower(data.drop_last());
        let hi = crate::crypto::lower_hex_digit(data.last() / 16);
        let lo = crate::crypto::lower_hex_digit(data.last() % 16);
        assert(hi as u32 >= 48 && lo as u32 >= 48) by {
            let x = data.last() / 16;
            let y = data.last() % 16;
            assert((x + 48) as char as u32 == x + 48 || (x + 87) as char as u32 == x + 87);
        }
        assert forall|j: int| 0 <= j < hex_lower(data).len() implies #[trigger] hex_lower(data)[j] != ',' by {
            if j < h.len() {
                assert(hex_lower(data)[j] == h[j]);
            }
        }
    }
}

/// A Stripe signature header `t=<timestamp>,v1=<signature>` that carries the expected
/// signature is accepted: whatever the part in front (without a comma), the `v1` part
/// matches.
pub proof fn law_expected_signature_is_accepted(lead: Seq<char>, secret: Seq<char>, timestamp: i64, payload: Seq<u8>)
    requires
        forall|j: int| 0 <= j < lead.len() ==> lead[j] != ',',
    ensures
        header_has_signature(
            lead + ","@ + "v1="@ + expected_signature(secret, timestamp, payload),
            expected_signature(secret, timestamp, payload),
        ),
{
    reveal_strlit(",");
    reveal_strlit("v1=");
    let sig = expected_signature(secret, timestamp, payload);
    lemma_hex_no_comma(hmac_sha256_tag(encode_utf8(secret), encode_utf8(signed_payload(timestamp, payload))));
    let part = "v1="@ + sig;
    assert forall|j: int| 0 <= j < part.len() implies part[j] != ',' by {
        if j >= 3 {
            assert(part[j] == sig[j - 3]);
        }
    }
    assert(lead + ","@ + part =~= lead.push(',') + part);
    lemma_split_append(lead, part, ',');
    lemma_split_on_nonempty(lead, ',');
    let pieces = split_on(lead.push(',') + part, ',');
    assert(pieces[pieces.len() - 1] == part);
    assert(part.skip(3) =~= sig);
    assert(part.take(3) =~= "v1="@);
    assert(is_matching_v1(pieces[pieces.len() - 1], sig));
    let header = lead + ","@ + "v1="@ + sig;
    assert(header =~= lead.push(',') + part);
    assert(split_on(header, ',')[pieces.len() - 1] == part);
    assert(is_matching_v1(split_on(header, ',')[pieces.len() - 1], sig));
}

impl WebhookHandler {
    /// The webhook secret that the handler checks signatures with.
    pub closed spec fn secret(&self) -> Seq<char> {
        self.webhook_secret@
    }

    /// A handler that checks signatures with the configuration's webhook secret.
    pub fn new(config: PaymentConfig) -> (h: Self)
        ensures
            h.secret() == config.stripe_webhook_secret@,
    {
        WebhookHandler { webhook_secret: config.stripe_webhook_secret }
    }

    /// Checks a Stripe webhook signature. The webhook's `timestamp` must lie within five
    /// minutes of the current time `now` (both in seconds since the epoch), and some
    /// comma-separated part of the `signature` header must be `v1=` followed by the
    /// expected signature. The result is `Ok(true)` where both hold and the error
    /// `WebhookSignatureInvalid` otherwise.
    pub fn verify_signature(&self, payload: &[u8], signature: &str, timestamp: i64, now: i64) -> (r:
        Result<bool, PaymentError>)
        requires
            -i64::MAX <= now - timestamp <= i64::MAX,
        ensures
            timestamp_fresh(timestamp, now) && header_has_signature(
                signature@,
                expected_signature(self.secret(), timestamp, payload@),
            ) ==> r matches Ok(true),
            !(timestamp_fresh(timestamp, now) && header_has_signature(
                signature@,
                expected_signature(self.secret(), timestamp, payload@),
            )) ==> r matches Err(PaymentError::WebhookSignatureInvalid),
    {
        let diff = now - timestamp;
        let distance = if diff < 0 {
            -diff
        } else {
            diff
        };
        if distance > WEBHOOK_TOLERANCE_SECS {
            return Err(PaymentError::WebhookSignatureInvalid);
        }
        let mut signed = format_i64(timestamp);
        signed.append(".");
        let text = from_utf8_lossy(payload);
        signed.append(text.as_str());
        let tag = hmac_sha256(self.webhook_secret.as_str().as_bytes(), signed.as_str().as_bytes());
        let expected = hex_encode(tag.as_slice());
        let expected_chars = to_chars(expected.as_str());
        if find_signature(signature, &expected_chars) {
            Ok(true)
        } else {
            Err(PaymentError::WebhookSignatureInvalid)
        }
    }
}

/// The resources that usage is metered on.
#[derive(Debug, Clone, Copy, PartialEq, Eq, Structural, Hash)]
pub enum ResourceType {
    ApiCalls,
    StorageMb,
    Tools,
    Skills,
    Snippets,
    Users,
}

/// The name of a resource in reports and invoices.
pub open spec fn resource_name(r: ResourceType) -> Seq<char> {
    match r {
        ResourceType::ApiCalls => "api_calls"@,
        ResourceType::StorageMb => "storage_mb"@,
        ResourceType::Tools => "tools"@,
        ResourceType::Skills => "skills"@,
        ResourceType::Snippets => "snippets"@,
        ResourceType::Users => "users"@,
    }
}

impl ResourceType {
    /// The name of the resource in reports and invoices.
    pub fn as_str(&self) -> (r: &'static str)
        ensures
            r@ == resource_name(*self),
    {
        match self {
            ResourceType::ApiCalls => "api_calls",
            ResourceType::StorageMb => "storage_mb",
            ResourceType::Tools => "tools",
            ResourceType::Skills => "skills",
            ResourceType::Snippets => "snippets",
            ResourceType::Users => "users",
        }
    }

    /// The name of the resource, as its display form gives it.
    pub fn to_string(&self) -> (r: String)
        ensures
            r@ == resource_name(*self),
    {
        string_from_str(self.as_str())
    }
}

/// The state of an invoice.
#[derive(Debug, Clone, Copy, PartialEq, Eq, Structural)]
pub enum InvoiceStatus {
    Draft,
    Issued,
    Paid,
    Void,
}

/// The action that the handler takes for a webhook event type: one per customer,
/// subscription, invoice and payment-method event it handles, `ignored` for any other.
pub open spec fn event_action(t: Seq<char>) -> Seq<char> {
    if t == "customer.created"@ {
        "customer_created"@
    } else if t == "customer.updated"@ {
        "customer_updated"@
    } else if t == "customer.deleted"@ {
        "customer_deleted"@
    } else if t == "subscription.created"@ {
        "subscription_created"@
    } else if t == "subscription.updated"@ {
        "subscription_updated"@
    } else if t == "subscription.deleted"@ {
        "subscription_deleted"@
    } else if t == "invoice.paid"@ {
        "invoice_paid"@
    } else if t == "invoice.payment_failed"@ {
        "invoice_payment_failed"@
    } else if t == "payment_method.attached"@ {
        "payment_method_attached"@
    } else if t == "payment_method.detached"@ {
        "payment_method_detached"@
    } else {
        "ignored"@
    }
}

/// The event types that the handler acts on: the customer, subscription, invoice and
/// payment-method events of Stripe.
pub open spec fn handled_event(t: Seq<char>) -> bool {
    ||| t == "customer.created"@
    ||| t == "customer.updated"@
    ||| t == "customer.deleted"@
    ||| t == "subscription.created"@
    ||| t == "subscription.updated"@
    ||| t == "subscription.deleted"@
    ||| t == "invoice.paid"@
    ||| t == "invoice.payment_failed"@
    ||| t == "payment_method.attached"@
    ||| t == "payment_method.detached"@
}

/// `t` with each `.` written as `_`.
pub open spec fn underscored(t: Seq<char>) -> Seq<char> {
    t.map_values(|c: char| if c == '.' {
        '_'
    } else {
        c
    })
}

/// Each handled event type is acted on by its own action, named as the type with
/// `.` written as `_` (`invoice.paid` is `invoice_paid`); every other type is
/// ignored. So two handled types never share an action, and no handled type is
/// ignored.
pub proof fn law_event_actions(t: Seq<char>)
    ensures
        handled_event(t) ==> event_action(t) == underscored(t),
        handled_event(t) ==> event_action(t) != "ignored"@,
        !handled_event(t) ==> event_action(t) == "ignored"@,
{
    reveal_strlit("customer.created");
    reveal_strlit("customer_created");
    reveal_strlit("customer.updated");
    reveal_strlit("customer_updated");
    reveal_strlit("customer.deleted");
    reveal_strlit("customer_deleted");
    reveal_strlit("subscription.created");
    reveal_strlit("subscription_created");
    reveal_strlit("subscription.updated");
    reveal_strlit("subscription_updated");
    reveal_strlit("subscription.deleted");
    reveal_strlit("subscription_deleted");
    reveal_strlit("invoice.paid");
    reveal_strlit("invoice_paid");
    reveal_strlit("invoice.payment_failed");
    reveal_strlit("invoice_payment_failed");
    reveal_strlit("payment_method.attached");
    reveal_strlit("payment_method_attached");
    reveal_strlit("payment_method.detached");
    reveal_strlit("payment_method_detached");
    reveal_strlit("ignored");
    if t == "customer.created"@ {
        assert(underscored(t) =~= "customer_created"@);
    }
    if t == "customer.updated"@ {
        assert(underscored(t) =~= "customer_updated"@);
    }
    if t == "customer.deleted"@ {
        assert(underscored(t) =~= "customer_deleted"@);
    }
    if t == "subscription.created"@ {
        assert(underscored(t) =~= "subscription_created"@);
    }
    if t == "subscription.updated"@ {
        assert(underscored(t) =~= "subscription_updated"@);
    }
    if t == "subscription.deleted"@ {
        assert(underscored(t) =~= "subscription_deleted"@);
    }
    if t == "invoice.paid"@ {
        assert(underscored(t) =~= "invoice_paid"@);
    }
    if t == "invoice.payment_failed"@ {
        assert(underscored(t) =~= "invoice_payment_failed"@);
    }
    if t == "payment_method.attached"@ {
        assert(underscored(t) =~= "payment_method_attached"@);
    }
    if t == "payment_method.detached"@ {
        assert(underscored(t) =~= "payment_method_detached"@);
    }
}

/// The action that the handler takes for a webhook event of type `event_type`.
pub fn event_action_for(event_type: &str) -> (r: String)
    ensures
        r@ == event_action(event_type@),
{
    let a = if str_equals(event_type, "customer.created") {
        "customer_created"
    } else if str_equals(event_type, "customer.updated") {
        "customer_updated"
    } else if str_equals(event_type, "customer.deleted") {
        "customer_deleted"
    } else if str_equals(event_type, "subscription.created") {
        "subscription_created"
    } else if str_equals(event_type, "subscription.updated") {
        "subscription_updated"
    } else if str_equals(event_type, "subscription.deleted") {
        "subscription_deleted"
    } else if str_equals(event_type, "invoice.paid") {
        "invoice_paid"
    } else if str_equals(event_type, "invoice.payment_failed") {
        "invoice_payment_failed"
    } else if str_equals(event_type, "payment_method.attached") {
        "payment_method_attached"
    } else if str_equals(event_type, "payment_method.detached") {
        "payment_method_detached"
    } else {
        "ignored"
    };
    string_from_str(a)
}

// ---------------------------------------------------------------------------
// Quotas and overage
// ---------------------------------------------------------------------------

/// The limit that stands for "unlimited".
pub const UNLIMITED: u64 = u64::MAX;

/// The outcome of a quota check.
#[derive(Debug, Clone, Copy)]
pub struct QuotaDecision {
    pub resource_type: ResourceType,
    pub limit: u64,
    pub used: u64,
    pub remaining: u64,
    /// Whether the use may go on: within the limit, or beyond it at an overage rate.
    pub allowed: bool,
    /// Whether the use goes beyond the limit at the resource's overage rate.
    pub overage_applies: bool,
}

/// Checks a use of `used` units against `limit`. An unlimited limit allows everything;
/// otherwise the use is allowed while units remain, and beyond that only where the
/// resource has an overage rate (`has_overage_rate`).
pub fn check_quota(resource_type: ResourceType, limit: u64, used: u64, has_overage_rate: bool) -> (d:
    QuotaDecision)
    ensures
        d.resource_type == resource_type,
        d.limit == limit,
        d.used == used,
        limit == UNLIMITED ==> d.remaining == UNLIMITED && d.allowed && !d.overage_applies,
        limit != UNLIMITED ==> d.remaining == (if used < limit {
            limit - used
        } else {
            0
        }),
        limit != UNLIMITED ==> d.overage_applies == (used >= limit && has_overage_rate),
        limit != UNLIMITED ==> d.allowed == (used < limit || has_overage_rate),
{
    if limit == UNLIMITED {
        return QuotaDecision {
            resource_type,
            limit,
            used,
            remaining: UNLIMITED,
            allowed: true,
            overage_applies: false,
        };
    }
    let remaining = limit.saturating_sub(used);
    let within = remaining > 0;
    let overage_applies = !within && has_overage_rate;
    QuotaDecision {
        resource_type,
        limit,
        used,
        remaining,
        allowed: within || overage_applies,
        overage_applies,
    }
}

/// The units used beyond the limit.
pub fn calculate_overage(limit: u64, used: u64) -> (r: u64)
    ensures
        r == if used > limit {
            used - limit
        } else {
            0
        },
{
    used.saturating_sub(limit)
}

/// Below an unlimited limit, what remains and what runs over add up with the limit to
/// the use: `used + remaining == limit + overage`, and at most one of the two is
/// non-zero.
pub proof fn law_quota_accounting(limit: u64, used: u64)
    requires
        limit != UNLIMITED,
    ensures
        ({
            let remaining = if used < limit {
                limit - used
            } else {
                0
            };
            let overage = if used > limit {
                used - limit
            } else {
                0
            };
            used + remaining == limit + overage && (remaining == 0 || overage == 0)
        }),
{
}

/// The first group of a hyphenated id: what comes before its first hyphen.
pub open spec fn first_group(s: Seq<char>) -> Seq<char> {
    split_on(s, '-')[0]
}

/// The number of an overage invoice: `OVR-`, the first group of the tenant id, a
/// hyphen and the issue stamp.
pub fn overage_invoice_number(tenant_id: &str, stamp: &str) -> (r: String)
    ensures
        r@ == "OVR-"@ + first_group(tenant_id@) + "-"@ + stamp@,
{
    let cs = to_chars(tenant_id);
    let mut i: usize = 0;
    while i < cs.len() && cs[i] != '-'
        invariant
            cs@ == tenant_id@,
            i <= cs@.len(),
            forall|j: int| 0 <= j < i ==> cs@[j] != '-',
        decreases cs@.len() - i,
    {
        i = i + 1;
    }
    let group = chars_slice(&cs, 0, i);
    proof {
        lemma_first_group(cs@, i as int);
    }
    let mut r = string_from_str("OVR-");
    r.append(crate::text::string_from_chars(&group).as_str());
    r.append("-");
    r.append(stamp);
    r
}

proof fn lemma_first_group(s: Seq<char>, i: int)
    requires
        0 <= i <= s.len(),
        forall|j: int| 0 <= j < i ==> s[j] != '-',
        i == s.len() || s[i] == '-',
    ensures
        first_group(s) == s.take(i),
    decreases s.len(),
{
    if i == s.len() {
        lemma_split_no_sep(s, '-');
        assert(s.take(i) =~= s);
    } else {
        let t = s.drop_last();
        lemma_split_on_nonempty(t, '-');
        if s.last() == '-' {
            if i < t.len() {
                assert(t[i] == s[i]);
                assert forall|j: int| 0 <= j < i implies t[j] != '-' by {
                    assert(t[j] == s[j]);
                }
                lemma_first_group(t, i);
                assert(t.take(i) =~= s.take(i));
            } else {
                assert forall|j: int| 0 <= j < t.len() implies t[j] != '-' by {
                    assert(t[j] == s[j]);
                }
                lemma_split_no_sep(t, '-');
                assert(s.take(i) =~= t);
            }
        } else {
            assert(i < t.len());
            assert(t[i] == s[i]);
            assert forall|j: int| 0 <= j < i implies t[j] != '-' by {
                assert(t[j] == s[j]);
            }
            lemma_split_has_sep(t, '-', i);
            lemma_first_group(t, i);
            assert(t.take(i) =~= s.take(i));
        }
    }
}

proof fn lemma_split_no_sep(s: Seq<char>, sep: char)
    requires
        forall|j: int| 0 <= j < s.len() ==> s[j] != sep,
    ensures
        split_on(s, sep) == seq![s],
    decreases s.len(),
{
    if s.len() > 0 {
        let t = s.drop_last();
        assert forall|j: int| 0 <= j < t.len() implies t[j] != sep by {
            assert(t[j] == s[j]);
        }
        lemma_split_no_sep(t, sep);
        assert(s.last() != sep);
        assert(t.push(s.last()) =~= s);
        assert(split_on(s, sep) =~= seq![s]);
    } else {
        assert(s =~= Seq::<char>::empty());
    }
}

proof fn lemma_split_has_sep(s: Seq<char>, sep: char, i: int)
    requires
        0 <= i < s.len(),
        s[i] == sep,
    ensures
        split_on(s, sep).len() >= 2,
    decreases s.len(),
{
    let t = s.drop_last();
    lemma_split_on_nonempty(t, sep);
    if i < s.len() - 1 {
        assert(t[i] == s[i]);
        lemma_split_has_sep(t, sep, i);
    }
}

} // verus!
