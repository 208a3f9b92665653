//! Requests to the Stripe API and what the payment service reads from its
//! answers: the forms it posts, the outcome of a response, and the subscription
//! record that a Stripe subscription object gives.

use vstd::prelude::*;
use crate::payment::PaymentError;
use crate::text::{format_u64, string_from_str};

verus! {

/// The base URL of the Stripe API.
pub open spec fn api_base() -> Seq<char> {
    "https://api.stripe.com/v1"@
}

/// The URL of the Stripe API resource at `path`.
pub fn api_url(path: &str) -> (r: String)
    ensures
        r@ == api_base() + "/"@ + path@,
{
    let mut r = string_from_str("https://api.stripe.com/v1");
    r.append("/");
    r.append(path);
    r
}

/// A form as the list of its fields, in order.
pub open spec fn form_view(form: Seq<(String, String)>) -> Seq<(Seq<char>, Seq<char>)> {
    form.map_values(|f: (String, String)| (f.0@, f.1@))
}

fn field(name: &str, value: &str) -> (f: (String, String))
    ensures
        f.0@ == name@,
        f.1@ == value@,
{
    (string_from_str(name), string_from_str(value))
}

/// The form that creates a customer: e-mail, the tenant in the metadata, and the name
/// where one is given.
pub open spec fn customer_form_fields(email: Seq<char>, name: Option<Seq<char>>, tenant_id: Seq<char>) -> Seq<
    (Seq<char>, Seq<char>),
> {
    let base = seq![("email"@, email), ("metadata[tenant_id]"@, tenant_id)];
    match name {
        Some(n) => base.push(("name"@, n)),
        None => base,
    }
}

/// The form that creates a customer for the tenant `tenant_id`.
pub fn customer_form(email: &str, name: Option<&str>, tenant_id: &str) -> (r: Vec<(String, String)>)
    ensures
        form_view(r@) == customer_form_fields(
            email@,
            match name {
                Some(n) => Some(n@),
                None => None,
            },
            tenant_id@,
        ),
{
    let mut r: Vec<(String, String)> = Vec::new();
    r.push(field("email", email));
    r.push(field("metadata[tenant_id]", tenant_id));
    match name {
        Some(n) => {
            r.push(field("name", n));
        },
        None => {},
    }
    assert(form_view(r@) =~= customer_form_fields(
        email@,
        match name {
            Some(n) => Some(n@),
            None => None,
        },
        tenant_id@,
    ));
    r
}

/// The form that updates a customer: the e-mail and the name, each where one is given.
pub open spec fn customer_update_fields(email: Option<Seq<char>>, name: Option<Seq<char>>) -> Seq<
    (Seq<char>, Seq<char>),
> {
    let a: Seq<(Seq<char>, Seq<char>)> = match email {
        Some(e) => seq![("email"@, e)],
        None => Seq::empty(),
    };
    match name {
        Some(n) => a.push(("name"@, n)),
        None => a,
    }
}

/// The form that updates a customer's e-mail and name.
pub fn customer_update_form(email: Option<&str>, name: Option<&str>) -> (r: Vec<(String, String)>)
    ensures
        form_view(r@) == customer_update_fields(
            match email {
                Some(e) => Some(e@),
                None => None,
            },
            match name {
                Some(n) => Some(n@),
                None => None,
            },
        ),
{
    let mut r: Vec<(String, String)> = Vec::new();
    match email {
        Some(e) => {
            r.push(field("email", e));
        },
        None => {},
    }
    match name {
        Some(n) => {
            r.push(field("name", n));
        },
        None => {},
    }
    assert(form_view(r@) =~= customer_update_fields(
        match email {
            Some(e) => Some(e@),
            None => None,
        },
        match name {
            Some(n) => Some(n@),
            None => None,
        },
    ));
    r
}

/// The form that subscribes a customer to one unit of a price, with the tenant in the
/// metadata and a trial period where one is given.
pub open spec fn subscription_form_fields(
    customer_id: Seq<char>,
    price_id: Seq<char>,
    tenant_id: Seq<char>,
    trial_days: Option<u32>,
) -> Seq<(Seq<char>, Seq<char>)> {
    let base = seq![
        ("customer"@, customer_id),
        ("items[0][price]"@, price_id),
        ("items[0][quantity]"@, "1"@),
        ("metadata[tenant_id]"@, tenant_id),
    ];
    match trial_days {
        Some(d) => base.push(("trial_period_days"@, crate::text::nat_decimal(d as nat))),
        None => base,
    }
}

/// The form that creates a subscription.
pub fn subscription_form(customer_id: &str, price_id: &str, tenant_id: &str, trial_days: Option<u32>) -> (r:
    Vec<(String, String)>)
    ensures
        form_view(r@) == subscription_form_fields(customer_id@, price_id@, tenant_id@, trial_days),
{
    let mut r: Vec<(String, String)> = Vec::new();
    r.push(field("customer", customer_id));
    r.push(field("items[0][price]", price_id));
    r.push(field("items[0][quantity]", "1"));
    r.push(field("metadata[tenant_id]", tenant_id));
    match trial_days {
        Some(d) => {
            let days = format_u64(d as u64);
            r.push((string_from_str("trial_period_days"), days));
        },
        None => {},
    }
    assert(form_view(r@) =~= subscription_form_fields(customer_id@, price_id@, tenant_id@, trial_days));
    r
}

/// Whether an HTTP status is a success (200 to 299).
pub open spec fn is_success(status: u16) -> bool {
    200 <= status <= 299
}

/// The body of a Stripe response where its status is a success; otherwise the error
/// `StripeApi` carrying the body.
pub fn check_response(status: u16, body: String) -> (r: Result<String, PaymentError>)
    ensures
        is_success(status) ==> (r matches Ok(b) && b@ == body@),
        !is_success(status) ==> (r matches Err(PaymentError::StripeApi(m)) && m@ == body@),
{
    if 200 <= status && status <= 299 {
        Ok(body)
    } else {
        Err(PaymentError::StripeApi(body))
    }
}

/// The id of a customer that Stripe created; an error where the answer carries none.
pub fn created_customer_id(id: Option<String>) -> (r: Result<String, PaymentError>)
    ensures
        id matches Some(s) ==> (r matches Ok(t) && t@ == s@),
        id is None ==> (r matches Err(PaymentError::StripeApi(m)) && m@ == "Stripe customer id missing"@),
{
    match id {
        Some(s) => Ok(s),
        None => Err(PaymentError::StripeApi(string_from_str("Stripe customer id missing"))),
    }
}

/// What the payment service reads from a Stripe subscription object, each field `None`
/// where the object lacks it or holds a value of another JSON type: the id, the status,
/// the price of the first item (written as an id or as an object with an id), the
/// customer (likewise), the period, whether it cancels at the period's end and the end
/// of the trial.
#[derive(Debug, Clone)]
pub struct SubscriptionFields {
    pub id: Option<String>,
    pub status: Option<String>,
    pub price: Option<String>,
    pub customer: Option<String>,
    pub current_period_start: Option<i64>,
    pub current_period_end: Option<i64>,
    pub cancel_at_period_end: Option<bool>,
    pub trial_end: Option<i64>,
}

/// A subscription as the payment service records it. Instants are seconds since the
/// epoch.
#[derive(Debug, Clone)]
pub struct SubscriptionData {
    pub stripe_subscription_id: String,
    pub stripe_customer_id: String,
    pub status: String,
    pub plan_id: String,
    pub billing_cycle: String,
    pub current_period_start: i64,
    pub current_period_end: i64,
    pub cancel_at_period_end: bool,
    pub trial_end: Option<i64>,
}

/// Whether `DateTime::<Utc>::from_timestamp(secs, 0)` gives an instant.
pub uninterp spec fn utc_timestamp_valid(secs: i64) -> bool;

/// `chrono::DateTime::<Utc>::from_timestamp(secs, 0).is_some()`: whether the seconds
/// name an instant within chrono's range of dates. The range is named, not stated.
#[verifier::external_body]
fn timestamp_in_range(secs: i64) -> (r: bool)
    ensures
        r == utc_timestamp_valid(secs),
{
    chrono::DateTime::from_timestamp(secs, 0).is_some()
}

/// The text of an optional field, empty where it is missing.
pub open spec fn text_or_empty(f: Option<String>) -> Seq<char> {
    match f {
        Some(s) => s@,
        None => Seq::empty(),
    }
}

/// An instant of a subscription: the one given where chrono can hold it, `now`
/// otherwise.
pub open spec fn instant_or_now(t: Option<i64>, now: i64) -> i64 {
    match t {
        Some(v) => if utc_timestamp_valid(v) {
            v
        } else {
            now
        },
        None => now,
    }
}

fn text_or_empty_of(f: Option<String>) -> (r: String)
    ensures
        r@ == text_or_empty(f),
{
    match f {
        Some(s) => s,
        None => String::new(),
    }
}

fn instant_or_now_of(t: Option<i64>, now: i64) -> (r: i64)
    ensures
        r == instant_or_now(t, now),
{
    match t {
        Some(v) => if timestamp_in_range(v) {
            v
        } else {
            now
        },
        None => now,
    }
}

/// The record of a Stripe subscription read at `now`: missing texts are empty (the
/// status `unknown`), a missing or unrepresentable period bound is `now`, the billing
/// cycle is `monthly`, and a trial end is kept where chrono can hold it.
pub fn subscription_data(fields: SubscriptionFields, now: i64) -> (d: SubscriptionData)
    ensures
        d.stripe_subscription_id@ == text_or_empty(fields.id),
        d.stripe_customer_id@ == text_or_empty(fields.customer),
        d.status@ == (match fields.status {
            Some(s) => s@,
            None => "unknown"@,
        }),
        d.plan_id@ == text_or_empty(fields.price),
        d.billing_cycle@ == "monthly"@,
        d.current_period_start == instant_or_now(fields.current_period_start, now),
        d.current_period_end == instant_or_now(fields.current_period_end, now),
        d.cancel_at_period_end == (fields.cancel_at_period_end == Some(true)),
        d.trial_end == (match fields.trial_end {
            Some(t) => if utc_timestamp_valid(t) {
                Some(t)
            } else {
                None
            },
            None => None,
        }),
{
    let status = match fields.status {
        Some(s) => s,
        None => string_from_str("unknown"),
    };
    let trial_end = match fields.trial_end {
        Some(t) => if timestamp_in_range(t) {
            Some(t)
        } else {
            None
        },
        None => None,
    };
    let cancel = match fields.cancel_at_period_end {
        Some(b) => b,
        None => false,
    };
    SubscriptionData {
        stripe_subscription_id: text_or_empty_of(fields.id),
        stripe_customer_id: text_or_empty_of(fields.customer),
        status,
        plan_id: text_or_empty_of(fields.price),
        billing_cycle: string_from_str("monthly"),
        current_period_start: instant_or_now_of(fields.current_period_start, now),
        current_period_end: instant_or_now_of(fields.current_period_end, now),
        cancel_at_period_end: cancel,
        trial_end,
    }
}

/// The form that schedules a subscription's cancellation at the end of its period.
pub fn cancel_at_period_end_form() -> (r: Vec<(String, String)>)
    ensures
        form_view(r@) == seq![("cancel_at_period_end"@, "true"@)],
{
    let mut r: Vec<(String, String)> = Vec::new();
    r.push(field("cancel_at_period_end", "true"));
    assert(form_view(r@) =~= seq![("cancel_at_period_end"@, "true"@)]);
    r
}

} // verus!
