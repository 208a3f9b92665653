use evolith::billing::{
    api_url, cancel_at_period_end_form, check_response, created_customer_id, customer_form,
    customer_update_form, subscription_data, subscription_form, SubscriptionFields,
};
use evolith::payment::PaymentError;

fn pairs(form: &[(String, String)]) -> Vec<(&str, &str)> {
    form.iter().map(|(a, b)| (a.as_str(), b.as_str())).collect()
}

#[test]
fn urls_and_forms() {
    assert_eq!(api_url("customers/cus_1"), "https://api.stripe.com/v1/customers/cus_1");
    assert_eq!(
        pairs(&customer_form("a@b.c", Some("Ann"), "t-1")),
        vec![("email", "a@b.c"), ("metadata[tenant_id]", "t-1"), ("name", "Ann")]
    );
    assert_eq!(
        pairs(&customer_form("a@b.c", None, "t-1")),
        vec![("email", "a@b.c"), ("metadata[tenant_id]", "t-1")]
    );
    assert_eq!(pairs(&customer_update_form(None, Some("Bo"))), vec![("name", "Bo")]);
    assert!(customer_update_form(None, None).is_empty());
    assert_eq!(
        pairs(&subscription_form("cus_1", "price_9", "t-1", Some(14))),
        vec![
            ("customer", "cus_1"),
            ("items[0][price]", "price_9"),
            ("items[0][quantity]", "1"),
            ("metadata[tenant_id]", "t-1"),
            ("trial_period_days", "14"),
        ]
    );
    assert_eq!(subscription_form("c", "p", "t", None).len(), 4);
    assert_eq!(pairs(&cancel_at_period_end_form()), vec![("cancel_at_period_end", "true")]);
}

#[test]
fn responses_and_customer_ids() {
    assert_eq!(check_response(200, "{}".to_string()).ok(), Some("{}".to_string()));
    assert_eq!(check_response(299, "x".to_string()).ok(), Some("x".to_string()));
    match check_response(402, "declined".to_string()) {
        Err(PaymentError::StripeApi(m)) => assert_eq!(m, "declined"),
        other => panic!("unexpected {:?}", other),
    }
    assert!(check_response(199, String::new()).is_err());
    assert_eq!(created_customer_id(Some("cus_1".to_string())).ok(), Some("cus_1".to_string()));
    match created_customer_id(None) {
        Err(PaymentError::StripeApi(m)) => assert_eq!(m, "Stripe customer id missing"),
        other => panic!("unexpected {:?}", other),
    }
}

#[test]
fn subscription_records_fill_in_missing_fields() {
    let full = SubscriptionFields {
        id: Some("sub_1".to_string()),
        status: Some("active".to_string()),
        price: Some("price_9".to_string()),
        customer: Some("cus_1".to_string()),
        current_period_start: Some(1_700_000_000),
        current_period_end: Some(1_702_592_000),
        cancel_at_period_end: Some(true),
        trial_end: Some(1_700_600_000),
    };
    let d = subscription_data(full, 5);
    assert_eq!(d.stripe_subscription_id, "sub_1");
    assert_eq!(d.stripe_customer_id, "cus_1");
    assert_eq!(d.status, "active");
    assert_eq!(d.plan_id, "price_9");
    assert_eq!(d.billing_cycle, "monthly");
    assert_eq!(d.current_period_start, 1_700_000_000);
    assert_eq!(d.current_period_end, 1_702_592_000);
    assert!(d.cancel_at_period_end);
    assert_eq!(d.trial_end, Some(1_700_600_000));

    let empty = SubscriptionFields {
        id: None,
        status: None,
        price: None,
        customer: None,
        current_period_start: None,
        current_period_end: Some(i64::MAX),
        cancel_at_period_end: None,
        trial_end: Some(i64::MIN),
    };
    let d = subscription_data(empty, 42);
    assert_eq!(d.stripe_subscription_id, "");
    assert_eq!(d.status, "unknown");
    assert_eq!(d.plan_id, "");
    assert_eq!(d.current_period_start, 42);
    // Beyond chrono's range of dates: the current time stands in.
    assert_eq!(d.current_period_end, 42);
    assert!(!d.cancel_at_period_end);
    assert_eq!(d.trial_end, None);
}
