use evolith::outbox::{
    check_lease, check_max_attempts, mark_delivered, mark_failed, new_event, parse_status,
    replay_dead_letter, OutboxError, OutboxEvent, OutboxStatus, OutboxTable,
};

const T0: i64 = 1_700_000_000_000;

fn event(id: u128, max_attempts: u32) -> OutboxEvent {
    new_event(
        id,
        "skill.published".to_string(),
        "skill".to_string(),
        format!("agg-{}", id),
        "{\"ok\":true}".to_string(),
        format!("key-{}", id),
        max_attempts,
        T0,
    )
    .expect("valid event")
}

#[test]
fn enqueued_event_is_pending_and_claim_moves_it_to_processing() {
    let mut table = OutboxTable { events: vec![event(1, 3)] };
    assert_eq!(table.events[0].status, OutboxStatus::Pending);
    assert_eq!(table.events[0].attempts, 0);
    let claimed = table.claim_due(10, T0, 30_000, 77).expect("claim");
    assert_eq!(claimed.len(), 1);
    assert_eq!(claimed[0].status, OutboxStatus::Processing);
    assert_eq!(claimed[0].claim_token, Some(77));
    assert_eq!(claimed[0].attempts, 1);
    assert_eq!(table.events[0].lease_expires_at, Some(T0 + 30_000));
    // Claimed already: a second worker finds nothing.
    assert!(table.claim_due(10, T0 + 1, 30_000, 78).unwrap().is_empty());
}

#[test]
fn invalid_attempt_and_lease_bounds_are_rejected() {
    match check_max_attempts(0) {
        Err(OutboxError::ValidationError(m)) => assert_eq!(m, "outbox max_attempts must be at least 1"),
        other => panic!("unexpected {:?}", other),
    }
    assert!(check_max_attempts(1).is_ok());
    match check_lease(0) {
        Err(OutboxError::ValidationError(m)) => assert_eq!(m, "outbox claim lease must be positive"),
        other => panic!("unexpected {:?}", other),
    }
    assert!(check_lease(1).is_ok());
    assert!(new_event(1, "t".into(), "a".into(), "i".into(), "{}".into(), "k".into(), 0, T0).is_err());
    let mut table = OutboxTable { events: vec![event(1, 3)] };
    assert!(matches!(table.claim_due(1, T0, -5, 1), Err(OutboxError::ValidationError(_))));
    assert_eq!(table.events[0].status, OutboxStatus::Pending);
}

#[test]
fn claims_respect_the_limit_and_the_due_time() {
    let mut later = event(3, 3);
    later.next_attempt_at = T0 + 60_000;
    let mut table = OutboxTable { events: vec![event(1, 3), event(2, 3), later, event(4, 3)] };
    let first = table.claim_due(2, T0, 1_000, 9).unwrap();
    let ids: Vec<u128> = first.iter().map(|e| e.id).collect();
    assert_eq!(ids, vec![1, 2]);
    let second = table.claim_due(5, T0, 1_000, 10).unwrap();
    let ids: Vec<u128> = second.iter().map(|e| e.id).collect();
    assert_eq!(ids, vec![4]);
    assert_eq!(table.events[2].status, OutboxStatus::Pending);
}

#[test]
fn failure_retries_then_moves_to_dead_letter() {
    let mut table = OutboxTable { events: vec![event(1, 2)] };
    table.claim_due(1, T0, 1_000, 1).unwrap();
    mark_failed(&mut table.events[0], 1, "boom", T0 + 5_000, T0 + 10).unwrap();
    assert_eq!(table.events[0].status, OutboxStatus::Failed);
    assert_eq!(table.events[0].last_error.as_deref(), Some("boom"));
    assert!(table.claim_due(1, T0 + 4_999, 1_000, 2).unwrap().is_empty());
    table.claim_due(1, T0 + 5_000, 1_000, 2).unwrap();
    assert_eq!(table.events[0].attempts, 2);
    mark_failed(&mut table.events[0], 2, "boom again", T0 + 9_000, T0 + 5_010).unwrap();
    assert_eq!(table.events[0].status, OutboxStatus::DeadLetter);
    assert!(table.claim_due(1, T0 + 100_000, 1_000, 3).unwrap().is_empty());
}

#[test]
fn worker_delivers_and_marks_event() {
    let mut table = OutboxTable { events: vec![event(1, 3)] };
    table.claim_due(1, T0, 1_000, 5).unwrap();
    mark_delivered(&mut table.events[0], 5, T0 + 1).unwrap();
    assert_eq!(table.events[0].status, OutboxStatus::Delivered);
    assert_eq!(table.events[0].claim_token, None);
    assert_eq!(table.events[0].lease_expires_at, None);
    assert!(table.claim_due(1, T0 + 1_000_000, 1_000, 6).unwrap().is_empty());
}

#[test]
fn expired_claim_is_recovered_and_stale_completion_is_fenced() {
    let mut table = OutboxTable { events: vec![event(1, 3)] };
    table.claim_due(1, T0, 1_000, 11).unwrap();
    // The lease runs out; another worker takes the event over.
    let again = table.claim_due(1, T0 + 1_000, 1_000, 12).unwrap();
    assert_eq!(again.len(), 1);
    assert_eq!(table.events[0].attempts, 2);
    let before = table.events[0].clone();
    match mark_delivered(&mut table.events[0], 11, T0 + 1_500) {
        Err(OutboxError::ConflictError(m)) => assert_eq!(m, "outbox claim is no longer current"),
        other => panic!("unexpected {:?}", other),
    }
    assert_eq!(table.events[0].claim_token, before.claim_token);
    assert_eq!(table.events[0].status, OutboxStatus::Processing);
    assert!(mark_failed(&mut table.events[0], 11, "late", T0, T0).is_err());
    mark_delivered(&mut table.events[0], 12, T0 + 1_600).unwrap();
}

#[test]
fn expired_final_attempt_moves_to_dead_letter() {
    let mut table = OutboxTable { events: vec![event(1, 1)] };
    table.claim_due(1, T0, 1_000, 1).unwrap();
    let got = table.claim_due(1, T0 + 2_000, 1_000, 2).unwrap();
    assert!(got.is_empty());
    assert_eq!(table.events[0].status, OutboxStatus::DeadLetter);
    assert_eq!(table.events[0].last_error.as_deref(), Some("CLAIM_LEASE_EXPIRED"));
    assert_eq!(table.events[0].claim_token, None);
}

#[test]
fn dead_letter_replay_resets_delivery_state() {
    let mut table = OutboxTable { events: vec![event(1, 1)] };
    table.claim_due(1, T0, 1_000, 1).unwrap();
    mark_failed(&mut table.events[0], 1, "boom", T0 + 10, T0 + 10).unwrap();
    assert_eq!(table.events[0].status, OutboxStatus::DeadLetter);
    replay_dead_letter(&mut table.events[0], T0 + 50).unwrap();
    let e = &table.events[0];
    assert_eq!(e.status, OutboxStatus::Pending);
    assert_eq!(e.attempts, 0);
    assert_eq!(e.next_attempt_at, T0 + 50);
    assert_eq!(e.last_error, None);
    assert_eq!(table.claim_due(1, T0 + 50, 1_000, 2).unwrap().len(), 1);
}

#[test]
fn replay_rejects_non_dead_letter_without_mutation() {
    let mut e = event(1, 3);
    let before = e.clone();
    match replay_dead_letter(&mut e, T0 + 1) {
        Err(OutboxError::ConflictError(m)) => assert_eq!(m, "outbox event is not in dead-letter state"),
        other => panic!("unexpected {:?}", other),
    }
    assert_eq!(e.status, before.status);
    assert_eq!(e.updated_at, before.updated_at);
}

#[test]
fn statuses_round_trip_through_their_names() {
    for s in [
        OutboxStatus::Pending,
        OutboxStatus::Processing,
        OutboxStatus::Delivered,
        OutboxStatus::Failed,
        OutboxStatus::DeadLetter,
    ] {
        assert_eq!(parse_status(s.as_str()).ok(), Some(s));
    }
    assert_eq!(OutboxStatus::DeadLetter.as_str(), "dead_letter");
    match parse_status("lost") {
        Err(OutboxError::DatabaseError(m)) => assert_eq!(m, "unknown outbox status: lost"),
        other => panic!("unexpected {:?}", other),
    }
}

#[test]
fn duplicate_idempotency_key_is_rejected() {
    let mut table = OutboxTable { events: Vec::new() };
    let first = table
        .enqueue(1, "t".into(), "a".into(), "i".into(), "{}".into(), "duplicate-key".into(), 3, T0)
        .expect("enqueue");
    assert_eq!(first.status, OutboxStatus::Pending);
    assert_eq!(table.events.len(), 1);
    match table.enqueue(2, "t".into(), "a".into(), "i".into(), "{}".into(), "duplicate-key".into(), 3, T0) {
        Err(OutboxError::DatabaseError(m)) => {
            assert_eq!(m, "UNIQUE constraint failed: outbox_events.idempotency_key")
        }
        other => panic!("unexpected {:?}", other),
    }
    assert!(matches!(
        table.enqueue(3, "t".into(), "a".into(), "i".into(), "{}".into(), "other".into(), 0, T0),
        Err(OutboxError::ValidationError(_))
    ));
    assert_eq!(table.events.len(), 1);
    table
        .enqueue(4, "t".into(), "a".into(), "i".into(), "{}".into(), "other".into(), 1, T0)
        .expect("new key");
    assert_eq!(table.events.len(), 2);
}

#[test]
fn idempotent_enqueue_hands_back_the_stored_event() {
    let mut table = OutboxTable { events: Vec::new() };
    let first = table
        .enqueue_idempotent(1, "t".into(), "a".into(), "i".into(), "{}".into(), "k".into(), 3, T0)
        .expect("new event");
    let again = table
        .enqueue_idempotent(2, "t".into(), "a".into(), "i".into(), "{}".into(), "k".into(), 3, T0 + 5)
        .expect("same event");
    assert_eq!(again.id, first.id);
    assert_eq!(again.created_at, T0);
    assert_eq!(table.events.len(), 1);
    match table.enqueue_idempotent(3, "t".into(), "a".into(), "i".into(), "{\"x\":1}".into(), "k".into(), 3, T0) {
        Err(OutboxError::ConflictError(m)) => {
            assert_eq!(m, "outbox idempotency key conflicts with another event")
        }
        other => panic!("unexpected {:?}", other),
    }
    assert_eq!(table.events.len(), 1);
    assert!(matches!(
        table.enqueue_idempotent(4, "t".into(), "a".into(), "i".into(), "{}".into(), "k2".into(), 0, T0),
        Err(OutboxError::ValidationError(_))
    ));
}

#[test]
fn enqueued_event_is_unclaimed() {
    let mut table = OutboxTable { events: Vec::new() };
    let e = table
        .enqueue(9, "t".into(), "a".into(), "i".into(), "{}".into(), "fresh".into(), 3, T0)
        .expect("enqueued");
    assert!(e.claim_token.is_none());
    assert!(e.lease_expires_at.is_none());
    assert!(e.last_error.is_none());
    assert_eq!(e.updated_at, T0);
    assert_eq!(e.next_attempt_at, e.created_at);
    assert_eq!(table.events.len(), 1);
}
