//! The transactional outbox: events wait to be delivered, are claimed by a
//! worker under a lease, and end delivered or, after their last attempt, in
//! the dead-letter state, from which they can be replayed. Instants are
//! milliseconds since the epoch; ids and claim tokens are UUIDs as numbers.

use vstd::prelude::*;
use crate::text::{str_equals, string_from_str};

verus! {

/// The delivery state of an outbox event.
#[derive(Debug, Clone, Copy, PartialEq, Eq, Structural)]
pub enum OutboxStatus {
    Pending,
    Processing,
    Delivered,
    Failed,
    DeadLetter,
}

/// The errors of the outbox.
#[derive(Debug)]
pub enum OutboxError {
    ValidationError(String),
    ConflictError(String),
    DatabaseError(String),
}

/// The stored name of a status.
pub open spec fn status_name(s: OutboxStatus) -> Seq<char> {
    match s {
        OutboxStatus::Pending => "pending"@,
        OutboxStatus::Processing => "processing"@,
        OutboxStatus::Delivered => "delivered"@,
        OutboxStatus::Failed => "failed"@,
        OutboxStatus::DeadLetter => "dead_letter"@,
    }
}

/// The status that a stored name denotes.
pub open spec fn status_of_name(n: Seq<char>) -> Option<OutboxStatus> {
    if n == "pending"@ {
        Some(OutboxStatus::Pending)
    } else if n == "processing"@ {
        Some(OutboxStatus::Processing)
    } else if n == "delivered"@ {
        Some(OutboxStatus::Delivered)
    } else if n == "failed"@ {
        Some(OutboxStatus::Failed)
    } else if n == "dead_letter"@ {
        Some(OutboxStatus::DeadLetter)
    } else {
        None
    }
}

impl OutboxStatus {
    /// The stored name of the status.
    pub fn as_str(&self) -> (r: &'static str)
        ensures
            r@ == status_name(*self),
    {
        match self {
            OutboxStatus::Pending => "pending",
            OutboxStatus::Processing => "processing",
            OutboxStatus::Delivered => "delivered",
            OutboxStatus::Failed => "failed",
            OutboxStatus::DeadLetter => "dead_letter",
        }
    }
}

/// The status that a stored name denotes; an error for any other name.
pub fn parse_status(value: &str) -> (r: Result<OutboxStatus, OutboxError>)
    ensures
        match status_of_name(value@) {
            Some(s) => r == Ok::<OutboxStatus, OutboxError>(s),
            None => r matches Err(OutboxError::DatabaseError(m)) && m@ == "unknown outbox status: "@
                + value@,
        },
{
    if str_equals(value, "pending") {
        Ok(OutboxStatus::Pending)
    } else if str_equals(value, "processing") {
        Ok(OutboxStatus::Processing)
    } else if str_equals(value, "delivered") {
        Ok(OutboxStatus::Delivered)
    } else if str_equals(value, "failed") {
        Ok(OutboxStatus::Failed)
    } else if str_equals(value, "dead_letter") {
        Ok(OutboxStatus::DeadLetter)
    } else {
        let mut m = string_from_str("unknown outbox status: ");
        m.append(value);
        Err(OutboxError::DatabaseError(m))
    }
}

/// Reading back the stored name of a status gives the status.
pub proof fn law_status_name_round_trip(s: OutboxStatus)
    ensures
        status_of_name(status_name(s)) == Some(s),
{
    reveal_strlit("pending");
    reveal_strlit("processing");
    reveal_strlit("delivered");
    reveal_strlit("failed");
    reveal_strlit("dead_letter");
    assert("pending"@[0] != "processing"@[1]);
    assert("processing"@.len() != "delivered"@.len());
    assert("failed"@.len() != "dead_letter"@.len());
}

/// One event of the outbox, as the delivery logic sees it.
#[derive(Debug, Clone)]
pub struct OutboxEvent {
    pub id: u128,
    pub event_type: String,
    pub aggregate_type: String,
    pub aggregate_id: String,
    /// The payload, as JSON text.
    pub payload: String,
    pub idempotency_key: String,
    pub status: OutboxStatus,
    pub attempts: u32,
    pub max_attempts: u32,
    pub next_attempt_at: i64,
    pub last_error: Option<String>,
    pub claim_token: Option<u128>,
    pub lease_expires_at: Option<i64>,
    pub created_at: i64,
    pub updated_at: i64,
}

/// Checks the attempt limit of a new event: at least one attempt.
pub fn check_max_attempts(max_attempts: u32) -> (r: Result<(), OutboxError>)
    ensures
        max_attempts == 0 ==> (r matches Err(OutboxError::ValidationError(m)) && m@
            == "outbox max_attempts must be at least 1"@),
        max_attempts > 0 ==> r is Ok,
{
    if max_attempts == 0 {
        return Err(OutboxError::ValidationError(string_from_str("outbox max_attempts must be at least 1")));
    }
    Ok(())
}

/// Checks the lease of a claim: it must be positive.
pub fn check_lease(lease_ms: i64) -> (r: Result<(), OutboxError>)
    ensures
        lease_ms <= 0 ==> (r matches Err(OutboxError::ValidationError(m)) && m@
            == "outbox claim lease must be positive"@),
        lease_ms > 0 ==> r is Ok,
{
    if lease_ms <= 0 {
        return Err(OutboxError::ValidationError(string_from_str("outbox claim lease must be positive")));
    }
    Ok(())
}

/// A new event, pending from `now` on, with no attempt made.
pub fn new_event(
    id: u128,
    event_type: String,
    aggregate_type: String,
    aggregate_id: String,
    payload: String,
    idempotency_key: String,
    max_attempts: u32,
    now: i64,
) -> (r: Result<OutboxEvent, OutboxError>)
    ensures
        max_attempts == 0 ==> r matches Err(OutboxError::ValidationError(_)),
        max_attempts > 0 ==> (r matches Ok(e) && e.id == id && e.status == OutboxStatus::Pending
            && e.attempts == 0 && e.max_attempts == max_attempts && e.next_attempt_at == now
            && e.last_error is None && e.claim_token is None && e.lease_expires_at is None
            && e.created_at == now && e.updated_at == now && e.event_type == event_type
            && e.aggregate_type == aggregate_type && e.aggregate_id == aggregate_id && e.payload
            == payload && e.idempotency_key == idempotency_key),
{
    match check_max_attempts(max_attempts) {
        Ok(()) => {},
        Err(e) => {
            return Err(e);
        },
    }
    Ok(OutboxEvent {
        id,
        event_type,
        aggregate_type,
        aggregate_id,
        payload,
        idempotency_key,
        status: OutboxStatus::Pending,
        attempts: 0,
        max_attempts,
        next_attempt_at: now,
        last_error: None,
        claim_token: None,
        lease_expires_at: None,
        created_at: now,
        updated_at: now,
    })
}

/// Whether the lease of a processing event has run out at `now`.
pub open spec fn lease_over(e: OutboxEvent, now: i64) -> bool {
    e.status == OutboxStatus::Processing && (e.lease_expires_at matches Some(l) && l <= now)
}

/// Whether a worker may claim the event at `now`: attempts are left, and it is pending
/// or failed and due, or processing under a lease that has run out.
pub open spec fn claimable(e: OutboxEvent, now: i64) -> bool {
    e.attempts < e.max_attempts && (((e.status == OutboxStatus::Pending || e.status
        == OutboxStatus::Failed) && e.next_attempt_at <= now) || lease_over(e, now))
}

/// Whether the event's lease ran out on its last attempt, so that it goes to the
/// dead-letter state.
pub open spec fn exhausted(e: OutboxEvent, now: i64) -> bool {
    lease_over(e, now) && e.attempts >= e.max_attempts
}

/// Whether `after` is `before` moved to the dead-letter state at `now` because its
/// lease ran out on its last attempt: claim and lease cleared, the error
/// `CLAIM_LEASE_EXPIRED` recorded, everything else kept.
pub open spec fn dead_lettered(before: OutboxEvent, after: OutboxEvent, now: i64) -> bool {
    &&& after == (OutboxEvent {
        status: OutboxStatus::DeadLetter,
        claim_token: None,
        lease_expires_at: None,
        last_error: after.last_error,
        updated_at: now,
        ..before
    })
    &&& after.last_error matches Some(m) && m@ == "CLAIM_LEASE_EXPIRED"@
}

/// The event claimed under `token` at `now`, its lease ending at `lease_until`.
pub open spec fn claimed(e: OutboxEvent, token: u128, lease_until: i64, now: i64) -> OutboxEvent {
    OutboxEvent {
        status: OutboxStatus::Processing,
        attempts: (e.attempts + 1) as u32,
        claim_token: Some(token),
        lease_expires_at: Some(lease_until),
        updated_at: now,
        ..e
    }
}

/// Whether the event is under the claim `token`.
pub open spec fn holds_claim(e: OutboxEvent, token: u128) -> bool {
    e.status == OutboxStatus::Processing && e.claim_token == Some(token)
}

/// Whether the state of `e` is sound: attempts never exceed the limit, and exactly the
/// processing events carry a claim and a lease.
pub open spec fn event_wf(e: OutboxEvent) -> bool {
    &&& e.attempts <= e.max_attempts
    &&& (e.status == OutboxStatus::Processing) == (e.claim_token is Some)
    &&& (e.status == OutboxStatus::Processing) == (e.lease_expires_at is Some)
}

/// Marks the claimed event delivered. Only the holder of the current claim may do so;
/// any other token is refused and the event is left as it was.
pub fn mark_delivered(e: &mut OutboxEvent, token: u128, now: i64) -> (r: Result<(), OutboxError>)
    ensures
        holds_claim(*old(e), token) ==> r is Ok && *final(e) == (OutboxEvent {
            status: OutboxStatus::Delivered,
            claim_token: None,
            lease_expires_at: None,
            updated_at: now,
            ..*old(e)
        }),
        !holds_claim(*old(e), token) ==> (r matches Err(OutboxError::ConflictError(m)) && m@
            == "outbox claim is no longer current"@) && *final(e) == *old(e),
{
    if !(e.status == OutboxStatus::Processing && e.claim_token == Some(token)) {
        return Err(OutboxError::ConflictError(string_from_str("outbox claim is no longer current")));
    }
    e.status = OutboxStatus::Delivered;
    e.claim_token = None;
    e.lease_expires_at = None;
    e.updated_at = now;
    Ok(())
}

/// Records a failed delivery of the claimed event: it waits until `next` for another
/// attempt, or goes to the dead-letter state where its attempts are used up. Only the
/// holder of the current claim may do so.
pub fn mark_failed(e: &mut OutboxEvent, token: u128, error: &str, next: i64, now: i64) -> (r: Result<
    (),
    OutboxError,
>)
    ensures
        holds_claim(*old(e), token) ==> r is Ok && final(e).status == (if old(e).attempts
            >= old(e).max_attempts {
            OutboxStatus::DeadLetter
        } else {
            OutboxStatus::Failed
        }) && (final(e).last_error matches Some(m) && m@ == error@) && final(e).next_attempt_at
            == next && final(e).claim_token is None && final(e).lease_expires_at is None
            && final(e).updated_at == now && final(e).attempts == old(e).attempts
            && final(e).max_attempts == old(e).max_attempts && final(e).id == old(e).id
            && final(e).created_at == old(e).created_at,
        !holds_claim(*old(e), token) ==> (r matches Err(OutboxError::ConflictError(m)) && m@
            == "outbox claim is no longer current"@) && *final(e) == *old(e),
{
    if !(e.status == OutboxStatus::Processing && e.claim_token == Some(token)) {
        return Err(OutboxError::ConflictError(string_from_str("outbox claim is no longer current")));
    }
    e.status = if e.attempts >= e.max_attempts {
        OutboxStatus::DeadLetter
    } else {
        OutboxStatus::Failed
    };
    e.last_error = Some(string_from_str(error));
    e.next_attempt_at = next;
    e.claim_token = None;
    e.lease_expires_at = None;
    e.updated_at = now;
    Ok(())
}

/// Puts a dead-letter event back in the queue, due at `now`, with its attempts, error,
/// claim and lease cleared. Any other event is refused and left as it was.
pub fn replay_dead_letter(e: &mut OutboxEvent, now: i64) -> (r: Result<(), OutboxError>)
    ensures
        old(e).status == OutboxStatus::DeadLetter ==> r is Ok && *final(e) == (OutboxEvent {
            status: OutboxStatus::Pending,
            attempts: 0,
            next_attempt_at: now,
            last_error: None,
            claim_token: None,
            lease_expires_at: None,
            updated_at: now,
            ..*old(e)
        }),
        old(e).status != OutboxStatus::DeadLetter ==> (r matches Err(OutboxError::ConflictError(m))
            && m@ == "outbox event is not in dead-letter state"@) && *final(e) == *old(e),
{
    if e.status != OutboxStatus::DeadLetter {
        return Err(
            OutboxError::ConflictError(string_from_str("outbox event is not in dead-letter state")),
        );
    }
    e.status = OutboxStatus::Pending;
    e.attempts = 0;
    e.next_attempt_at = now;
    e.last_error = None;
    e.claim_token = None;
    e.lease_expires_at = None;
    e.updated_at = now;
    Ok(())
}

fn is_claimable(e: &OutboxEvent, now: i64) -> (r: bool)
    ensures
        r == claimable(*e, now),
{
    let over = e.status == OutboxStatus::Processing && match e.lease_expires_at {
        Some(l) => l <= now,
        None => false,
    };
    e.attempts < e.max_attempts && (((e.status == OutboxStatus::Pending || e.status
        == OutboxStatus::Failed) && e.next_attempt_at <= now) || over)
}

/// The number of events among the first `n` of `s` that are claimable at `now`.
pub open spec fn count_claimable(s: Seq<OutboxEvent>, now: i64, n: int) -> int
    decreases n,
{
    if n <= 0 {
        0
    } else {
        count_claimable(s, now, n - 1) + if claimable(s[n - 1], now) {
            1int
        } else {
            0int
        }
    }
}

/// The events that a claim under `token` at `now` hands out, among the first `n` of
/// `s`: each claimable event, claimed, while fewer than `limit` came before it.
pub open spec fn claimed_prefix(
    s: Seq<OutboxEvent>,
    now: i64,
    limit: u32,
    token: u128,
    lease_until: i64,
    n: int,
) -> Seq<OutboxEvent>
    decreases n,
{
    if n <= 0 {
        Seq::empty()
    } else {
        let r = claimed_prefix(s, now, limit, token, lease_until, n - 1);
        if claimable(s[n - 1], now) && count_claimable(s, now, n - 1) < limit {
            r.push(claimed(s[n - 1], token, lease_until, now))
        } else {
            r
        }
    }
}

/// The outbox table, in the order in which its events were enqueued.
pub struct OutboxTable {
    pub events: Vec<OutboxEvent>,
}

/// Whether a stored event is the one that an enqueue request describes: the same type,
/// aggregate, payload and attempt limit.
pub open spec fn same_request(
    e: OutboxEvent,
    event_type: Seq<char>,
    aggregate_type: Seq<char>,
    aggregate_id: Seq<char>,
    payload: Seq<char>,
    max_attempts: u32,
) -> bool {
    e.event_type@ == event_type && e.aggregate_type@ == aggregate_type && e.aggregate_id@
        == aggregate_id && e.payload@ == payload && e.max_attempts == max_attempts
}

/// Whether some event of `events` carries the idempotency key `key`.
pub open spec fn key_taken(events: Seq<OutboxEvent>, key: Seq<char>) -> bool {
    exists|i: int| 0 <= i < events.len() && (#[trigger] events[i]).idempotency_key@ == key
}

/// Whether no two events share an idempotency key.
pub open spec fn keys_unique(events: Seq<OutboxEvent>) -> bool {
    forall|i: int, j: int|
        0 <= i < j < events.len() ==> (#[trigger] events[i]).idempotency_key@ != (
        #[trigger] events[j]).idempotency_key@
}

impl OutboxTable {
    /// Adds a new pending event at the end of the table. The attempt limit must be at
    /// least one, and the idempotency key must be new to the table (the store refuses
    /// a second event with the same key).
    pub fn enqueue(
        &mut self,
        id: u128,
        event_type: String,
        aggregate_type: String,
        aggregate_id: String,
        payload: String,
        idempotency_key: String,
        max_attempts: u32,
        now: i64,
    ) -> (r: Result<OutboxEvent, OutboxError>)
        ensures
            max_attempts == 0 ==> (r matches Err(OutboxError::ValidationError(_)))
                && final(self).events@ == old(self).events@,
            max_attempts > 0 && key_taken(old(self).events@, idempotency_key@) ==> (r matches Err(
                OutboxError::DatabaseError(m),
            ) && m@ == "UNIQUE constraint failed: outbox_events.idempotency_key"@)
                && final(self).events@ == old(self).events@,
            max_attempts > 0 && !key_taken(old(self).events@, idempotency_key@) ==> (r matches Ok(
                e,
            ) && final(self).events@ == old(self).events@.push(e) && e.id == id && e.status
                == OutboxStatus::Pending && e.attempts == 0 && e.max_attempts == max_attempts
                && e.next_attempt_at == now && e.created_at == now && e.idempotency_key
                == idempotency_key && e.event_type == event_type && e.aggregate_type
                == aggregate_type && e.aggregate_id == aggregate_id && e.payload == payload
                && e.updated_at == now && e.last_error is None && e.claim_token is None
                && e.lease_expires_at is None && event_wf(e)),
            (forall|i: int| 0 <= i < old(self).events@.len() ==> event_wf(#[trigger] old(self).events@[i]))
                ==> forall|i: int| 0 <= i < final(self).events@.len() ==> event_wf(#[trigger] final(self).events@[i]),
            keys_unique(old(self).events@) ==> keys_unique(final(self).events@),
    {
        match check_max_attempts(max_attempts) {
            Ok(()) => {},
            Err(e) => {
                return Err(e);
            },
        }
        let mut i: usize = 0;
        while i < self.events.len()
            invariant
                max_attempts > 0,
                self.events@ == old(self).events@,
                i <= self.events@.len(),
                forall|j: int| 0 <= j < i ==> (#[trigger] self.events@[j]).idempotency_key@
                    != idempotency_key@,
            decreases self.events@.len() - i,
        {
            if str_equals(self.events[i].idempotency_key.as_str(), idempotency_key.as_str()) {
                return Err(
                    OutboxError::DatabaseError(
                        string_from_str("UNIQUE constraint failed: outbox_events.idempotency_key"),
                    ),
                );
            }
            i = i + 1;
        }
        let e = match new_event(
            id,
            event_type,
            aggregate_type,
            aggregate_id,
            payload,
            idempotency_key,
            max_attempts,
            now,
        ) {
            Ok(e) => e,
            Err(err) => {
                return Err(err);
            },
        };
        let copy = e.clone_event();
        let ghost before = self.events@;
        let ghost added = e;
        self.events.push(e);
        assert forall|k: int|
            (forall|j: int| 0 <= j < before.len() ==> event_wf(#[trigger] before[j])) && 0 <= k
                < self.events@.len() implies event_wf(#[trigger] self.events@[k]) by {
            if k < before.len() {
                assert(self.events@[k] == before[k]);
            } else {
                assert(self.events@[k] == added);
            }
        }
        assert forall|a: int, b: int|
            keys_unique(before) && 0 <= a < b < self.events@.len() implies (
            #[trigger] self.events@[a]).idempotency_key@ != (
            #[trigger] self.events@[b]).idempotency_key@ by {
            if b == before.len() {
                assert(self.events@[a] == before[a]);
            } else {
                assert(self.events@[a] == before[a]);
                assert(self.events@[b] == before[b]);
            }
        }
        Ok(copy)
    }

    /// Adds a new pending event unless its idempotency key is already taken. An event
    /// already stored under the key is handed back where it carries the same type,
    /// aggregate, payload and attempt limit (compared as stored, the payload as JSON
    /// text); any other stored event under the key is a conflict. The table is left as
    /// it was in both cases.
    pub fn enqueue_idempotent(
        &mut self,
        id: u128,
        event_type: String,
        aggregate_type: String,
        aggregate_id: String,
        payload: String,
        idempotency_key: String,
        max_attempts: u32,
        now: i64,
    ) -> (r: Result<OutboxEvent, OutboxError>)
        requires
            keys_unique(old(self).events@),
        ensures
            keys_unique(final(self).events@),
            max_attempts == 0 ==> (r matches Err(OutboxError::ValidationError(_)))
                && final(self).events@ == old(self).events@,
            max_attempts > 0 && !key_taken(old(self).events@, idempotency_key@) ==> (r matches Ok(
                e,
            ) && final(self).events@ == old(self).events@.push(e) && e.id == id && e.status
                == OutboxStatus::Pending && e.attempts == 0 && e.max_attempts == max_attempts
                && e.next_attempt_at == now && e.created_at == now && e.idempotency_key
                == idempotency_key && e.event_type == event_type && e.aggregate_type
                == aggregate_type && e.aggregate_id == aggregate_id && e.payload == payload
                && e.updated_at == now && e.last_error is None && e.claim_token is None
                && e.lease_expires_at is None && event_wf(e)),
            (forall|i: int| 0 <= i < old(self).events@.len() ==> event_wf(#[trigger] old(self).events@[i]))
                ==> forall|i: int| 0 <= i < final(self).events@.len() ==> event_wf(#[trigger] final(self).events@[i]),
            forall|i: int|
                0 <= i < old(self).events@.len() && max_attempts > 0 && (#[trigger] old(
                    self,
                ).events@[i]).idempotency_key@ == idempotency_key@ ==> final(self).events@
                    == old(self).events@ && (if same_request(
                    old(self).events@[i],
                    event_type@,
                    aggregate_type@,
                    aggregate_id@,
                    payload@,
                    max_attempts,
                ) {
                    r == Ok::<OutboxEvent, OutboxError>(old(self).events@[i])
                } else {
                    r matches Err(OutboxError::ConflictError(m)) && m@
                        == "outbox idempotency key conflicts with another event"@
                }),
    {
        match check_max_attempts(max_attempts) {
            Ok(()) => {},
            Err(e) => {
                return Err(e);
            },
        }
        let mut i: usize = 0;
        while i < self.events.len()
            invariant
                max_attempts > 0,
                self.events@ == old(self).events@,
                keys_unique(self.events@),
                i <= self.events@.len(),
                forall|j: int| 0 <= j < i ==> (#[trigger] self.events@[j]).idempotency_key@
                    != idempotency_key@,
            decreases self.events@.len() - i,
        {
            if str_equals(self.events[i].idempotency_key.as_str(), idempotency_key.as_str()) {
                let stored = &self.events[i];
                let same = str_equals(stored.event_type.as_str(), event_type.as_str()) && str_equals(
                    stored.aggregate_type.as_str(),
                    aggregate_type.as_str(),
                ) && str_equals(stored.aggregate_id.as_str(), aggregate_id.as_str()) && str_equals(
                    stored.payload.as_str(),
                    payload.as_str(),
                ) && stored.max_attempts == max_attempts;
                proof {
                    assert forall|k: int|
                        0 <= k < self.events@.len() && (#[trigger] self.events@[k]).idempotency_key@
                            == idempotency_key@ implies k == i by {
                        if k != i {
                            if k < i {
                                assert(self.events@[k].idempotency_key@ != idempotency_key@);
                            } else {
                                assert(self.events@[i as int].idempotency_key@ != self.events@[k].idempotency_key@);
                            }
                        }
                    }
                }
                if same {
                    return Ok(stored.clone_event());
                }
                return Err(
                    OutboxError::ConflictError(
                        string_from_str("outbox idempotency key conflicts with another event"),
                    ),
                );
            }
            i = i + 1;
        }
        self.enqueue(
            id,
            event_type,
            aggregate_type,
            aggregate_id,
            payload,
            idempotency_key,
            max_attempts,
            now,
        )
    }

    /// Claims, under `token` and a lease of `lease_ms`, the first `limit` events (in
    /// enqueue order) that are claimable at `now`, after moving every event whose lease
    /// ran out on its last attempt to the dead-letter state (with the error
    /// `CLAIM_LEASE_EXPIRED`). Returns copies of the claimed events.
    pub fn claim_due(&mut self, limit: u32, now: i64, lease_ms: i64, token: u128) -> (r: Result<
        Vec<OutboxEvent>,
        OutboxError,
    >)
        requires
            now + lease_ms <= i64::MAX,
            forall|i: int| 0 <= i < old(self).events@.len() ==> event_wf(#[trigger] old(self).events@[i]),
        ensures
            lease_ms <= 0 ==> (r matches Err(OutboxError::ValidationError(_))) && final(self).events@
                == old(self).events@,
            lease_ms > 0 ==> r is Ok,
            final(self).events@.len() == old(self).events@.len(),
            forall|i: int| 0 <= i < final(self).events@.len() ==> event_wf(#[trigger] final(self).events@[i]),
            lease_ms > 0 ==> forall|i: int|
                0 <= i < old(self).events@.len() ==> {
                    let before = #[trigger] old(self).events@[i];
                    let after = final(self).events@[i];
                    if exhausted(before, now) {
                        dead_lettered(before, after, now)
                    } else if claimable(before, now) && count_claimable(old(self).events@, now, i) < limit {
                        after == claimed(before, token, (now + lease_ms) as i64, now)
                    } else {
                        after == before
                    }
                },
            forall|i: int|
                0 <= i < final(self).events@.len() ==> (#[trigger] final(self).events@[i]).id
                    == old(self).events@[i].id && final(self).events@[i].idempotency_key
                    == old(self).events@[i].idempotency_key,
            keys_unique(old(self).events@) ==> keys_unique(final(self).events@),
            r matches Ok(v) ==> v@ == claimed_prefix(
                old(self).events@,
                now,
                limit,
                token,
                (now + lease_ms) as i64,
                old(self).events@.len() as int,
            ),
            r matches Ok(v) ==> (v@.len() <= limit && forall|k: int|
                0 <= k < v@.len() ==> holds_claim(#[trigger] v@[k], token)),
    {
        match check_lease(lease_ms) {
            Ok(()) => {},
            Err(e) => {
                return Err(e);
            },
        }
        let lease_until = now + lease_ms;
        let ghost orig = self.events@;
        let mut out: Vec<OutboxEvent> = Vec::new();
        let mut taken: u32 = 0;
        let mut i: usize = 0;
        while i < self.events.len()
            invariant
                0 < lease_ms,
                lease_until == now + lease_ms,
                self.events@.len() == orig.len(),
                i <= orig.len(),
                taken as int == count_claimable(orig, now, i as int) || (taken == limit
                    && count_claimable(orig, now, i as int) >= limit),
                taken <= limit,
                out@.len() == taken,
                out@ == claimed_prefix(orig, now, limit, token, lease_until, i as int),
                forall|k: int| 0 <= k < out@.len() ==> holds_claim(#[trigger] out@[k], token),
                forall|j: int| 0 <= j < orig.len() ==> event_wf(#[trigger] orig[j]),
                forall|j: int| i <= j < orig.len() ==> self.events@[j] == orig[j],
                forall|j: int| 0 <= j < self.events@.len() ==> event_wf(#[trigger] self.events@[j]),
                forall|j: int|
                    0 <= j < i ==> {
                        let before = #[trigger] orig[j];
                        let after = self.events@[j];
                        if exhausted(before, now) {
                            dead_lettered(before, after, now)
                        } else if claimable(before, now) && count_claimable(orig, now, j) < limit {
                            after == claimed(before, token, lease_until, now)
                        } else {
                            after == before
                        }
                    },
            decreases orig.len() - i,
        {
            let mut e = self.events[i].clone_event();
            let ghost before = orig[i as int];
            assert(e == before);
            let expired_now = e.status == OutboxStatus::Processing && e.attempts >= e.max_attempts
                && match e.lease_expires_at {
                Some(l) => l <= now,
                None => false,
            };
            if expired_now {
                e.status = OutboxStatus::DeadLetter;
                e.claim_token = None;
                e.lease_expires_at = None;
                e.last_error = Some(string_from_str("CLAIM_LEASE_EXPIRED"));
                e.updated_at = now;
                self.events.set(i, e);
            } else if is_claimable(&e, now) {
                if taken < limit {
                    e.status = OutboxStatus::Processing;
                    e.attempts = e.attempts + 1;
                    e.claim_token = Some(token);
                    e.lease_expires_at = Some(lease_until);
                    e.updated_at = now;
                    let copy = e.clone_event();
                    self.events.set(i, e);
                    out.push(copy);
                    taken = taken + 1;
                }
            }
            i = i + 1;
        }
        proof {
            assert forall|a: int, b: int|
                keys_unique(orig) && 0 <= a < b < self.events@.len() implies (
                #[trigger] self.events@[a]).idempotency_key@ != (
                #[trigger] self.events@[b]).idempotency_key@ by {
                assert(self.events@[a].idempotency_key == orig[a].idempotency_key);
                assert(self.events@[b].idempotency_key == orig[b].idempotency_key);
            }
        }
        Ok(out)
    }
}

impl OutboxEvent {
    /// A copy of the event.
    pub fn clone_event(&self) -> (r: Self)
        ensures
            r == *self,
    {
        OutboxEvent {
            id: self.id,
            event_type: self.event_type.clone(),
            aggregate_type: self.aggregate_type.clone(),
            aggregate_id: self.aggregate_id.clone(),
            payload: self.payload.clone(),
            idempotency_key: self.idempotency_key.clone(),
            status: self.status,
            attempts: self.attempts,
            max_attempts: self.max_attempts,
            next_attempt_at: self.next_attempt_at,
            last_error: match &self.last_error {
                Some(m) => Some(m.clone()),
                None => None,
            },
            claim_token: self.claim_token,
            lease_expires_at: self.lease_expires_at,
            created_at: self.created_at,
            updated_at: self.updated_at,
        }
    }
}

// ---------------------------------------------------------------------------
// Laws of delivery
// ---------------------------------------------------------------------------

/// A claim never takes an event past its attempt limit, and a claimed event is sound.
pub proof fn law_claim_keeps_attempts_bounded(e: OutboxEvent, token: u128, lease_until: i64, now: i64)
    requires
        event_wf(e),
        claimable(e, now),
    ensures
        event_wf(claimed(e, token, lease_until, now)),
        claimed(e, token, lease_until, now).attempts == e.attempts + 1,
{
}

/// A claimed event cannot be claimed again until its lease runs out.
pub proof fn law_claim_is_exclusive_until_lease_ends(
    e: OutboxEvent,
    token: u128,
    lease_until: i64,
    now: i64,
    later: i64,
)
    requires
        later < lease_until,
    ensures
        !claimable(claimed(e, token, lease_until, now), later),
{
}

/// Delivered events are never claimed again, and neither are dead-letter events.
pub proof fn law_settled_events_stay_settled(e: OutboxEvent, now: i64)
    requires
        e.status == OutboxStatus::Delivered || e.status == OutboxStatus::DeadLetter,
    ensures
        !claimable(e, now),
{
}

/// Once a claim has passed to another token, the earlier holder can neither deliver nor
/// fail the event.
pub proof fn law_stale_claims_are_fenced(
    e: OutboxEvent,
    first: u128,
    second: u128,
    lease_until: i64,
    now: i64,
)
    requires
        first != second,
    ensures
        !holds_claim(claimed(e, second, lease_until, now), first),
        holds_claim(claimed(e, second, lease_until, now), second),
{
}

/// A replayed dead-letter event is due again at once with all its attempts.
pub proof fn law_replay_makes_due(e: OutboxEvent, now: i64)
    requires
        e.max_attempts >= 1,
    ensures
        claimable(
            OutboxEvent {
                status: OutboxStatus::Pending,
                attempts: 0,
                next_attempt_at: now,
                last_error: None,
                claim_token: None,
                lease_expires_at: None,
                updated_at: now,
                ..e
            },
            now,
        ),
{
}

} // verus!
