//! Properties that relate several operations of the engine.

use vstd::prelude::*;
use crate::model::{
    Role, is_open_status, pending_transaction, EngineError, Id, ParkingHistory, TicketStatus, Timestamp, TransactionCallback,
    TransactionHistory,
};
use crate::fare::{billed_hours, fare_of, forecast_of};
use crate::settlement::{closed_session, coalesce, merged};
use crate::store::{
    updated_session, UpdateParkingHistory, callback_target, has_open_session, has_transaction, issue_check, issued_session, lemma_reconciled_wf,
    has_user, lemma_renamed_wf, lemma_transaction_index, user_by_id, reconciled, rename_error, renamed, transaction_index,
    CreateParkingHistoryPayload, StoreView,
};

verus! {

/// Once a ticket has been issued to a patron, every further attempt to issue
/// one to the same patron fails with `ConflictAlreadyIssued`, whoever the
/// keeper, lot or vehicle; failed attempts change nothing, so of any number
/// of attempts served one after another, exactly the first that passes the
/// checks succeeds until the ticket is settled.
pub proof fn law_one_open_ticket_per_patron(
    v: StoreView,
    first: CreateParkingHistoryPayload,
    session_id: Id,
    transaction_id: Id,
    now: Timestamp,
    next: CreateParkingHistoryPayload,
    next_session_id: Id,
    next_transaction_id: Id,
)
    requires
        v.wf(),
        issue_check(v, first, session_id, transaction_id) is None,
        next.easypark_id == first.easypark_id,
    ensures
        ({
            let after = v.record(
                issued_session(v, first, session_id, transaction_id, now),
                pending_transaction(transaction_id),
            );
            &&& has_open_session(after.sessions, first.easypark_id)
            &&& issue_check(after, next, next_session_id, next_transaction_id)
                == Some(EngineError::ConflictAlreadyIssued)
        }),
{
    let s = issued_session(v, first, session_id, transaction_id, now);
    let after = v.record(s, pending_transaction(transaction_id));
    let n = v.sessions.len() as int;
    assert(after.sessions[n] == s);
    assert(is_open_status(after.sessions[n].ticket_status));
    assert(after.users == v.users);
}

/// Outcomes of issuance attempts served one after another, each on the
/// store the attempts before it left; `None` is a success. An attempt is a
/// request with the session and transaction identifiers drawn for it.
pub open spec fn serve_attempts(
    v: StoreView,
    attempts: Seq<(CreateParkingHistoryPayload, Id, Id)>,
    now: Timestamp,
) -> Seq<Option<EngineError>>
    decreases attempts.len(),
{
    if attempts.len() == 0 {
        Seq::empty()
    } else {
        let a = attempts[0];
        let e = issue_check(v, a.0, a.1, a.2);
        let next = if e is None {
            v.record(issued_session(v, a.0, a.1, a.2, now), pending_transaction(a.2))
        } else {
            v
        };
        seq![e] + serve_attempts(next, attempts.drop_first(), now)
    }
}

proof fn lemma_all_conflict(
    w: StoreView,
    rest: Seq<(CreateParkingHistoryPayload, Id, Id)>,
    patron: Id,
    now: Timestamp,
)
    requires
        has_user(w.users, patron),
        user_by_id(w.users, patron).role == Role::Easypark,
        has_open_session(w.sessions, patron),
        forall|k: int| 0 <= k < rest.len() ==> (#[trigger] rest[k]).0.easypark_id == patron,
    ensures
        serve_attempts(w, rest, now).len() == rest.len(),
        forall|k: int| 0 <= k < rest.len()
            ==> #[trigger] serve_attempts(w, rest, now)[k] == Some(EngineError::ConflictAlreadyIssued),
    decreases rest.len(),
{
    if rest.len() > 0 {
        assert(rest[0].0.easypark_id == patron);
        let tail = rest.drop_first();
        assert forall|k: int| 0 <= k < tail.len() implies (#[trigger] tail[k]).0.easypark_id == patron by {
            assert(tail[k] == rest[k + 1]);
        }
        lemma_all_conflict(w, tail, patron, now);
        let out = serve_attempts(w, rest, now);
        assert forall|k: int| 0 <= k < rest.len() implies #[trigger] out[k] == Some(EngineError::ConflictAlreadyIssued) by {
            if k > 0 {
                assert(out[k] == serve_attempts(w, tail, now)[k - 1]);
            }
        }
    }
}

/// Of any number of attempts to issue a ticket to one patron, served one
/// after another as the store's exclusive access serves them, exactly one
/// succeeds when the first is valid: the first, and every other one fails
/// with `ConflictAlreadyIssued`.
pub proof fn law_exactly_one_issuance(
    v: StoreView,
    attempts: Seq<(CreateParkingHistoryPayload, Id, Id)>,
    now: Timestamp,
)
    requires
        v.wf(),
        attempts.len() >= 1,
        issue_check(v, attempts[0].0, attempts[0].1, attempts[0].2) is None,
        forall|k: int| 0 <= k < attempts.len() ==> (#[trigger] attempts[k]).0.easypark_id == attempts[0].0.easypark_id,
    ensures
        serve_attempts(v, attempts, now).len() == attempts.len(),
        serve_attempts(v, attempts, now)[0] is None,
        forall|k: int| 1 <= k < attempts.len()
            ==> #[trigger] serve_attempts(v, attempts, now)[k] == Some(EngineError::ConflictAlreadyIssued),
{
    let a = attempts[0];
    let patron = a.0.easypark_id;
    let w = v.record(issued_session(v, a.0, a.1, a.2, now), pending_transaction(a.2));
    law_one_open_ticket_per_patron(v, a.0, a.1, a.2, now, a.0, a.1, a.2);
    assert(w.users == v.users);
    let tail = attempts.drop_first();
    assert forall|k: int| 0 <= k < tail.len() implies (#[trigger] tail[k]).0.easypark_id == patron by {
        assert(tail[k] == attempts[k + 1]);
    }
    lemma_all_conflict(w, tail, patron, now);
    let out = serve_attempts(v, attempts, now);
    assert(out == seq![None::<EngineError>] + serve_attempts(w, tail, now));
    assert forall|k: int| 1 <= k < attempts.len() implies #[trigger] out[k] == Some(EngineError::ConflictAlreadyIssued) by {
        assert(out[k] == serve_attempts(w, tail, now)[k - 1]);
    }
}

/// Replaying a settlement callback, at any later time, leaves the store as
/// the first delivery left it.
pub proof fn law_reconcile_idempotent(v: StoreView, cb: TransactionCallback, first: Timestamp, replay: Timestamp)
    requires
        v.wf(),
    ensures
        reconciled(reconciled(v, cb, first), cb, replay) == reconciled(v, cb, first),
{
    let once = reconciled(v, cb, first);
    lemma_reconciled_wf(v, cb, first);
    if let Some(i) = callback_target(v, cb) {
        let id = cb.order_id->0;
        assert(once.transactions[i].id == id);
        lemma_transaction_index(once.transactions, i);
        assert(callback_target(once, cb) == Some(i));
        let twice = reconciled(once, cb, replay);
        assert(merged(merged(v.transactions[i], cb), cb) == merged(v.transactions[i], cb));
        assert(closed_session(closed_session(v.sessions[i], first), replay) == closed_session(v.sessions[i], first));
        assert(twice.sessions =~= once.sessions);
        assert(twice.transactions =~= once.transactions);
    }
}

/// After a successful rename of `from` to a different `to`, no session
/// refers to `from` and no transaction carries it, while the renamed
/// transaction and its session are both found under `to`.
pub proof fn law_rename_retires_old_id(v: StoreView, from: Id, to: Id)
    requires
        v.wf(),
        rename_error(v, from, to) is None,
        from != to,
    ensures
        ({
            let after = renamed(v, from, to);
            &&& after.wf()
            &&& forall|i: int| 0 <= i < after.sessions.len() ==> (#[trigger] after.sessions[i]).transaction_id != from
            &&& !has_transaction(after.transactions, from)
            &&& has_transaction(after.transactions, to)
            &&& after.sessions[transaction_index(after.transactions, to)].transaction_id == to
        }),
{
    let after = renamed(v, from, to);
    lemma_renamed_wf(v, from, to);
    if has_transaction(v.transactions, from) {
        let i = transaction_index(v.transactions, from);
        assert(after.transactions[i].id == to);
        lemma_transaction_index(after.transactions, i);
        assert forall|k: int| 0 <= k < after.transactions.len() implies after.transactions[k].id != from by {
            if k != i {
                assert(v.transactions[k].id != v.transactions[i].id);
            }
        }
    } else {
        let j = transaction_index(v.transactions, to);
        lemma_transaction_index(v.transactions, j);
    }
    assert forall|k: int| 0 <= k < after.sessions.len() implies (#[trigger] after.sessions[k]).transaction_id != from by {
        assert(after.sessions[k].transaction_id == after.transactions[k].id);
    }
}

/// A callback that carries only a transaction status changes that field of
/// a stored transaction and no other.
pub proof fn law_status_only_callback(t: TransactionHistory, cb: TransactionCallback)
    requires
        cb.transaction_status is Some,
        cb.transaction_time is None,
        cb.transaction_id is None,
        cb.status_message is None,
        cb.status_code is None,
        cb.signature_key is None,
        cb.settlement_time is None,
        cb.payment_type is None,
        cb.order_id is None,
        cb.merchant_id is None,
        cb.gross_amount is None,
        cb.fraud_status is None,
        cb.currency is None,
    ensures
        merged(t, cb) == (TransactionHistory { transaction_status: cb.transaction_status, ..t }),
{
}

/// Settling with a callback that carries only its order id and a status
/// keeps every other stored field of the matched transaction; the order id
/// is recorded.
pub proof fn law_status_only_settlement(v: StoreView, cb: TransactionCallback, now: Timestamp)
    requires
        v.wf(),
        cb.transaction_time is None,
        cb.transaction_id is None,
        cb.status_message is None,
        cb.status_code is None,
        cb.signature_key is None,
        cb.settlement_time is None,
        cb.payment_type is None,
        cb.merchant_id is None,
        cb.gross_amount is None,
        cb.fraud_status is None,
        cb.currency is None,
        callback_target(v, cb) is Some,
    ensures
        ({
            let i = callback_target(v, cb)->0;
            let t = v.transactions[i];
            reconciled(v, cb, now).transactions[i] == (TransactionHistory {
                transaction_status: coalesce(cb.transaction_status, t.transaction_status),
                order_id: cb.order_id,
                ..t
            })
        }),
{
}

/// Settlement never reopens a ticket and never changes which transaction a
/// session is linked to: every session keeps its identifier and its
/// transaction identifier, and a closed one stays closed.
pub proof fn law_settlement_keeps_links(v: StoreView, cb: TransactionCallback, now: Timestamp)
    requires
        v.wf(),
    ensures
        reconciled(v, cb, now).sessions.len() == v.sessions.len(),
        forall|i: int| 0 <= i < v.sessions.len() ==> {
            let after = #[trigger] reconciled(v, cb, now).sessions[i];
            &&& after.id == v.sessions[i].id
            &&& after.transaction_id == v.sessions[i].transaction_id
            &&& (v.sessions[i].ticket_status == TicketStatus::NotActive ==> after == v.sessions[i])
        },
{
    if let Some(j) = callback_target(v, cb) {
        assert(0 <= j < v.transactions.len());
    }
}

/// A partial update of a session never changes its status, its transaction
/// link, its amount or its check-in and check-out times.
pub proof fn law_update_keeps_lifecycle(s: ParkingHistory, p: UpdateParkingHistory, now: Timestamp)
    ensures
        updated_session(s, p, now).id == s.id,
        updated_session(s, p, now).ticket_status == s.ticket_status,
        updated_session(s, p, now).transaction_id == s.transaction_id,
        updated_session(s, p, now).amount == s.amount,
        updated_session(s, p, now).check_in_date == s.check_in_date,
        updated_session(s, p, now).check_out_date == s.check_out_date,
{
}

/// The fare a session owes never decreases as the time of the query
/// advances.
pub proof fn law_forecast_monotone(s: ParkingHistory, earlier: Timestamp, later: Timestamp)
    requires
        s.check_in_date is Some,
        earlier <= later,
    ensures
        forecast_of(s, earlier)->0 <= forecast_of(s, later)->0,
{
    let c = s.check_in_date->0;
    let a = billed_hours(earlier - c);
    let b = billed_hours(later - c);
    assert(a <= b);
    assert(a * s.amount <= b * s.amount) by (nonlinear_arith)
        requires
            a <= b,
            s.amount >= 0,
    ;
    assert(fare_of(s.amount, c, earlier) == a * s.amount);
    assert(fare_of(s.amount, c, later) == b * s.amount);
    assert(0 <= a * s.amount) by (nonlinear_arith)
        requires
            a >= 1,
            s.amount >= 0,
    ;
    assert(b * s.amount <= u128::MAX) by (nonlinear_arith)
        requires
            b <= 0x1_0000_0000_0000_0000int,
            s.amount <= u64::MAX,
    ;
}

} // verus!
