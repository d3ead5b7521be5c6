use vstd::prelude::*;
use crate::model::{ParkingHistory, TicketStatus, Timestamp, TransactionCallback, TransactionHistory};

verus! {

/// The value a field takes under an apply-if-present update.
pub open spec fn coalesce<T>(update: Option<T>, stored: Option<T>) -> Option<T> {
    if update is Some {
        update
    } else {
        stored
    }
}

/// A stored transaction after a callback's present fields were applied; its
/// identifier is kept.
pub open spec fn merged(t: TransactionHistory, cb: TransactionCallback) -> TransactionHistory {
    TransactionHistory {
        id: t.id,
        transaction_time: coalesce(cb.transaction_time, t.transaction_time),
        transaction_status: coalesce(cb.transaction_status, t.transaction_status),
        transaction_id: coalesce(cb.transaction_id, t.transaction_id),
        status_message: coalesce(cb.status_message, t.status_message),
        status_code: coalesce(cb.status_code, t.status_code),
        signature_key: coalesce(cb.signature_key, t.signature_key),
        settlement_time: coalesce(cb.settlement_time, t.settlement_time),
        payment_type: coalesce(cb.payment_type, t.payment_type),
        order_id: coalesce(cb.order_id, t.order_id),
        merchant_id: coalesce(cb.merchant_id, t.merchant_id),
        gross_amount: coalesce(cb.gross_amount, t.gross_amount),
        fraud_status: coalesce(cb.fraud_status, t.fraud_status),
        currency: coalesce(cb.currency, t.currency),
    }
}

/// A session after settlement: an open one is closed and stamped with the
/// check-out time `now`; a closed one is left as it is.
pub open spec fn closed_session(s: ParkingHistory, now: Timestamp) -> ParkingHistory {
    if s.ticket_status == TicketStatus::NotActive {
        s
    } else {
        ParkingHistory { ticket_status: TicketStatus::NotActive, check_out_date: Some(now), ..s }
    }
}

fn coalesce_text(update: Option<String>, stored: &Option<String>) -> (r: Option<String>)
    ensures
        r == coalesce(update, *stored),
{
    match update {
        Some(v) => Some(v),
        None => crate::model::copy_text(stored),
    }
}

/// Applies the fields that `cb` carries to `t`, keeping every other stored
/// value.
pub fn merge_callback(t: &TransactionHistory, cb: TransactionCallback) -> (r: TransactionHistory)
    ensures
        r == merged(*t, cb),
{
    let order_id = match cb.order_id {
        Some(o) => Some(o),
        None => t.order_id,
    };
    TransactionHistory {
        id: t.id,
        transaction_time: coalesce_text(cb.transaction_time, &t.transaction_time),
        transaction_status: coalesce_text(cb.transaction_status, &t.transaction_status),
        transaction_id: coalesce_text(cb.transaction_id, &t.transaction_id),
        status_message: coalesce_text(cb.status_message, &t.status_message),
        status_code: coalesce_text(cb.status_code, &t.status_code),
        signature_key: coalesce_text(cb.signature_key, &t.signature_key),
        settlement_time: coalesce_text(cb.settlement_time, &t.settlement_time),
        payment_type: coalesce_text(cb.payment_type, &t.payment_type),
        order_id,
        merchant_id: coalesce_text(cb.merchant_id, &t.merchant_id),
        gross_amount: coalesce_text(cb.gross_amount, &t.gross_amount),
        fraud_status: coalesce_text(cb.fraud_status, &t.fraud_status),
        currency: coalesce_text(cb.currency, &t.currency),
    }
}

/// Closes an open session at `now`; a closed session is returned unchanged.
pub fn close_session(s: ParkingHistory, now: Timestamp) -> (r: ParkingHistory)
    ensures
        r == closed_session(s, now),
{
    match s.ticket_status {
        TicketStatus::NotActive => s,
        _ => ParkingHistory { ticket_status: TicketStatus::NotActive, check_out_date: Some(now), ..s },
    }
}

} // verus!
