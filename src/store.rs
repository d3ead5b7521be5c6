use vstd::prelude::*;
use crate::fare::{forecast_amount, forecast_of, initial_fare, rate_of};
use crate::platform::{fresh_id, now_seconds};
use crate::settlement::{close_session, closed_session, merge_callback, merged};
use crate::model::{
    is_open_status, pending_transaction, EngineError, Id, ParkingHistory, ParkingHistoryWithTotalAmount, ParkingLot, PaymentType,
    Role, TicketStatus, Timestamp, TransactionCallback, TransactionHistory, User, VehicleType,
};

verus! {

/// A request to open a ticket for a patron, made by a keeper of a lot.
#[derive(Clone, Copy, Debug, PartialEq, Eq)]
pub struct CreateParkingHistoryPayload {
    pub vehicle_type: VehicleType,
    pub payment: PaymentType,
    pub parking_lot_id: Id,
    pub easypark_id: Id,
    pub keeper_id: Id,
}

/// The contents of a store. `sessions[i]` and `transactions[i]` belong
/// together: the session's `transaction_id` is the transaction's `id`.
pub struct StoreView {
    pub users: Seq<User>,
    pub lots: Seq<ParkingLot>,
    pub sessions: Seq<ParkingHistory>,
    pub transactions: Seq<TransactionHistory>,
}

pub open spec fn has_user(s: Seq<User>, id: Id) -> bool {
    exists|i: int| 0 <= i < s.len() && s[i].id == id
}

pub open spec fn user_by_id(s: Seq<User>, id: Id) -> User {
    s[choose|i: int| 0 <= i < s.len() && s[i].id == id]
}

pub open spec fn has_lot(s: Seq<ParkingLot>, id: Id) -> bool {
    exists|i: int| 0 <= i < s.len() && s[i].id == id
}

pub open spec fn lot_by_id(s: Seq<ParkingLot>, id: Id) -> ParkingLot {
    s[choose|i: int| 0 <= i < s.len() && s[i].id == id]
}

pub open spec fn has_session(s: Seq<ParkingHistory>, id: Id) -> bool {
    exists|i: int| 0 <= i < s.len() && s[i].id == id
}

pub open spec fn session_index(s: Seq<ParkingHistory>, id: Id) -> int {
    choose|i: int| 0 <= i < s.len() && s[i].id == id
}

pub open spec fn has_transaction(s: Seq<TransactionHistory>, id: Id) -> bool {
    exists|i: int| 0 <= i < s.len() && s[i].id == id
}

pub open spec fn transaction_index(s: Seq<TransactionHistory>, id: Id) -> int {
    choose|i: int| 0 <= i < s.len() && s[i].id == id
}

/// Whether the patron holds a pending or active ticket.
pub open spec fn has_open_session(s: Seq<ParkingHistory>, patron: Id) -> bool {
    exists|i: int| 0 <= i < s.len() && s[i].easypark_id == patron && is_open_status(#[trigger] s[i].ticket_status)
}

impl StoreView {
    /// Every invariant of the store:
    /// identifiers are unique; the patron and lot of each session exist;
    /// session `i` refers to transaction `i`, so each session has exactly one
    /// transaction and each transaction one session; and no patron holds two
    /// open tickets.
    pub open spec fn wf(self) -> bool {
        &&& forall|i: int, j: int| 0 <= i < self.users.len() && 0 <= j < self.users.len() && i != j
            ==> self.users[i].id != self.users[j].id
        &&& forall|i: int, j: int| 0 <= i < self.lots.len() && 0 <= j < self.lots.len() && i != j
            ==> self.lots[i].id != self.lots[j].id
        &&& forall|i: int, j: int| 0 <= i < self.sessions.len() && 0 <= j < self.sessions.len() && i != j
            ==> self.sessions[i].id != self.sessions[j].id
        &&& forall|i: int, j: int| 0 <= i < self.transactions.len() && 0 <= j < self.transactions.len() && i != j
            ==> self.transactions[i].id != self.transactions[j].id
        &&& self.sessions.len() == self.transactions.len()
        &&& forall|i: int| 0 <= i < self.sessions.len()
            ==> #[trigger] self.sessions[i].transaction_id == self.transactions[i].id
        &&& forall|i: int| 0 <= i < self.sessions.len()
            ==> has_user(self.users, #[trigger] self.sessions[i].easypark_id)
                && has_lot(self.lots, self.sessions[i].parking_lot_id)
        &&& forall|i: int, j: int| 0 <= i < self.sessions.len() && 0 <= j < self.sessions.len() && i != j
            && self.sessions[i].easypark_id == self.sessions[j].easypark_id
            && is_open_status(self.sessions[i].ticket_status)
            ==> !is_open_status(self.sessions[j].ticket_status)
    }

    /// The store with one more session and its transaction.
    pub open spec fn record(self, s: ParkingHistory, t: TransactionHistory) -> StoreView {
        StoreView { sessions: self.sessions.push(s), transactions: self.transactions.push(t), ..self }
    }
}

/// The first reason, in the order the checks are made, for which a ticket
/// cannot be issued; `None` when it can.
pub open spec fn issue_check(v: StoreView, p: CreateParkingHistoryPayload, session_id: Id, transaction_id: Id) -> Option<EngineError> {
    if !has_user(v.users, p.easypark_id) {
        Some(EngineError::NotFound)
    } else if user_by_id(v.users, p.easypark_id).role != Role::Easypark {
        Some(EngineError::InvalidParticipant)
    } else if has_open_session(v.sessions, p.easypark_id) {
        Some(EngineError::ConflictAlreadyIssued)
    } else if !has_user(v.users, p.keeper_id) {
        Some(EngineError::NotFound)
    } else if user_by_id(v.users, p.keeper_id).role != Role::ParkKeeper {
        Some(EngineError::InvalidParticipant)
    } else if !has_lot(v.lots, p.parking_lot_id) {
        Some(EngineError::NotFound)
    } else if user_by_id(v.users, p.keeper_id).parking_lot_id != Some(p.parking_lot_id) {
        Some(EngineError::InvalidParticipant)
    } else if has_session(v.sessions, session_id) || has_transaction(v.transactions, transaction_id) {
        Some(EngineError::DuplicateId)
    } else {
        None
    }
}

/// The session that issuance creates: active, checked in at `now`, charged
/// the first hour, owned by the lot's owner.
pub open spec fn issued_session(v: StoreView, p: CreateParkingHistoryPayload, session_id: Id, transaction_id: Id, now: Timestamp) -> ParkingHistory {
    let lot = lot_by_id(v.lots, p.parking_lot_id);
    ParkingHistory {
        id: session_id,
        ticket_status: TicketStatus::Active,
        vehicle_type: p.vehicle_type,
        payment: p.payment,
        amount: rate_of(p.vehicle_type, lot),
        parking_lot_id: p.parking_lot_id,
        easypark_id: p.easypark_id,
        owner_id: lot.owner_id,
        keeper_id: p.keeper_id,
        transaction_id,
        created_at: Some(now),
        updated_at: None,
        check_in_date: Some(now),
        check_out_date: None,
    }
}

/// Position of the transaction a callback settles, if the callback names one
/// that exists.
pub open spec fn callback_target(v: StoreView, cb: TransactionCallback) -> Option<int> {
    match cb.order_id {
        Some(id) => if has_transaction(v.transactions, id) {
            Some(transaction_index(v.transactions, id))
        } else {
            None
        },
        None => None,
    }
}

/// The store after a callback: the matched transaction takes the fields the
/// callback carries and its session is closed; nothing else changes.
pub open spec fn reconciled(v: StoreView, cb: TransactionCallback, now: Timestamp) -> StoreView {
    match callback_target(v, cb) {
        Some(i) => StoreView {
            sessions: v.sessions.update(i, closed_session(v.sessions[i], now)),
            transactions: v.transactions.update(i, merged(v.transactions[i], cb)),
            ..v
        },
        None => v,
    }
}

/// Why renaming transaction `from` to `to` fails: `to` belongs to another
/// transaction, or neither identifier is known. Renaming to the same
/// identifier, or repeating a rename that was already made, succeeds.
pub open spec fn rename_error(v: StoreView, from: Id, to: Id) -> Option<EngineError> {
    if has_transaction(v.transactions, from) {
        if from != to && has_transaction(v.transactions, to) {
            Some(EngineError::DuplicateId)
        } else {
            None
        }
    } else if has_transaction(v.transactions, to) {
        None
    } else {
        Some(EngineError::UnknownTransaction)
    }
}

/// The store after renaming transaction `from` to `to`: the transaction's
/// identifier and its session's reference change together.
pub open spec fn renamed(v: StoreView, from: Id, to: Id) -> StoreView {
    if has_transaction(v.transactions, from) && from != to && !has_transaction(v.transactions, to) {
        let i = transaction_index(v.transactions, from);
        StoreView {
            sessions: v.sessions.update(i, ParkingHistory { transaction_id: to, ..v.sessions[i] }),
            transactions: v.transactions.update(i, TransactionHistory { id: to, ..v.transactions[i] }),
            ..v
        }
    } else {
        v
    }
}

/// A partial update of a session: each given field replaces the stored one.
/// The status, the transaction link, the amount and the check-in and
/// check-out times are not part of it: only issuance and settlement set
/// them.
#[derive(Clone, Copy, Debug, PartialEq, Eq)]
pub struct UpdateParkingHistory {
    pub vehicle_type: Option<VehicleType>,
    pub payment: Option<PaymentType>,
    pub parking_lot_id: Option<Id>,
    pub easypark_id: Option<Id>,
    pub keeper_id: Option<Id>,
    pub owner_id: Option<Id>,
}

/// The given value, else the stored one.
pub open spec fn pick<T>(update: Option<T>, stored: T) -> T {
    match update {
        Some(x) => x,
        None => stored,
    }
}

/// Whether account `id` exists and has role `role`: `None` if so, else the
/// error for a missing account or a wrong role.
pub open spec fn role_error(v: StoreView, id: Id, role: Role) -> Option<EngineError> {
    if !has_user(v.users, id) {
        Some(EngineError::NotFound)
    } else if user_by_id(v.users, id).role != role {
        Some(EngineError::InvalidParticipant)
    } else {
        None
    }
}

/// The first reason, in the order the checks are made, for which session
/// `id` cannot take update `p`: a given patron, keeper or owner that is
/// missing or has the wrong role, a given lot that is missing or is not the
/// given owner's, a missing session, or an open session moved to a patron
/// who already holds another open ticket.
pub open spec fn update_check(v: StoreView, id: Id, p: UpdateParkingHistory) -> Option<EngineError> {
    if p.easypark_id is Some && role_error(v, p.easypark_id->0, Role::Easypark) is Some {
        role_error(v, p.easypark_id->0, Role::Easypark)
    } else if p.keeper_id is Some && role_error(v, p.keeper_id->0, Role::ParkKeeper) is Some {
        role_error(v, p.keeper_id->0, Role::ParkKeeper)
    } else if p.owner_id is Some && role_error(v, p.owner_id->0, Role::ParkOwner) is Some {
        role_error(v, p.owner_id->0, Role::ParkOwner)
    } else if p.parking_lot_id is Some && !has_lot(v.lots, p.parking_lot_id->0) {
        Some(EngineError::NotFound)
    } else if p.parking_lot_id is Some && p.owner_id is Some
        && lot_by_id(v.lots, p.parking_lot_id->0).owner_id != p.owner_id->0 {
        Some(EngineError::InvalidParticipant)
    } else if !has_session(v.sessions, id) {
        Some(EngineError::NotFound)
    } else if ({
        let s = v.sessions[session_index(v.sessions, id)];
        let patron = pick(p.easypark_id, s.easypark_id);
        is_open_status(s.ticket_status) && patron != s.easypark_id && has_open_session(v.sessions, patron)
    }) {
        Some(EngineError::ConflictAlreadyIssued)
    } else {
        None
    }
}

/// A session after update `p` at time `now`.
pub open spec fn updated_session(s: ParkingHistory, p: UpdateParkingHistory, now: Timestamp) -> ParkingHistory {
    ParkingHistory {
        vehicle_type: pick(p.vehicle_type, s.vehicle_type),
        payment: pick(p.payment, s.payment),
        parking_lot_id: pick(p.parking_lot_id, s.parking_lot_id),
        easypark_id: pick(p.easypark_id, s.easypark_id),
        keeper_id: pick(p.keeper_id, s.keeper_id),
        owner_id: pick(p.owner_id, s.owner_id),
        updated_at: Some(now),
        ..s
    }
}

/// What issuing does: on success the new session and its pending
/// transaction are recorded and returned; on failure the first failed check
/// is reported and the store is unchanged.
pub open spec fn issue_outcome(
    before: StoreView,
    after: StoreView,
    p: CreateParkingHistoryPayload,
    session_id: Id,
    transaction_id: Id,
    now: Timestamp,
    r: Result<(ParkingHistory, TransactionHistory), EngineError>,
) -> bool {
    match r {
        Ok((s, t)) => {
            &&& issue_check(before, p, session_id, transaction_id) is None
            &&& s == issued_session(before, p, session_id, transaction_id, now)
            &&& t == pending_transaction(transaction_id)
            &&& after == before.record(s, t)
        },
        Err(e) => {
            &&& issue_check(before, p, session_id, transaction_id) == Some(e)
            &&& after == before
        },
    }
}

/// What reconciling does: the store becomes `reconciled`; on success the
/// settled session and transaction are returned, and a callback that names
/// no known transaction fails with `UnknownTransaction`.
pub open spec fn reconcile_outcome(
    before: StoreView,
    after: StoreView,
    cb: TransactionCallback,
    now: Timestamp,
    r: Result<(ParkingHistory, TransactionHistory), EngineError>,
) -> bool {
    &&& after == reconciled(before, cb, now)
    &&& match r {
        Ok((s, t)) => {
            let i = callback_target(before, cb)->0;
            &&& callback_target(before, cb) is Some
            &&& s == after.sessions[i]
            &&& t == after.transactions[i]
        },
        Err(e) => e == EngineError::UnknownTransaction && callback_target(before, cb) is None,
    }
}

/// Reconciliation keeps every invariant of the store.
pub proof fn lemma_reconciled_wf(v: StoreView, cb: TransactionCallback, now: Timestamp)
    requires
        v.wf(),
    ensures
        reconciled(v, cb, now).wf(),
        reconciled(v, cb, now).transactions.len() == v.transactions.len(),
        forall|k: int| 0 <= k < v.transactions.len()
            ==> (#[trigger] reconciled(v, cb, now).transactions[k]).id == v.transactions[k].id,
{
    let after = reconciled(v, cb, now);
    if let Some(i) = callback_target(v, cb) {
        assert forall|a: int, b: int| 0 <= a < after.sessions.len() && 0 <= b < after.sessions.len() && a != b
            && after.sessions[a].easypark_id == after.sessions[b].easypark_id
            && is_open_status(after.sessions[a].ticket_status)
            implies !is_open_status(after.sessions[b].ticket_status) by {
            assert(a != i);
            if b != i {
                assert(v.sessions[a] == after.sessions[a]);
            }
        }
        assert forall|k: int| 0 <= k < after.sessions.len()
            implies has_user(after.users, #[trigger] after.sessions[k].easypark_id)
                && has_lot(after.lots, after.sessions[k].parking_lot_id) by {
            assert(has_user(v.users, v.sessions[k].easypark_id));
        }
        assert forall|k: int| 0 <= k < after.sessions.len()
            implies #[trigger] after.sessions[k].transaction_id == after.transactions[k].id by {
            assert(v.sessions[k].transaction_id == v.transactions[k].id);
        }
    }
}

/// Renaming keeps every invariant of the store.
pub proof fn lemma_renamed_wf(v: StoreView, from: Id, to: Id)
    requires
        v.wf(),
    ensures
        renamed(v, from, to).wf(),
{
    let after = renamed(v, from, to);
    if has_transaction(v.transactions, from) && from != to && !has_transaction(v.transactions, to) {
        let i = transaction_index(v.transactions, from);
        assert forall|a: int, b: int| 0 <= a < after.transactions.len() && 0 <= b < after.transactions.len() && a != b
            implies after.transactions[a].id != after.transactions[b].id by {
            if a == i {
                assert(v.transactions[b].id == after.transactions[b].id);
            } else if b == i {
                assert(v.transactions[a].id == after.transactions[a].id);
            }
        }
        assert forall|a: int, b: int| 0 <= a < after.sessions.len() && 0 <= b < after.sessions.len() && a != b
            && after.sessions[a].easypark_id == after.sessions[b].easypark_id
            && is_open_status(after.sessions[a].ticket_status)
            implies !is_open_status(after.sessions[b].ticket_status) by {
            assert(v.sessions[a].easypark_id == after.sessions[a].easypark_id);
            assert(v.sessions[b].easypark_id == after.sessions[b].easypark_id);
        }
        assert forall|k: int| 0 <= k < after.sessions.len()
            implies has_user(after.users, #[trigger] after.sessions[k].easypark_id)
                && has_lot(after.lots, after.sessions[k].parking_lot_id) by {
            assert(has_user(v.users, v.sessions[k].easypark_id));
        }
        assert forall|k: int| 0 <= k < after.sessions.len()
            implies #[trigger] after.sessions[k].transaction_id == after.transactions[k].id by {
            assert(v.sessions[k].transaction_id == v.transactions[k].id);
        }
    }
}

pub proof fn lemma_user_by_id(s: Seq<User>, i: int)
    requires
        0 <= i < s.len(),
        forall|a: int, b: int| 0 <= a < s.len() && 0 <= b < s.len() && a != b ==> s[a].id != s[b].id,
    ensures
        has_user(s, s[i].id),
        user_by_id(s, s[i].id) == s[i],
{
    let id = s[i].id;
    assert(s[i].id == id);
    let j = choose|j: int| 0 <= j < s.len() && s[j].id == id;
    assert(j == i);
}

pub proof fn lemma_lot_by_id(s: Seq<ParkingLot>, i: int)
    requires
        0 <= i < s.len(),
        forall|a: int, b: int| 0 <= a < s.len() && 0 <= b < s.len() && a != b ==> s[a].id != s[b].id,
    ensures
        has_lot(s, s[i].id),
        lot_by_id(s, s[i].id) == s[i],
{
    let id = s[i].id;
    assert(s[i].id == id);
    let j = choose|j: int| 0 <= j < s.len() && s[j].id == id;
    assert(j == i);
}

pub proof fn lemma_session_index(s: Seq<ParkingHistory>, i: int)
    requires
        0 <= i < s.len(),
        forall|a: int, b: int| 0 <= a < s.len() && 0 <= b < s.len() && a != b ==> s[a].id != s[b].id,
    ensures
        has_session(s, s[i].id),
        session_index(s, s[i].id) == i,
{
    let id = s[i].id;
    assert(s[i].id == id);
}

pub proof fn lemma_transaction_index(s: Seq<TransactionHistory>, i: int)
    requires
        0 <= i < s.len(),
        forall|a: int, b: int| 0 <= a < s.len() && 0 <= b < s.len() && a != b ==> s[a].id != s[b].id,
    ensures
        has_transaction(s, s[i].id),
        transaction_index(s, s[i].id) == i,
{
    let id = s[i].id;
    assert(s[i].id == id);
}

/// The store of accounts, lots, sessions and transactions.
pub struct ParkingStore {
    users: Vec<User>,
    lots: Vec<ParkingLot>,
    sessions: Vec<ParkingHistory>,
    transactions: Vec<TransactionHistory>,
}

impl View for ParkingStore {
    type V = StoreView;

    closed spec fn view(&self) -> StoreView {
        StoreView {
            users: self.users@,
            lots: self.lots@,
            sessions: self.sessions@,
            transactions: self.transactions@,
        }
    }
}

impl ParkingStore {
    /// An empty store.
    pub fn new() -> (r: ParkingStore)
        ensures
            r@.wf(),
            r@.users.len() == 0,
            r@.lots.len() == 0,
            r@.sessions.len() == 0,
            r@.transactions.len() == 0,
    {
        ParkingStore { users: Vec::new(), lots: Vec::new(), sessions: Vec::new(), transactions: Vec::new() }
    }

    /// The accounts, in the order they were added.
    pub fn users(&self) -> (r: &Vec<User>)
        ensures
            r@ == self@.users,
    {
        &self.users
    }

    /// The lots, in the order they were added.
    pub fn lots(&self) -> (r: &Vec<ParkingLot>)
        ensures
            r@ == self@.lots,
    {
        &self.lots
    }

    /// The sessions, in creation order.
    pub fn sessions(&self) -> (r: &Vec<ParkingHistory>)
        ensures
            r@ == self@.sessions,
    {
        &self.sessions
    }

    /// The transactions; the `i`-th belongs to the `i`-th session.
    pub fn transactions(&self) -> (r: &Vec<TransactionHistory>)
        ensures
            r@ == self@.transactions,
    {
        &self.transactions
    }

    /// Position of the account `id`.
    pub(crate) fn user_position(&self, id: Id) -> (r: Option<usize>)
        requires
            self@.wf(),
        ensures
            match r {
                Some(i) => i < self@.users.len() && self@.users[i as int].id == id
                    && has_user(self@.users, id) && user_by_id(self@.users, id) == self@.users[i as int],
                None => !has_user(self@.users, id),
            },
    {
        let mut i: usize = 0;
        while i < self.users.len()
            invariant
                self@.wf(),
                i <= self.users@.len(),
                forall|k: int| 0 <= k < i ==> self.users@[k].id != id,
            decreases self.users@.len() - i,
        {
            if self.users[i].id == id {
                proof { lemma_user_by_id(self.users@, i as int); }
                return Some(i);
            }
            i += 1;
        }
        None
    }

    /// Position of the lot `id`.
    pub(crate) fn lot_position(&self, id: Id) -> (r: Option<usize>)
        requires
            self@.wf(),
        ensures
            match r {
                Some(i) => i < self@.lots.len() && self@.lots[i as int].id == id
                    && has_lot(self@.lots, id) && lot_by_id(self@.lots, id) == self@.lots[i as int],
                None => !has_lot(self@.lots, id),
            },
    {
        let mut i: usize = 0;
        while i < self.lots.len()
            invariant
                self@.wf(),
                i <= self.lots@.len(),
                forall|k: int| 0 <= k < i ==> self.lots@[k].id != id,
            decreases self.lots@.len() - i,
        {
            if self.lots[i].id == id {
                proof { lemma_lot_by_id(self.lots@, i as int); }
                return Some(i);
            }
            i += 1;
        }
        None
    }

    /// Position of the session `id`.
    pub(crate) fn session_position(&self, id: Id) -> (r: Option<usize>)
        requires
            self@.wf(),
        ensures
            match r {
                Some(i) => i < self@.sessions.len() && self@.sessions[i as int].id == id
                    && has_session(self@.sessions, id) && session_index(self@.sessions, id) == i,
                None => !has_session(self@.sessions, id),
            },
    {
        let mut i: usize = 0;
        while i < self.sessions.len()
            invariant
                self@.wf(),
                i <= self.sessions@.len(),
                forall|k: int| 0 <= k < i ==> self.sessions@[k].id != id,
            decreases self.sessions@.len() - i,
        {
            if self.sessions[i].id == id {
                proof { lemma_session_index(self.sessions@, i as int); }
                return Some(i);
            }
            i += 1;
        }
        None
    }

    /// Position of the transaction `id`.
    pub(crate) fn transaction_position(&self, id: Id) -> (r: Option<usize>)
        requires
            self@.wf(),
        ensures
            match r {
                Some(i) => i < self@.transactions.len() && self@.transactions[i as int].id == id
                    && has_transaction(self@.transactions, id) && transaction_index(self@.transactions, id) == i,
                None => !has_transaction(self@.transactions, id),
            },
    {
        let mut i: usize = 0;
        while i < self.transactions.len()
            invariant
                self@.wf(),
                i <= self.transactions@.len(),
                forall|k: int| 0 <= k < i ==> self.transactions@[k].id != id,
            decreases self.transactions@.len() - i,
        {
            if self.transactions[i].id == id {
                proof { lemma_transaction_index(self.transactions@, i as int); }
                return Some(i);
            }
            i += 1;
        }
        None
    }

    /// Whether the patron holds a pending or active ticket.
    pub fn patron_has_open_session(&self, patron: Id) -> (r: bool)
        ensures
            r == has_open_session(self@.sessions, patron),
    {
        let mut i: usize = 0;
        while i < self.sessions.len()
            invariant
                i <= self.sessions@.len(),
                forall|k: int| 0 <= k < i ==> !(self.sessions@[k].easypark_id == patron
                    && is_open_status(#[trigger] self.sessions@[k].ticket_status)),
            decreases self.sessions@.len() - i,
        {
            let s = &self.sessions[i];
            if s.easypark_id == patron
                && (s.ticket_status == TicketStatus::Default || s.ticket_status == TicketStatus::Active) {
                return true;
            }
            i += 1;
        }
        false
    }

    /// Opens a ticket: checks the participants and that the patron holds no
    /// open ticket, then records an active session charged the first hour
    /// and its pending transaction, both or neither.
    pub fn issue(&mut self, p: &CreateParkingHistoryPayload, session_id: Id, transaction_id: Id, now: Timestamp)
        -> (r: Result<(ParkingHistory, TransactionHistory), EngineError>)
        requires
            old(self)@.wf(),
        ensures
            final(self)@.wf(),
            issue_outcome(old(self)@, final(self)@, *p, session_id, transaction_id, now, r),
    {
        let patron = match self.user_position(p.easypark_id) {
            Some(i) => i,
            None => return Err(EngineError::NotFound),
        };
        if self.users[patron].role != Role::Easypark {
            return Err(EngineError::InvalidParticipant);
        }
        if self.patron_has_open_session(p.easypark_id) {
            return Err(EngineError::ConflictAlreadyIssued);
        }
        let keeper = match self.user_position(p.keeper_id) {
            Some(i) => i,
            None => return Err(EngineError::NotFound),
        };
        if self.users[keeper].role != Role::ParkKeeper {
            return Err(EngineError::InvalidParticipant);
        }
        let lot = match self.lot_position(p.parking_lot_id) {
            Some(i) => i,
            None => return Err(EngineError::NotFound),
        };
        if self.users[keeper].parking_lot_id != Some(p.parking_lot_id) {
            return Err(EngineError::InvalidParticipant);
        }
        if self.session_position(session_id).is_some() || self.transaction_position(transaction_id).is_some() {
            return Err(EngineError::DuplicateId);
        }
        let amount = initial_fare(p.vehicle_type, &self.lots[lot]);
        let session = ParkingHistory {
            id: session_id,
            ticket_status: TicketStatus::Active,
            vehicle_type: p.vehicle_type,
            payment: p.payment,
            amount,
            parking_lot_id: p.parking_lot_id,
            easypark_id: p.easypark_id,
            owner_id: self.lots[lot].owner_id,
            keeper_id: p.keeper_id,
            transaction_id,
            created_at: Some(now),
            updated_at: None,
            check_in_date: Some(now),
            check_out_date: None,
        };
        let transaction = TransactionHistory::pending(transaction_id);
        let returned = transaction.duplicate();
        let ghost before = self@;
        self.sessions.push(session);
        self.transactions.push(transaction);
        proof {
            let after = self@;
            assert(after == before.record(session, returned));
            assert forall|i: int| 0 <= i < after.sessions.len()
                implies has_user(after.users, #[trigger] after.sessions[i].easypark_id)
                    && has_lot(after.lots, after.sessions[i].parking_lot_id) by {
                if i == before.sessions.len() {
                    assert(after.lots[lot as int].id == p.parking_lot_id);
                    assert(after.users[patron as int].id == p.easypark_id);
                }
            }
            assert forall|i: int, j: int| 0 <= i < after.sessions.len() && 0 <= j < after.sessions.len() && i != j
                && after.sessions[i].easypark_id == after.sessions[j].easypark_id
                && is_open_status(after.sessions[i].ticket_status)
                implies !is_open_status(after.sessions[j].ticket_status) by {
                if i == before.sessions.len() {
                    if is_open_status(after.sessions[j].ticket_status) {
                        assert(before.sessions[j].easypark_id == p.easypark_id);
                    }
                } else if j == before.sessions.len() {
                    assert(before.sessions[i].easypark_id == p.easypark_id);
                }
            }
            assert(!has_session(before.sessions, session_id));
            assert(!has_transaction(before.transactions, transaction_id));
        }
        Ok((session, returned))
    }

    /// Adds an account; fails with `DuplicateId` when its identifier is taken.
    pub fn add_user(&mut self, u: User) -> (r: Result<(), EngineError>)
        requires
            old(self)@.wf(),
        ensures
            final(self)@.wf(),
            match r {
                Ok(()) => !has_user(old(self)@.users, u.id)
                    && final(self)@ == (StoreView { users: old(self)@.users.push(u), ..old(self)@ }),
                Err(e) => e == EngineError::DuplicateId && has_user(old(self)@.users, u.id)
                    && final(self)@ == old(self)@,
            },
    {
        if self.user_position(u.id).is_some() {
            return Err(EngineError::DuplicateId);
        }
        let ghost before = self@;
        self.users.push(u);
        proof {
            let after = self@;
            assert forall|i: int| 0 <= i < after.sessions.len()
                implies has_user(after.users, #[trigger] after.sessions[i].easypark_id)
                    && has_lot(after.lots, after.sessions[i].parking_lot_id) by {
                let id = after.sessions[i].easypark_id;
                let k = choose|k: int| 0 <= k < before.users.len() && before.users[k].id == id;
                assert(after.users[k].id == id);
            }
        }
        Ok(())
    }

    /// Adds a lot; fails with `DuplicateId` when its identifier is taken.
    pub fn add_lot(&mut self, lot: ParkingLot) -> (r: Result<(), EngineError>)
        requires
            old(self)@.wf(),
        ensures
            final(self)@.wf(),
            match r {
                Ok(()) => !has_lot(old(self)@.lots, lot.id)
                    && final(self)@ == (StoreView { lots: old(self)@.lots.push(lot), ..old(self)@ }),
                Err(e) => e == EngineError::DuplicateId && has_lot(old(self)@.lots, lot.id)
                    && final(self)@ == old(self)@,
            },
    {
        if self.lot_position(lot.id).is_some() {
            return Err(EngineError::DuplicateId);
        }
        let ghost before = self@;
        self.lots.push(lot);
        proof {
            let after = self@;
            assert forall|i: int| 0 <= i < after.sessions.len()
                implies has_user(after.users, #[trigger] after.sessions[i].easypark_id)
                    && has_lot(after.lots, after.sessions[i].parking_lot_id) by {
                let id = after.sessions[i].parking_lot_id;
                assert(has_user(before.users, before.sessions[i].easypark_id));
                let k = choose|k: int| 0 <= k < before.lots.len() && before.lots[k].id == id;
                assert(after.lots[k].id == id);
            }
        }
        Ok(())
    }

    /// The session `id`.
    pub fn find_session(&self, id: Id) -> (r: Result<ParkingHistory, EngineError>)
        requires
            self@.wf(),
        ensures
            match r {
                Ok(s) => has_session(self@.sessions, id) && s == self@.sessions[session_index(self@.sessions, id)],
                Err(e) => e == EngineError::NotFound && !has_session(self@.sessions, id),
            },
    {
        match self.session_position(id) {
            Some(i) => Ok(self.sessions[i]),
            None => Err(EngineError::NotFound),
        }
    }

    /// The transaction `id`.
    pub fn find_transaction(&self, id: Id) -> (r: Result<TransactionHistory, EngineError>)
        requires
            self@.wf(),
        ensures
            match r {
                Ok(t) => has_transaction(self@.transactions, id)
                    && t == self@.transactions[transaction_index(self@.transactions, id)],
                Err(e) => e == EngineError::NotFound && !has_transaction(self@.transactions, id),
            },
    {
        match self.transaction_position(id) {
            Some(i) => Ok(self.transactions[i].duplicate()),
            None => Err(EngineError::NotFound),
        }
    }

    /// Applies a settlement callback: the transaction named by `order_id`
    /// takes every field the callback carries, and its session is closed and
    /// stamped with the check-out time `now` unless it was closed already.
    /// Replaying a callback is harmless. Returns the session and the
    /// transaction as they are afterwards.
    pub fn reconcile(&mut self, cb: TransactionCallback, now: Timestamp)
        -> (r: Result<(ParkingHistory, TransactionHistory), EngineError>)
        requires
            old(self)@.wf(),
        ensures
            final(self)@.wf(),
            reconcile_outcome(old(self)@, final(self)@, cb, now, r),
    {
        let i = match cb.order_id {
            Some(id) => match self.transaction_position(id) {
                Some(i) => i,
                None => return Err(EngineError::UnknownTransaction),
            },
            None => return Err(EngineError::UnknownTransaction),
        };
        let ghost before = self@;
        let t = merge_callback(&self.transactions[i], cb);
        let returned = t.duplicate();
        let s = close_session(self.sessions[i], now);
        self.transactions.set(i, t);
        self.sessions.set(i, s);
        proof {
            assert(self@ == reconciled(before, cb, now));
            lemma_reconciled_wf(before, cb, now);
        }
        Ok((s, returned))
    }

    /// Renames transaction `from` to the gateway-issued `to`, changing the
    /// transaction's identifier and its session's reference in one step.
    /// Renaming to the same identifier, or repeating a rename already made,
    /// changes nothing. Returns the session with the fare owed at `now`.
    pub fn rename_transaction(&mut self, from: Id, to: Id, now: Timestamp)
        -> (r: Result<ParkingHistoryWithTotalAmount, EngineError>)
        requires
            old(self)@.wf(),
        ensures
            final(self)@.wf(),
            match r {
                Ok(h) => {
                    &&& rename_error(old(self)@, from, to) is None
                    &&& final(self)@ == renamed(old(self)@, from, to)
                    &&& has_transaction(final(self)@.transactions, to)
                    &&& h.history == final(self)@.sessions[transaction_index(final(self)@.transactions, to)]
                    &&& h.total_amount == forecast_of(h.history, now)
                },
                Err(e) => rename_error(old(self)@, from, to) == Some(e) && final(self)@ == old(self)@,
            },
    {
        let ghost before = self@;
        let i = match self.transaction_position(from) {
            Some(i) => {
                if from != to {
                    if self.transaction_position(to).is_some() {
                        return Err(EngineError::DuplicateId);
                    }
                    let mut t = self.transactions[i].duplicate();
                    t.id = to;
                    let s = ParkingHistory { transaction_id: to, ..self.sessions[i] };
                    self.transactions.set(i, t);
                    self.sessions.set(i, s);
                    proof {
                        assert(self@ == renamed(before, from, to));
                        lemma_renamed_wf(before, from, to);
                    }
                }
                i
            },
            None => match self.transaction_position(to) {
                Some(j) => j,
                None => return Err(EngineError::UnknownTransaction),
            },
        };
        proof {
            assert(self@.transactions[i as int].id == to);
            lemma_transaction_index(self@.transactions, i as int);
        }
        let h = self.sessions[i];
        Ok(ParkingHistoryWithTotalAmount { history: h, total_amount: forecast_amount(&h, now) })
    }


    /// Opens a ticket at the current time, with fresh random identifiers for
    /// the session and its transaction.
    pub fn create(&mut self, p: &CreateParkingHistoryPayload) -> (r: Result<(ParkingHistory, TransactionHistory), EngineError>)
        requires
            old(self)@.wf(),
        ensures
            final(self)@.wf(),
            exists|session_id: Id, transaction_id: Id, now: Timestamp|
                issue_outcome(old(self)@, final(self)@, *p, session_id, transaction_id, now, r),
    {
        let session_id = fresh_id();
        let transaction_id = fresh_id();
        let now = now_seconds();
        self.issue(p, session_id, transaction_id, now)
    }

    /// Applies a settlement callback at the current time.
    pub fn settle(&mut self, cb: TransactionCallback) -> (r: Result<(ParkingHistory, TransactionHistory), EngineError>)
        requires
            old(self)@.wf(),
        ensures
            final(self)@.wf(),
            exists|now: Timestamp| reconcile_outcome(old(self)@, final(self)@, cb, now, r),
    {
        let now = now_seconds();
        self.reconcile(cb, now)
    }


    /// Replaces account `i` by a record with the same identifier.
    pub(crate) fn replace_user(&mut self, i: usize, u: User)
        requires
            old(self)@.wf(),
            i < old(self)@.users.len(),
            u.id == old(self)@.users[i as int].id,
        ensures
            final(self)@.wf(),
            final(self)@ == (StoreView { users: old(self)@.users.update(i as int, u), ..old(self)@ }),
    {
        let ghost before = self@;
        self.users.set(i, u);
        proof {
            let after = self@;
            assert forall|k: int| 0 <= k < after.sessions.len()
                implies has_user(after.users, #[trigger] after.sessions[k].easypark_id)
                    && has_lot(after.lots, after.sessions[k].parking_lot_id) by {
                let id = after.sessions[k].easypark_id;
                assert(has_user(before.users, before.sessions[k].easypark_id));
                let w = choose|w: int| 0 <= w < before.users.len() && before.users[w].id == id;
                assert(after.users[w].id == id);
            }
        }
    }

    /// Replaces lot `i` by a record with the same identifier.
    pub(crate) fn replace_lot(&mut self, i: usize, lot: ParkingLot)
        requires
            old(self)@.wf(),
            i < old(self)@.lots.len(),
            lot.id == old(self)@.lots[i as int].id,
        ensures
            final(self)@.wf(),
            final(self)@ == (StoreView { lots: old(self)@.lots.update(i as int, lot), ..old(self)@ }),
    {
        let ghost before = self@;
        self.lots.set(i, lot);
        proof {
            let after = self@;
            assert forall|k: int| 0 <= k < after.sessions.len()
                implies has_user(after.users, #[trigger] after.sessions[k].easypark_id)
                    && has_lot(after.lots, after.sessions[k].parking_lot_id) by {
                let id = after.sessions[k].parking_lot_id;
                assert(has_user(before.users, before.sessions[k].easypark_id));
                let w = choose|w: int| 0 <= w < before.lots.len() && before.lots[w].id == id;
                assert(after.lots[w].id == id);
            }
        }
    }

    fn role_check(&self, id: Id, role: Role) -> (r: Option<EngineError>)
        requires
            self@.wf(),
        ensures
            r == role_error(self@, id, role),
    {
        match self.user_position(id) {
            Some(i) => if self.users[i].role == role {
                None
            } else {
                Some(EngineError::InvalidParticipant)
            },
            None => Some(EngineError::NotFound),
        }
    }

    /// Applies a partial update to session `id` at time `now`, after checking
    /// every participant it names; the patron of an open session can only be
    /// changed to one who holds no other open ticket. Returns the session and
    /// its transaction.
    pub fn update_session(&mut self, id: Id, p: &UpdateParkingHistory, now: Timestamp)
        -> (r: Result<(ParkingHistory, TransactionHistory), EngineError>)
        requires
            old(self)@.wf(),
        ensures
            final(self)@.wf(),
            match r {
                Ok((s, t)) => {
                    let i = session_index(old(self)@.sessions, id);
                    &&& update_check(old(self)@, id, *p) is None
                    &&& s == updated_session(old(self)@.sessions[i], *p, now)
                    &&& final(self)@ == (StoreView { sessions: old(self)@.sessions.update(i, s), ..old(self)@ })
                    &&& t == old(self)@.transactions[i]
                },
                Err(e) => update_check(old(self)@, id, *p) == Some(e) && final(self)@ == old(self)@,
            },
    {
        if let Some(u) = p.easypark_id {
            if let Some(e) = self.role_check(u, Role::Easypark) {
                return Err(e);
            }
        }
        if let Some(u) = p.keeper_id {
            if let Some(e) = self.role_check(u, Role::ParkKeeper) {
                return Err(e);
            }
        }
        if let Some(u) = p.owner_id {
            if let Some(e) = self.role_check(u, Role::ParkOwner) {
                return Err(e);
            }
        }
        if let Some(l) = p.parking_lot_id {
            match self.lot_position(l) {
                Some(li) => {
                    if let Some(o) = p.owner_id {
                        if self.lots[li].owner_id != o {
                            return Err(EngineError::InvalidParticipant);
                        }
                    }
                },
                None => return Err(EngineError::NotFound),
            }
        }
        let i = match self.session_position(id) {
            Some(i) => i,
            None => return Err(EngineError::NotFound),
        };
        let old_session = self.sessions[i];
        let patron = match p.easypark_id {
            Some(u) => u,
            None => old_session.easypark_id,
        };
        let open = old_session.ticket_status == TicketStatus::Default || old_session.ticket_status == TicketStatus::Active;
        if open && patron != old_session.easypark_id && self.patron_has_open_session(patron) {
            return Err(EngineError::ConflictAlreadyIssued);
        }
        let s = ParkingHistory {
            vehicle_type: match p.vehicle_type {
                Some(x) => x,
                None => old_session.vehicle_type,
            },
            payment: match p.payment {
                Some(x) => x,
                None => old_session.payment,
            },
            parking_lot_id: match p.parking_lot_id {
                Some(x) => x,
                None => old_session.parking_lot_id,
            },
            easypark_id: patron,
            keeper_id: match p.keeper_id {
                Some(x) => x,
                None => old_session.keeper_id,
            },
            owner_id: match p.owner_id {
                Some(x) => x,
                None => old_session.owner_id,
            },
            updated_at: Some(now),
            ..old_session
        };
        let ghost before = self@;
        self.sessions.set(i, s);
        proof {
            let after = self@;
            assert(s == updated_session(before.sessions[i as int], *p, now));
            assert forall|k: int| 0 <= k < after.sessions.len()
                implies has_user(after.users, #[trigger] after.sessions[k].easypark_id)
                    && has_lot(after.lots, after.sessions[k].parking_lot_id) by {
                assert(has_user(before.users, before.sessions[k].easypark_id));
            }
            assert forall|a: int, b: int| 0 <= a < after.sessions.len() && 0 <= b < after.sessions.len() && a != b
                implies after.sessions[a].id != after.sessions[b].id by {
                assert(before.sessions[a].id != before.sessions[b].id);
            }
            assert forall|k: int| 0 <= k < after.sessions.len()
                implies #[trigger] after.sessions[k].transaction_id == after.transactions[k].id by {
                assert(before.sessions[k].transaction_id == before.transactions[k].id);
            }
            assert forall|a: int, b: int| 0 <= a < after.sessions.len() && 0 <= b < after.sessions.len() && a != b
                && after.sessions[a].easypark_id == after.sessions[b].easypark_id
                && is_open_status(after.sessions[a].ticket_status)
                implies !is_open_status(after.sessions[b].ticket_status) by {
                if a == i {
                    if patron != old_session.easypark_id && is_open_status(after.sessions[b].ticket_status) {
                        assert(before.sessions[b].easypark_id == patron);
                        assert(has_open_session(before.sessions, patron));
                    }
                } else if b == i {
                    if patron != old_session.easypark_id {
                        assert(has_open_session(before.sessions, patron)) by {
                            assert(before.sessions[a].easypark_id == patron);
                        }
                    }
                }
            }
        }
        Ok((s, self.transactions[i].duplicate()))
    }

}

} // verus!
