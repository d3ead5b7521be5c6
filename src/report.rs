//! Read-only views over the sessions: filtered pages, the active ticket of a
//! patron, monthly counts and settled totals.

use vstd::prelude::*;
use crate::amount::{settled_amount, settled_units};
use crate::fare::{forecast_amount, forecast_of};
use crate::model::{
    is_open_status, EngineError, Id, ParkingHistory, PaymentType, TicketStatus, Timestamp,
    TransactionHistory,
};
use crate::platform::{calendar_month, civil_month};
use crate::store::{
    has_open_session, has_user, lot_by_id, transaction_index, user_by_id,
    ParkingStore, StoreView,
};

verus! {

/// Filters and pagination of a session listing. At most one participant
/// filter applies: the patron's if given, else the owner's, else the
/// keeper's.
#[derive(Clone, Copy, Debug, PartialEq, Eq)]
pub struct AggregateQuery {
    pub payment_type: Option<PaymentType>,
    pub ticket_status: Option<TicketStatus>,
    pub easypark_id: Option<Id>,
    pub owner_id: Option<Id>,
    pub keeper_id: Option<Id>,
    pub created_at_start_filter: Option<Timestamp>,
    pub created_at_end_filter: Option<Timestamp>,
    pub take: Option<u64>,
    pub skip: Option<u64>,
}

/// The lot of a listed session.
#[derive(Clone, Debug, PartialEq, Eq)]
pub struct RelatedParkingLot {
    pub area_name: String,
    pub address: String,
    pub image_url: String,
}

/// The patron of a listed session.
#[derive(Clone, Debug, PartialEq, Eq)]
pub struct RelatedEasypark {
    pub name: String,
}

/// A listed session with its lot, its patron, the fare it owes
/// (`forecast_amount`) and the amount its transaction settled
/// (`total_amount`).
#[derive(Clone, Debug, PartialEq, Eq)]
pub struct RelatedParkingHistory {
    pub id: Id,
    pub ticket_status: TicketStatus,
    pub vehicle_type: crate::model::VehicleType,
    pub payment: PaymentType,
    pub amount: u64,
    pub forecast_amount: u128,
    pub total_amount: u64,
    pub created_at: Option<Timestamp>,
    pub updated_at: Option<Timestamp>,
    pub check_in_date: Option<Timestamp>,
    pub check_out_date: Option<Timestamp>,
    pub parking_lot: RelatedParkingLot,
    pub easypark: RelatedEasypark,
}

/// Number of sessions a listing matches, before pagination.
#[derive(Clone, Copy, Debug, PartialEq, Eq)]
pub struct ParkingHistoryCount {
    pub data: Option<u64>,
}

/// Sessions created in one month.
#[derive(Clone, Debug, PartialEq, Eq)]
pub struct MonthlyRecord {
    pub month: Option<String>,
    pub total_history: Option<u64>,
}

/// Scope of a settled-total rollup: a creation-time window, optionally one
/// owner's sessions, optionally one keeper's cash sessions.
#[derive(Clone, Copy, Debug, PartialEq, Eq)]
pub struct CalcQuery {
    pub owner_id: Option<Id>,
    pub keeper_id: Option<Id>,
    pub created_at_start_filter: Timestamp,
    pub created_at_end_filter: Timestamp,
}

/// Sum of settled amounts and number of sessions of a rollup.
#[derive(Clone, Copy, Debug, PartialEq, Eq)]
pub struct FilteredCalc {
    pub sum_all: u128,
    pub total_history: u64,
}

pub open spec fn participant_matches(q: AggregateQuery, s: ParkingHistory) -> bool {
    match q.easypark_id {
        Some(p) => s.easypark_id == p,
        None => match q.owner_id {
            Some(o) => s.owner_id == o,
            None => match q.keeper_id {
                Some(k) => s.keeper_id == k,
                None => true,
            },
        },
    }
}

pub open spec fn created_within(start: Option<Timestamp>, end: Option<Timestamp>, created: Option<Timestamp>) -> bool {
    &&& (start matches Some(a) ==> (created matches Some(c) && c >= a))
    &&& (end matches Some(b) ==> (created matches Some(c) && c <= b))
}

/// Whether a session passes every filter of a listing.
pub open spec fn query_matches(q: AggregateQuery, s: ParkingHistory) -> bool {
    &&& created_within(q.created_at_start_filter, q.created_at_end_filter, s.created_at)
    &&& participant_matches(q, s)
    &&& (q.ticket_status matches Some(t) ==> s.ticket_status == t)
    &&& (q.payment_type matches Some(p) ==> s.payment == p)
}

/// The sessions a listing matches, in creation order.
pub open spec fn matching(q: AggregateQuery, s: Seq<ParkingHistory>) -> Seq<ParkingHistory>
    decreases s.len(),
{
    if s.len() == 0 {
        Seq::empty()
    } else {
        let r = matching(q, s.drop_last());
        if query_matches(q, s.last()) {
            r.push(s.last())
        } else {
            r
        }
    }
}

/// The page of `s` that skips `skip` items and keeps at most `take`.
pub open spec fn page_of<T>(s: Seq<T>, skip: Option<u64>, take: Option<u64>) -> Seq<T> {
    let from: int = match skip {
        Some(k) => if k < s.len() { k as int } else { s.len() as int },
        None => 0,
    };
    let rest = s.subrange(from, s.len() as int);
    match take {
        Some(t) => if t < rest.len() { rest.take(t as int) } else { rest },
        None => rest,
    }
}

/// The page of `v` that skips `skip` items and keeps at most `take`.
pub fn paginate<T>(v: Vec<T>, skip: Option<u64>, take: Option<u64>) -> (r: Vec<T>)
    ensures
        r@ == page_of(v@, skip, take),
{
    let ghost all = v@;
    let mut w = v;
    let n = w.len();
    let from: usize = match skip {
        Some(k) => if k < n as u64 { k as usize } else { n },
        None => 0,
    };
    let mut rest = w.split_off(from);
    if let Some(t) = take {
        if t < rest.len() as u64 {
            rest.truncate(t as usize);
        }
    }
    proof {
        assert(rest@ =~= page_of(all, skip, take));
    }
    rest
}

/// A session as listed, with its lot, patron, owed fare and settled amount.
pub open spec fn related_of(v: StoreView, s: ParkingHistory, now: Timestamp) -> RelatedParkingHistory {
    let lot = lot_by_id(v.lots, s.parking_lot_id);
    let patron = user_by_id(v.users, s.easypark_id);
    let t = v.transactions[transaction_index(v.transactions, s.transaction_id)];
    RelatedParkingHistory {
        id: s.id,
        ticket_status: s.ticket_status,
        vehicle_type: s.vehicle_type,
        payment: s.payment,
        amount: s.amount,
        forecast_amount: match forecast_of(s, now) {
            Some(x) => x,
            None => 0,
        },
        total_amount: settled_amount(t.gross_amount) as u64,
        created_at: s.created_at,
        updated_at: s.updated_at,
        check_in_date: s.check_in_date,
        check_out_date: s.check_out_date,
        parking_lot: RelatedParkingLot { area_name: lot.area_name, address: lot.address, image_url: lot.image_url },
        easypark: RelatedEasypark { name: patron.name },
    }
}

proof fn lemma_matching_from(q: AggregateQuery, s: Seq<ParkingHistory>, k: int)
    requires
        0 <= k < matching(q, s).len(),
    ensures
        exists|j: int| 0 <= j < s.len() && s[j] == matching(q, s)[k],
    decreases s.len(),
{
    let r = matching(q, s.drop_last());
    if k < r.len() {
        lemma_matching_from(q, s.drop_last(), k);
        let j = choose|j: int| 0 <= j < s.drop_last().len() && s.drop_last()[j] == r[k];
        assert(s[j] == matching(q, s)[k]);
    } else {
        assert(s[s.len() - 1] == matching(q, s)[k]);
    }
}

fn created_within_exec(start: Option<Timestamp>, end: Option<Timestamp>, created: Option<Timestamp>) -> (r: bool)
    ensures
        r == created_within(start, end, created),
{
    let after_start = match start {
        Some(a) => match created {
            Some(c) => c >= a,
            None => false,
        },
        None => true,
    };
    let before_end = match end {
        Some(b) => match created {
            Some(c) => c <= b,
            None => false,
        },
        None => true,
    };
    after_start && before_end
}

/// Whether a session passes every filter of a listing.
pub fn session_matches(q: &AggregateQuery, s: &ParkingHistory) -> (r: bool)
    ensures
        r == query_matches(*q, *s),
{
    if !created_within_exec(q.created_at_start_filter, q.created_at_end_filter, s.created_at) {
        return false;
    }
    let participant = match q.easypark_id {
        Some(p) => s.easypark_id == p,
        None => match q.owner_id {
            Some(o) => s.owner_id == o,
            None => match q.keeper_id {
                Some(k) => s.keeper_id == k,
                None => true,
            },
        },
    };
    let status = match q.ticket_status {
        Some(t) => s.ticket_status == t,
        None => true,
    };
    let payment = match q.payment_type {
        Some(p) => s.payment == p,
        None => true,
    };
    participant && status && payment
}

/// Number of entries of `ms` equal to `m`.
pub open spec fn month_count(ms: Seq<u32>, m: u32) -> nat
    decreases ms.len(),
{
    if ms.len() == 0 {
        0
    } else {
        month_count(ms.drop_last(), m) + if ms.last() == m { 1nat } else { 0nat }
    }
}

/// The months among the first `m` of the year that occur in `ms`, in
/// calendar order, each with how often it occurs.
pub open spec fn month_rows(ms: Seq<u32>, m: nat) -> Seq<(u32, nat)>
    decreases m,
{
    if m == 0 {
        Seq::empty()
    } else {
        let r = month_rows(ms, (m - 1) as nat);
        if month_count(ms, m as u32) > 0 {
            r.push((m as u32, month_count(ms, m as u32)))
        } else {
            r
        }
    }
}

/// English name of month `m` (1 is January).
pub open spec fn month_name(m: u32) -> Seq<char> {
    if m == 1 { "January"@ }
    else if m == 2 { "February"@ }
    else if m == 3 { "March"@ }
    else if m == 4 { "April"@ }
    else if m == 5 { "May"@ }
    else if m == 6 { "June"@ }
    else if m == 7 { "July"@ }
    else if m == 8 { "August"@ }
    else if m == 9 { "September"@ }
    else if m == 10 { "October"@ }
    else if m == 11 { "November"@ }
    else { "December"@ }
}

/// Every entry of `ms` is a month number, 1 to 12.
pub open spec fn all_months(ms: Seq<u32>) -> bool {
    forall|k: int| 0 <= k < ms.len() ==> 1 <= #[trigger] ms[k] <= 12
}

/// Sum of the counts of `rows`.
pub open spec fn rows_total(rows: Seq<(u32, nat)>) -> nat
    decreases rows.len(),
{
    if rows.len() == 0 {
        0
    } else {
        rows_total(rows.drop_last()) + rows.last().1
    }
}

/// Number of entries of `ms` that are months 1 to `m`.
pub open spec fn month_total(ms: Seq<u32>, m: nat) -> nat
    decreases m,
{
    if m == 0 {
        0
    } else {
        month_total(ms, (m - 1) as nat) + month_count(ms, m as u32)
    }
}

/// `r` lists, in calendar order, each month that occurs in `ms` by name with
/// the number of its occurrences: months are distinct and increasing, no
/// count is zero, and when every entry is a month the counts add up to the
/// number of entries.
pub open spec fn is_monthly_table(r: Seq<MonthlyRecord>, ms: Seq<u32>) -> bool {
    let rows = month_rows(ms, 12);
    &&& r.len() == rows.len()
    &&& forall|k: int| 0 <= k < r.len() ==> {
        &&& (#[trigger] r[k]).month matches Some(name) && name@ == month_name(rows[k].0)
        &&& r[k].total_history == Some(rows[k].1 as u64)
    }
    &&& forall|k: int| 0 <= k < rows.len() ==> 1 <= (#[trigger] rows[k]).0 <= 12 && rows[k].1 >= 1
    &&& forall|k: int, l: int| 0 <= k < l < rows.len() ==> (#[trigger] rows[k]).0 < (#[trigger] rows[l]).0
    &&& (all_months(ms) ==> rows_total(rows) == ms.len())
}

/// The rows of the first `m` months name distinct months in increasing
/// order, none with a zero count, and their counts add up to the entries
/// that are months 1 to `m`.
pub proof fn lemma_month_rows(ms: Seq<u32>, m: nat)
    requires
        m <= 12,
    ensures
        forall|k: int| 0 <= k < month_rows(ms, m).len()
            ==> 1 <= (#[trigger] month_rows(ms, m)[k]).0 <= m && month_rows(ms, m)[k].1 >= 1,
        forall|k: int, l: int| 0 <= k < l < month_rows(ms, m).len()
            ==> (#[trigger] month_rows(ms, m)[k]).0 < (#[trigger] month_rows(ms, m)[l]).0,
        rows_total(month_rows(ms, m)) == month_total(ms, m),
    decreases m,
{
    if m > 0 {
        lemma_month_rows(ms, (m - 1) as nat);
        let prev = month_rows(ms, (m - 1) as nat);
        if month_count(ms, m as u32) > 0 {
            let rows = month_rows(ms, m);
            assert(rows.drop_last() =~= prev);
            assert forall|k: int, l: int| 0 <= k < l < rows.len() implies (#[trigger] rows[k]).0 < (#[trigger] rows[l]).0 by {
                if l == rows.len() - 1 {
                    assert(rows[k] == prev[k]);
                } else {
                    assert(rows[k] == prev[k] && rows[l] == prev[l]);
                }
            }
            assert forall|k: int| 0 <= k < rows.len() implies 1 <= (#[trigger] rows[k]).0 <= m && rows[k].1 >= 1 by {
                if k < rows.len() - 1 {
                    assert(rows[k] == prev[k]);
                }
            }
        }
    }
}

proof fn lemma_month_total_empty(ms: Seq<u32>, m: nat)
    requires
        ms.len() == 0,
    ensures
        month_total(ms, m) == 0,
    decreases m,
{
    if m > 0 {
        lemma_month_total_empty(ms, (m - 1) as nat);
    }
}

proof fn lemma_month_total_step(ms: Seq<u32>, m: nat)
    requires
        ms.len() > 0,
        m <= 12,
    ensures
        month_total(ms, m) == month_total(ms.drop_last(), m)
            + if 1 <= ms.last() && ms.last() <= m { 1nat } else { 0nat },
    decreases m,
{
    if m > 0 {
        lemma_month_total_step(ms, (m - 1) as nat);
        assert(month_count(ms, m as u32) == month_count(ms.drop_last(), m as u32)
            + if ms.last() == m as u32 { 1nat } else { 0nat });
    }
}

/// When every entry is a month, the entries that are months 1 to 12 are all
/// of them.
pub proof fn lemma_month_total_all(ms: Seq<u32>)
    requires
        all_months(ms),
    ensures
        month_total(ms, 12) == ms.len(),
    decreases ms.len(),
{
    if ms.len() > 0 {
        assert(all_months(ms.drop_last())) by {
            assert forall|k: int| 0 <= k < ms.drop_last().len() implies 1 <= #[trigger] ms.drop_last()[k] <= 12 by {
                assert(ms.drop_last()[k] == ms[k]);
            }
        }
        lemma_month_total_all(ms.drop_last());
        lemma_month_total_step(ms, 12);
        assert(1 <= ms[ms.len() - 1] <= 12);
    } else {
        lemma_month_total_empty(ms, 12);
    }
}

/// Calendar months of the sessions of `owner` created in `year`, in creation
/// order.
pub open spec fn owner_months(s: Seq<ParkingHistory>, owner: Id, year: i32) -> Seq<u32>
    decreases s.len(),
{
    if s.len() == 0 {
        Seq::empty()
    } else {
        let r = owner_months(s.drop_last(), owner, year);
        let x = s.last();
        match x.created_at {
            Some(c) => match civil_month(c) {
                Some(ym) => if x.owner_id == owner && ym.0 == year {
                    r.push(ym.1)
                } else {
                    r
                },
                None => r,
            },
            None => r,
        }
    }
}

/// Whether a session counts towards a settled-total rollup: closed, created
/// within the window, the owner's if one is given, and the keeper's and paid
/// in cash if a keeper is given.
pub open spec fn calc_matches(q: CalcQuery, s: ParkingHistory) -> bool {
    &&& s.ticket_status == TicketStatus::NotActive
    &&& s.created_at matches Some(c) && q.created_at_start_filter <= c && c <= q.created_at_end_filter
    &&& (q.owner_id matches Some(o) ==> s.owner_id == o)
    &&& (q.keeper_id matches Some(k) ==> s.keeper_id == k && s.payment == PaymentType::Cash)
}

/// Number of the first `n` sessions that count towards a rollup.
pub open spec fn calc_count(q: CalcQuery, s: Seq<ParkingHistory>, n: int) -> nat
    decreases n,
{
    if n <= 0 {
        0
    } else {
        calc_count(q, s, n - 1) + if calc_matches(q, s[n - 1]) { 1nat } else { 0nat }
    }
}

/// Settled amounts of the first `n` sessions that count towards a rollup,
/// summed; `t[i]` is the transaction of `s[i]`.
pub open spec fn calc_sum(q: CalcQuery, s: Seq<ParkingHistory>, t: Seq<TransactionHistory>, n: int) -> nat
    decreases n,
{
    if n <= 0 {
        0
    } else {
        calc_sum(q, s, t, n - 1) + if calc_matches(q, s[n - 1]) { settled_amount(t[n - 1].gross_amount) } else { 0nat }
    }
}

fn month_name_text(m: u32) -> (r: String)
    ensures
        r@ == month_name(m),
{
    if m == 1 { "January".to_owned() }
    else if m == 2 { "February".to_owned() }
    else if m == 3 { "March".to_owned() }
    else if m == 4 { "April".to_owned() }
    else if m == 5 { "May".to_owned() }
    else if m == 6 { "June".to_owned() }
    else if m == 7 { "July".to_owned() }
    else if m == 8 { "August".to_owned() }
    else if m == 9 { "September".to_owned() }
    else if m == 10 { "October".to_owned() }
    else if m == 11 { "November".to_owned() }
    else { "December".to_owned() }
}

proof fn lemma_month_count_len(ms: Seq<u32>, m: u32)
    ensures
        month_count(ms, m) <= ms.len(),
    decreases ms.len(),
{
    if ms.len() > 0 {
        lemma_month_count_len(ms.drop_last(), m);
    }
}

fn count_month(ms: &Vec<u32>, m: u32) -> (r: u64)
    ensures
        r as nat == month_count(ms@, m),
{
    let mut c: u64 = 0;
    let mut i: usize = 0;
    while i < ms.len()
        invariant
            i <= ms@.len(),
            c as nat == month_count(ms@.take(i as int), m),
        decreases ms@.len() - i,
    {
        proof {
            assert(ms@.take(i as int + 1).drop_last() =~= ms@.take(i as int));
            lemma_month_count_len(ms@.take(i as int), m);
        }
        if ms[i] == m {
            c += 1;
        }
        i += 1;
    }
    proof {
        assert(ms@.take(i as int) =~= ms@);
    }
    c
}

/// Counts calendar months: one record per month that occurs in `ms`, in
/// calendar order, naming the month and how many entries fall in it.
pub fn tally_months(ms: &Vec<u32>) -> (r: Vec<MonthlyRecord>)
    ensures
        is_monthly_table(r@, ms@),
{
    let mut out: Vec<MonthlyRecord> = Vec::new();
    let mut m: u32 = 1;
    while m <= 12
        invariant
            1 <= m <= 13,
            out@.len() == month_rows(ms@, (m - 1) as nat).len(),
            forall|k: int| 0 <= k < out@.len() ==> {
                &&& (#[trigger] out@[k]).month matches Some(name) && name@ == month_name(month_rows(ms@, (m - 1) as nat)[k].0)
                &&& out@[k].total_history == Some(month_rows(ms@, (m - 1) as nat)[k].1 as u64)
            },
        decreases 13 - m,
    {
        let c = count_month(ms, m);
        proof {
            assert(((m as nat) - 1) as nat == (m - 1) as nat);
            assert(month_rows(ms@, m as nat) == {
                let r = month_rows(ms@, (m - 1) as nat);
                if month_count(ms@, m) > 0 { r.push((m, month_count(ms@, m))) } else { r }
            });
        }
        if c > 0 {
            out.push(MonthlyRecord { month: Some(month_name_text(m)), total_history: Some(c) });
        }
        m += 1;
    }
    proof {
        lemma_month_rows(ms@, 12);
        if all_months(ms@) {
            lemma_month_total_all(ms@);
        }
    }
    out
}

impl ParkingStore {
    /// The sessions a listing matches, in creation order.
    fn matching_sessions(&self, q: &AggregateQuery) -> (r: Vec<ParkingHistory>)
        ensures
            r@ == matching(*q, self@.sessions),
    {
        let sessions = self.sessions();
        let mut out: Vec<ParkingHistory> = Vec::new();
        let mut i: usize = 0;
        while i < sessions.len()
            invariant
                sessions@ == self@.sessions,
                i <= sessions@.len(),
                out@ == matching(*q, sessions@.take(i as int)),
            decreases sessions@.len() - i,
        {
            proof {
                assert(sessions@.take(i as int + 1).drop_last() =~= sessions@.take(i as int));
            }
            if session_matches(q, &sessions[i]) {
                out.push(sessions[i]);
            }
            i += 1;
        }
        proof {
            assert(sessions@.take(i as int) =~= sessions@);
        }
        out
    }

    /// Number of sessions a listing matches, ignoring its pagination.
    pub fn count(&self, q: &AggregateQuery) -> (r: ParkingHistoryCount)
        ensures
            r.data == Some(matching(*q, self@.sessions).len() as u64),
    {
        let m = self.matching_sessions(q);
        ParkingHistoryCount { data: Some(m.len() as u64) }
    }

    /// A stored session as listed.
    fn related_item(&self, s: &ParkingHistory, now: Timestamp) -> (r: RelatedParkingHistory)
        requires
            self@.wf(),
            exists|j: int| 0 <= j < self@.sessions.len() && self@.sessions[j] == *s,
        ensures
            r == related_of(self@, *s, now),
    {
        proof {
            let j = choose|j: int| 0 <= j < self@.sessions.len() && self@.sessions[j] == *s;
            assert(has_user(self@.users, self@.sessions[j].easypark_id));
            assert(self@.sessions[j].transaction_id == self@.transactions[j].id);
        }
        let li = self.lot_position(s.parking_lot_id).unwrap();
        let ui = self.user_position(s.easypark_id).unwrap();
        let ti = self.transaction_position(s.transaction_id).unwrap();
        let lot = &self.lots()[li];
        let patron = &self.users()[ui];
        RelatedParkingHistory {
            id: s.id,
            ticket_status: s.ticket_status,
            vehicle_type: s.vehicle_type,
            payment: s.payment,
            amount: s.amount,
            forecast_amount: match forecast_amount(s, now) {
                Some(x) => x,
                None => 0,
            },
            total_amount: settled_units(&self.transactions()[ti].gross_amount),
            created_at: s.created_at,
            updated_at: s.updated_at,
            check_in_date: s.check_in_date,
            check_out_date: s.check_out_date,
            parking_lot: RelatedParkingLot {
                area_name: lot.area_name.clone(),
                address: lot.address.clone(),
                image_url: lot.image_url.clone(),
            },
            easypark: RelatedEasypark { name: patron.name.clone() },
        }
    }

    /// One page of the sessions a listing matches, in creation order, each
    /// with its lot, patron, the fare it owes at `now` and its settled
    /// amount.
    pub fn aggregate(&self, q: &AggregateQuery, now: Timestamp) -> (r: Vec<RelatedParkingHistory>)
        requires
            self@.wf(),
        ensures
            r@.len() == page_of(matching(*q, self@.sessions), q.skip, q.take).len(),
            forall|k: int| 0 <= k < r@.len()
                ==> #[trigger] r@[k] == related_of(self@, page_of(matching(*q, self@.sessions), q.skip, q.take)[k], now),
    {
        let m = self.matching_sessions(q);
        let ghost all = m@;
        let ghost paged = page_of(all, q.skip, q.take);
        let n = m.len();
        let from: usize = match q.skip {
            Some(k) => if k < n as u64 { k as usize } else { n },
            None => 0,
        };
        let end: usize = match q.take {
            Some(t) => if t < (n - from) as u64 { from + t as usize } else { n },
            None => n,
        };
        let mut out: Vec<RelatedParkingHistory> = Vec::new();
        let mut i: usize = from;
        proof {
            assert(paged.len() == end - from);
        }
        while i < end
            invariant
                self@.wf(),
                m@ == all,
                all == matching(*q, self@.sessions),
                paged == page_of(all, q.skip, q.take),
                from <= i <= end <= all.len(),
                paged.len() == end - from,
                forall|k: int| 0 <= k < paged.len() ==> paged[k] == all[from + k],
                out@.len() == i - from,
                forall|k: int| 0 <= k < out@.len() ==> #[trigger] out@[k] == related_of(self@, paged[k], now),
            decreases end - i,
        {
            proof {
                lemma_matching_from(*q, self@.sessions, i as int);
            }
            let item = self.related_item(&m[i], now);
            out.push(item);
            i += 1;
        }
        out
    }

    /// The patron's open ticket, the first in creation order; `NotFound`
    /// when the patron holds none. The store never holds more than one.
    pub fn get_active_ticket(&self, patron: Id, now: Timestamp) -> (r: Result<RelatedParkingHistory, EngineError>)
        requires
            self@.wf(),
        ensures
            match r {
                Ok(t) => exists|i: int| {
                    &&& 0 <= i < self@.sessions.len()
                    &&& self@.sessions[i].easypark_id == patron
                    &&& is_open_status(#[trigger] self@.sessions[i].ticket_status)
                    &&& t == related_of(self@, self@.sessions[i], now)
                },
                Err(e) => e == EngineError::NotFound && !has_open_session(self@.sessions, patron),
            },
    {
        let sessions = self.sessions();
        let mut i: usize = 0;
        while i < sessions.len()
            invariant
                sessions@ == self@.sessions,
                self@.wf(),
                i <= sessions@.len(),
                forall|k: int| 0 <= k < i ==> !(sessions@[k].easypark_id == patron
                    && is_open_status(#[trigger] sessions@[k].ticket_status)),
            decreases sessions@.len() - i,
        {
            let s = &sessions[i];
            if s.easypark_id == patron
                && (s.ticket_status == TicketStatus::Default || s.ticket_status == TicketStatus::Active) {
                let item = self.related_item(s, now);
                proof {
                    assert(is_open_status(self@.sessions[i as int].ticket_status));
                }
                return Ok(item);
            }
            i += 1;
        }
        Err(EngineError::NotFound)
    }

    /// Sessions of `owner` created in the calendar year of `now`, counted by
    /// month in calendar order; empty when the calendar cannot place `now`.
    pub fn monthly_record(&self, owner: Id, now: Timestamp) -> (r: Vec<MonthlyRecord>)
        ensures
            match civil_month(now) {
                Some(ym) => {
                    &&& all_months(owner_months(self@.sessions, owner, ym.0))
                    &&& is_monthly_table(r@, owner_months(self@.sessions, owner, ym.0))
                },
                None => r@.len() == 0,
            },
    {
        let year = match calendar_month(now) {
            Some(ym) => ym.0,
            None => return Vec::new(),
        };
        let sessions = self.sessions();
        let mut ms: Vec<u32> = Vec::new();
        let mut i: usize = 0;
        while i < sessions.len()
            invariant
                sessions@ == self@.sessions,
                i <= sessions@.len(),
                ms@ == owner_months(sessions@.take(i as int), owner, year),
                all_months(ms@),
            decreases sessions@.len() - i,
        {
            proof {
                assert(sessions@.take(i as int + 1).drop_last() =~= sessions@.take(i as int));
            }
            let s = &sessions[i];
            if s.owner_id == owner {
                if let Some(c) = s.created_at {
                    if let Some(ym) = calendar_month(c) {
                        if ym.0 == year {
                            ms.push(ym.1);
                        }
                    }
                }
            }
            i += 1;
        }
        proof {
            assert(sessions@.take(i as int) =~= sessions@);
        }
        tally_months(&ms)
    }

    /// Sum of the settled amounts, and number, of the sessions that count
    /// towards a rollup.
    pub fn filtered_calc(&self, q: &CalcQuery) -> (r: FilteredCalc)
        requires
            self@.wf(),
        ensures
            r.sum_all as nat == calc_sum(*q, self@.sessions, self@.transactions, self@.sessions.len() as int),
            r.total_history as nat == calc_count(*q, self@.sessions, self@.sessions.len() as int),
    {
        let sessions = self.sessions();
        let transactions = self.transactions();
        let mut sum: u128 = 0;
        let mut count: u64 = 0;
        let mut i: usize = 0;
        while i < sessions.len()
            invariant
                sessions@ == self@.sessions,
                transactions@ == self@.transactions,
                sessions@.len() == transactions@.len(),
                i <= sessions@.len(),
                sum as nat == calc_sum(*q, sessions@, transactions@, i as int),
                count as nat == calc_count(*q, sessions@, i as int),
                sum as nat <= i as nat * 0xffff_ffff_ffff_ffffnat,
                count as nat <= i as nat,
            decreases sessions@.len() - i,
        {
            let s = &sessions[i];
            let counted = match s.created_at {
                Some(c) => s.ticket_status == TicketStatus::NotActive
                    && q.created_at_start_filter <= c && c <= q.created_at_end_filter
                    && match q.owner_id {
                        Some(o) => s.owner_id == o,
                        None => true,
                    }
                    && match q.keeper_id {
                        Some(k) => s.keeper_id == k && s.payment == PaymentType::Cash,
                        None => true,
                    },
                None => false,
            };
            if counted {
                let x = settled_units(&transactions[i].gross_amount);
                proof {
                    assert((i as nat + 1) * 0xffff_ffff_ffff_ffffnat == i as nat * 0xffff_ffff_ffff_ffffnat + 0xffff_ffff_ffff_ffffnat) by (nonlinear_arith);
                    assert(i as nat * 0xffff_ffff_ffff_ffffnat <= 0xffff_ffff_ffff_ffffnat * 0xffff_ffff_ffff_ffffnat) by (nonlinear_arith)
                        requires i as nat <= 0xffff_ffff_ffff_ffffnat;
                    assert(0xffff_ffff_ffff_ffffnat * 0xffff_ffff_ffff_ffffnat + 0xffff_ffff_ffff_ffffnat <= u128::MAX);
                }
                sum = sum + x as u128;
                count = count + 1;
            } else {
                proof {
                    assert(i as nat * 0xffff_ffff_ffff_ffffnat <= (i as nat + 1) * 0xffff_ffff_ffff_ffffnat) by (nonlinear_arith);
                }
            }
            i += 1;
        }
        FilteredCalc { sum_all: sum, total_history: count }
    }

}

} // verus!
