use backend_parking::amount::parse_amount;
use backend_parking::fare::{compute_fare, forecast_amount, hours_billed, initial_fare};
use backend_parking::model::{
    EngineError, ParkingHistory, ParkingLot, PaymentType, Role, TicketStatus, TransactionCallback,
    TransactionHistory, User, UserStatus, VehicleType,
};
use backend_parking::report::{tally_months, AggregateQuery, CalcQuery};
use backend_parking::settlement::merge_callback;
use backend_parking::store::{CreateParkingHistoryPayload, ParkingStore};

const T0: i64 = 1_700_000_000;
const LOT1: u128 = 100;
const LOT2: u128 = 200;
const OWNER: u128 = 1;
const P1: u128 = 10;
const P2: u128 = 11;
const K1: u128 = 20;
const K2: u128 = 21;

fn lot(id: u128, car: u64, motor: u64, owner: u128) -> ParkingLot {
    ParkingLot {
        id,
        area_name: format!("Area {}", id),
        address: format!("Street {}", id),
        image_url: format!("img-{}.png", id),
        car_cost: car,
        motor_cost: motor,
        owner_id: owner,
        created_at: Some(T0),
        updated_at: None,
    }
}

fn user(id: u128, role: Role, lot: Option<u128>) -> User {
    User {
        id,
        phone_number: format!("62{}", id),
        name: format!("User {}", id),
        nik: format!("nik-{}", id),
        role,
        status: UserStatus::Active,
        otp: None,
        created_at: Some(T0),
        updated_at: None,
        parking_lot_id: lot,
    }
}

fn callback(order_id: Option<u128>) -> TransactionCallback {
    TransactionCallback {
        transaction_time: None,
        transaction_status: None,
        transaction_id: None,
        status_message: None,
        status_code: None,
        signature_key: None,
        settlement_time: None,
        payment_type: None,
        order_id,
        merchant_id: None,
        gross_amount: None,
        fraud_status: None,
        currency: None,
    }
}

fn store() -> ParkingStore {
    let mut s = ParkingStore::new();
    s.add_lot(lot(LOT1, 5000, 3000, OWNER)).unwrap();
    s.add_lot(lot(LOT2, 7000, 2000, OWNER)).unwrap();
    s.add_user(user(OWNER, Role::ParkOwner, None)).unwrap();
    s.add_user(user(P1, Role::Easypark, None)).unwrap();
    s.add_user(user(P2, Role::Easypark, None)).unwrap();
    s.add_user(user(K1, Role::ParkKeeper, Some(LOT1))).unwrap();
    s.add_user(user(K2, Role::ParkKeeper, Some(LOT2))).unwrap();
    s
}

fn request(patron: u128, keeper: u128, lot: u128, v: VehicleType, p: PaymentType) -> CreateParkingHistoryPayload {
    CreateParkingHistoryPayload { vehicle_type: v, payment: p, parking_lot_id: lot, easypark_id: patron, keeper_id: keeper }
}

fn all_sessions() -> AggregateQuery {
    AggregateQuery {
        payment_type: None,
        ticket_status: None,
        easypark_id: None,
        owner_id: None,
        keeper_id: None,
        created_at_start_filter: None,
        created_at_end_filter: None,
        take: None,
        skip: None,
    }
}

#[test]
fn fare_sixty_one_minutes_bills_two_hours() {
    let l = lot(LOT1, 5000, 3000, OWNER);
    assert_eq!(compute_fare(VehicleType::Car, T0, T0 + 61 * 60, &l), 10000);
}

#[test]
fn fare_fifty_nine_minutes_bills_one_hour() {
    let l = lot(LOT1, 5000, 3000, OWNER);
    assert_eq!(compute_fare(VehicleType::Car, T0, T0 + 59 * 60, &l), 5000);
}

#[test]
fn fare_zero_elapsed_bills_one_hour() {
    let l = lot(LOT1, 5000, 3000, OWNER);
    assert_eq!(compute_fare(VehicleType::Car, T0, T0, &l), 5000);
}

#[test]
fn fare_negative_elapsed_bills_one_hour() {
    let l = lot(LOT1, 5000, 3000, OWNER);
    assert_eq!(compute_fare(VehicleType::Motor, T0, T0 - 7200, &l), 3000);
}

#[test]
fn fare_exact_hours_and_classes() {
    let l = lot(LOT1, 5000, 3000, OWNER);
    assert_eq!(compute_fare(VehicleType::Car, T0, T0 + 3600, &l), 5000);
    assert_eq!(compute_fare(VehicleType::Car, T0, T0 + 3601, &l), 10000);
    assert_eq!(compute_fare(VehicleType::Motor, T0, T0 + 3 * 3600, &l), 9000);
    assert_eq!(compute_fare(VehicleType::Default, T0, T0 + 2 * 3600 + 1, &l), 15000);
    assert_eq!(hours_billed(T0, T0 + 10 * 3600 - 1), 10);
    assert_eq!(initial_fare(VehicleType::Default, &l), 5000);
    assert_eq!(initial_fare(VehicleType::Motor, &l), 3000);
}

#[test]
fn fare_largest_inputs_do_not_overflow() {
    let l = lot(LOT1, u64::MAX, u64::MAX, OWNER);
    let hours = ((i64::MAX as i128 - i64::MIN as i128 + 3599) / 3600) as u128;
    assert_eq!(compute_fare(VehicleType::Car, i64::MIN, i64::MAX, &l), hours * u64::MAX as u128);
}

#[test]
fn scenario_issue_conflict_settle_reissue() {
    let mut s = store();
    let (session, tx) = s
        .issue(&request(P1, K1, LOT1, VehicleType::Motor, PaymentType::Qr), 1000, 2000, T0)
        .unwrap();
    assert_eq!(session.ticket_status, TicketStatus::Active);
    assert_eq!(session.amount, 3000);
    assert_eq!(session.owner_id, OWNER);
    assert_eq!(session.transaction_id, 2000);
    assert_eq!(session.check_in_date, Some(T0));
    assert_eq!(session.check_out_date, None);
    assert_eq!(tx, TransactionHistory::pending(2000));

    let again = s.issue(&request(P1, K1, LOT1, VehicleType::Motor, PaymentType::Qr), 1001, 2001, T0 + 5);
    assert_eq!(again, Err(EngineError::ConflictAlreadyIssued));

    let mut cb = callback(Some(tx.id));
    cb.transaction_status = Some("settlement".to_string());
    let (closed, settled) = s.reconcile(cb, T0 + 4000).unwrap();
    assert_eq!(closed.ticket_status, TicketStatus::NotActive);
    assert_eq!(closed.check_out_date, Some(T0 + 4000));
    assert_eq!(settled.transaction_status, Some("settlement".to_string()));

    let third = s.issue(&request(P1, K1, LOT1, VehicleType::Motor, PaymentType::Qr), 1002, 2002, T0 + 5000);
    assert!(third.is_ok());
    assert_eq!(s.sessions().len(), 2);
    assert_eq!(s.transactions().len(), 2);
}

#[test]
fn only_one_of_many_issuance_attempts_succeeds() {
    let mut s = store();
    let mut ok = 0;
    let mut conflicts = 0;
    for k in 0..8u128 {
        let keeper = if k % 2 == 0 { K1 } else { K2 };
        let lot_id = if k % 2 == 0 { LOT1 } else { LOT2 };
        match s.issue(&request(P1, keeper, lot_id, VehicleType::Car, PaymentType::Cash), 1000 + k, 2000 + k, T0) {
            Ok(_) => ok += 1,
            Err(EngineError::ConflictAlreadyIssued) => conflicts += 1,
            Err(e) => panic!("unexpected {:?}", e),
        }
    }
    assert_eq!(ok, 1);
    assert_eq!(conflicts, 7);
    assert_eq!(s.sessions().len(), 1);
}

#[test]
fn issue_rejects_invalid_participants() {
    let mut s = store();
    // the "patron" is a keeper
    assert_eq!(
        s.issue(&request(K1, K1, LOT1, VehicleType::Car, PaymentType::Cash), 1, 2, T0),
        Err(EngineError::InvalidParticipant)
    );
    // the "keeper" is a patron
    assert_eq!(
        s.issue(&request(P1, P2, LOT1, VehicleType::Car, PaymentType::Cash), 1, 2, T0),
        Err(EngineError::InvalidParticipant)
    );
    // the keeper is assigned to another lot
    assert_eq!(
        s.issue(&request(P1, K2, LOT1, VehicleType::Car, PaymentType::Cash), 1, 2, T0),
        Err(EngineError::InvalidParticipant)
    );
    assert_eq!(s.sessions().len(), 0);
    assert_eq!(s.transactions().len(), 0);
}

#[test]
fn issue_reports_missing_records_and_taken_ids() {
    let mut s = store();
    assert_eq!(
        s.issue(&request(999, K1, LOT1, VehicleType::Car, PaymentType::Cash), 1, 2, T0),
        Err(EngineError::NotFound)
    );
    assert_eq!(
        s.issue(&request(P1, 999, LOT1, VehicleType::Car, PaymentType::Cash), 1, 2, T0),
        Err(EngineError::NotFound)
    );
    assert_eq!(
        s.issue(&request(P1, K1, 999, VehicleType::Car, PaymentType::Cash), 1, 2, T0),
        Err(EngineError::NotFound)
    );
    s.issue(&request(P1, K1, LOT1, VehicleType::Car, PaymentType::Cash), 1, 2, T0).unwrap();
    assert_eq!(
        s.issue(&request(P2, K1, LOT1, VehicleType::Car, PaymentType::Cash), 1, 3, T0),
        Err(EngineError::DuplicateId)
    );
    assert_eq!(
        s.issue(&request(P2, K1, LOT1, VehicleType::Car, PaymentType::Cash), 4, 2, T0),
        Err(EngineError::DuplicateId)
    );
    assert_eq!(s.add_user(user(P1, Role::Easypark, None)), Err(EngineError::DuplicateId));
    assert_eq!(s.add_lot(lot(LOT1, 1, 1, OWNER)), Err(EngineError::DuplicateId));
}

#[test]
fn create_draws_fresh_identifiers() {
    let mut s = store();
    let (a, ta) = s.create(&request(P1, K1, LOT1, VehicleType::Car, PaymentType::Qr)).unwrap();
    let (b, tb) = s.create(&request(P2, K2, LOT2, VehicleType::Motor, PaymentType::Cash)).unwrap();
    assert_ne!(a.id, b.id);
    assert_ne!(ta.id, tb.id);
    assert_eq!(a.transaction_id, ta.id);
    assert_eq!(b.amount, 2000);
    assert!(a.check_in_date.unwrap() > T0);
}

#[test]
fn settle_stamps_current_time() {
    let mut s = store();
    let (_, t) = s.issue(&request(P1, K1, LOT1, VehicleType::Car, PaymentType::Qr), 1, 2, T0).unwrap();
    let (closed, _) = s.settle(callback(Some(t.id))).unwrap();
    assert!(closed.check_out_date.unwrap() > T0);
    assert_eq!(closed.ticket_status, TicketStatus::NotActive);
}

#[test]
fn replayed_callback_changes_nothing() {
    let mut s = store();
    let (_, t) = s.issue(&request(P1, K1, LOT1, VehicleType::Car, PaymentType::Qr), 1, 2, T0).unwrap();
    let mut cb = callback(Some(t.id));
    cb.transaction_status = Some("settlement".to_string());
    cb.gross_amount = Some("5000.00".to_string());
    let first = s.reconcile(cb.clone(), T0 + 100).unwrap();
    let sessions: Vec<ParkingHistory> = s.sessions().clone();
    let transactions: Vec<TransactionHistory> = s.transactions().clone();
    let second = s.reconcile(cb, T0 + 999).unwrap();
    assert_eq!(first, second);
    assert_eq!(s.sessions(), &sessions);
    assert_eq!(s.transactions(), &transactions);
    assert_eq!(s.sessions()[0].check_out_date, Some(T0 + 100));
}

#[test]
fn callback_for_unknown_transaction_fails() {
    let mut s = store();
    s.issue(&request(P1, K1, LOT1, VehicleType::Car, PaymentType::Qr), 1, 2, T0).unwrap();
    assert_eq!(s.reconcile(callback(Some(77)), T0), Err(EngineError::UnknownTransaction));
    assert_eq!(s.reconcile(callback(None), T0), Err(EngineError::UnknownTransaction));
    assert_eq!(s.sessions()[0].ticket_status, TicketStatus::Active);
}

#[test]
fn status_only_callback_keeps_other_fields() {
    let mut s = store();
    let (_, t) = s.issue(&request(P1, K1, LOT1, VehicleType::Car, PaymentType::Qr), 1, 2, T0).unwrap();
    let mut full = callback(Some(t.id));
    full.transaction_time = Some("2024-01-01 10:00:00".to_string());
    full.transaction_status = Some("pending".to_string());
    full.transaction_id = Some("gw-1".to_string());
    full.gross_amount = Some("5000.00".to_string());
    full.currency = Some("IDR".to_string());
    full.fraud_status = Some("accept".to_string());
    let (_, before) = s.reconcile(full, T0 + 10).unwrap();
    let mut status_only = callback(Some(t.id));
    status_only.transaction_status = Some("settlement".to_string());
    let (_, after) = s.reconcile(status_only, T0 + 20).unwrap();
    let mut expected = before.clone();
    expected.transaction_status = Some("settlement".to_string());
    assert_eq!(after, expected);
}

#[test]
fn merge_applies_only_present_fields() {
    let mut stored = TransactionHistory::pending(5);
    stored.currency = Some("IDR".to_string());
    let mut cb = callback(None);
    cb.transaction_status = Some("settlement".to_string());
    let merged = merge_callback(&stored, cb);
    assert_eq!(merged.id, 5);
    assert_eq!(merged.currency, Some("IDR".to_string()));
    assert_eq!(merged.transaction_status, Some("settlement".to_string()));
    assert_eq!(merged.order_id, None);
}

#[test]
fn rename_moves_both_references() {
    let mut s = store();
    let (session, t) = s.issue(&request(P1, K1, LOT1, VehicleType::Car, PaymentType::Qr), 1, 2, T0).unwrap();
    let h = s.rename_transaction(t.id, 3, T0 + 61 * 60).unwrap();
    assert_eq!(h.history.id, session.id);
    assert_eq!(h.history.transaction_id, 3);
    assert_eq!(h.total_amount, Some(10000));
    assert!(s.sessions().iter().all(|x| x.transaction_id != 2));
    assert!(s.transactions().iter().all(|x| x.id != 2));
    assert_eq!(s.find_transaction(2), Err(EngineError::NotFound));
    assert_eq!(s.find_transaction(3).unwrap().id, 3);
    // a repeated rename is a no-op
    let again = s.rename_transaction(2, 3, T0 + 61 * 60).unwrap();
    assert_eq!(again, h);
    // the callback now settles under the new identifier
    assert!(s.reconcile(callback(Some(3)), T0 + 7200).is_ok());
}

#[test]
fn rename_errors() {
    let mut s = store();
    s.issue(&request(P1, K1, LOT1, VehicleType::Car, PaymentType::Qr), 1, 2, T0).unwrap();
    s.issue(&request(P2, K2, LOT2, VehicleType::Car, PaymentType::Qr), 3, 4, T0).unwrap();
    assert_eq!(s.rename_transaction(2, 4, T0), Err(EngineError::DuplicateId));
    assert_eq!(s.rename_transaction(8, 9, T0), Err(EngineError::UnknownTransaction));
    assert_eq!(s.rename_transaction(2, 2, T0).unwrap().history.transaction_id, 2);
}

#[test]
fn find_session_and_transaction() {
    let mut s = store();
    let (session, _) = s.issue(&request(P1, K1, LOT1, VehicleType::Car, PaymentType::Qr), 1, 2, T0).unwrap();
    assert_eq!(s.find_session(1), Ok(session));
    assert_eq!(s.find_session(9), Err(EngineError::NotFound));
    assert_eq!(s.find_transaction(2), Ok(TransactionHistory::pending(2)));
}

#[test]
fn forecast_bills_closed_session_to_query_time() {
    let mut s = store();
    let (open, t) = s.issue(&request(P1, K1, LOT1, VehicleType::Car, PaymentType::Qr), 1, 2, T0).unwrap();
    assert_eq!(forecast_amount(&open, T0 + 3 * 3600 + 1), Some(20000));
    let (closed, _) = s.reconcile(callback(Some(t.id)), T0 + 100).unwrap();
    assert_eq!(forecast_amount(&closed, T0 + 7300), Some(15000));
    assert_eq!(forecast_amount(&closed, T0 - 50), Some(5000));
    let listed = s.aggregate(&all_sessions(), T0 + 7300);
    assert_eq!(listed[0].forecast_amount, 15000);
}

#[test]
fn parse_amount_cases() {
    assert_eq!(parse_amount("10000.00"), Some(10000));
    assert_eq!(parse_amount("42"), Some(42));
    assert_eq!(parse_amount("12."), Some(12));
    assert_eq!(parse_amount("18446744073709551615"), Some(u64::MAX));
    assert_eq!(parse_amount("18446744073709551616"), None);
    assert_eq!(parse_amount(""), None);
    assert_eq!(parse_amount(".5"), None);
    assert_eq!(parse_amount("1.2.3"), None);
    assert_eq!(parse_amount("12a"), None);
    assert_eq!(parse_amount("-3"), None);
}

#[test]
fn aggregate_filters_and_pages() {
    let mut s = store();
    s.issue(&request(P1, K1, LOT1, VehicleType::Car, PaymentType::Qr), 1, 2, T0).unwrap();
    s.issue(&request(P2, K2, LOT2, VehicleType::Motor, PaymentType::Cash), 3, 4, T0 + 100).unwrap();
    let mut cb = callback(Some(2));
    cb.gross_amount = Some("10000.00".to_string());
    s.reconcile(cb, T0 + 4000).unwrap();

    let q = all_sessions();
    assert_eq!(s.count(&q).data, Some(2));
    let items = s.aggregate(&q, T0 + 7201);
    assert_eq!(items.len(), 2);
    assert_eq!(items[0].id, 1);
    assert_eq!(items[0].total_amount, 10000);
    // closed at T0 + 4000, still billed to the query time: three started hours
    assert_eq!(items[0].forecast_amount, 15000);
    assert_eq!(items[0].parking_lot.area_name, "Area 100");
    assert_eq!(items[0].easypark.name, "User 10");
    assert_eq!(items[1].forecast_amount, 2 * 2000);
    assert_eq!(items[1].total_amount, 0);

    let mut by_keeper = all_sessions();
    by_keeper.keeper_id = Some(K2);
    let items = s.aggregate(&by_keeper, T0);
    assert_eq!(items.len(), 1);
    assert_eq!(items[0].id, 3);

    let mut patron_first = all_sessions();
    patron_first.easypark_id = Some(P1);
    patron_first.keeper_id = Some(K2);
    let items = s.aggregate(&patron_first, T0);
    assert_eq!(items.len(), 1);
    assert_eq!(items[0].id, 1);

    let mut closed = all_sessions();
    closed.ticket_status = Some(TicketStatus::NotActive);
    assert_eq!(s.count(&closed).data, Some(1));

    let mut cash = all_sessions();
    cash.payment_type = Some(PaymentType::Cash);
    assert_eq!(s.count(&cash).data, Some(1));

    let mut window = all_sessions();
    window.created_at_start_filter = Some(T0 + 50);
    window.created_at_end_filter = Some(T0 + 200);
    assert_eq!(s.count(&window).data, Some(1));

    let mut page = all_sessions();
    page.skip = Some(1);
    page.take = Some(5);
    let items = s.aggregate(&page, T0);
    assert_eq!(items.len(), 1);
    assert_eq!(items[0].id, 3);
    page.skip = Some(10);
    assert_eq!(s.aggregate(&page, T0).len(), 0);
    page.skip = None;
    page.take = Some(1);
    assert_eq!(s.aggregate(&page, T0).len(), 1);
    assert_eq!(s.count(&page).data, Some(2));
}

#[test]
fn active_ticket_lookup() {
    let mut s = store();
    assert_eq!(s.get_active_ticket(P1, T0), Err(EngineError::NotFound));
    s.issue(&request(P1, K1, LOT1, VehicleType::Car, PaymentType::Qr), 1, 2, T0).unwrap();
    let t = s.get_active_ticket(P1, T0 + 30).unwrap();
    assert_eq!(t.id, 1);
    assert_eq!(t.forecast_amount, 5000);
    s.reconcile(callback(Some(2)), T0 + 60).unwrap();
    assert_eq!(s.get_active_ticket(P1, T0 + 90), Err(EngineError::NotFound));
}

#[test]
fn tally_months_in_calendar_order() {
    let records = tally_months(&vec![3, 1, 3, 12, 3]);
    assert_eq!(records.len(), 3);
    assert_eq!(records[0].month.as_deref(), Some("January"));
    assert_eq!(records[0].total_history, Some(1));
    assert_eq!(records[1].month.as_deref(), Some("March"));
    assert_eq!(records[1].total_history, Some(3));
    assert_eq!(records[2].month.as_deref(), Some("December"));
    assert_eq!(records[2].total_history, Some(1));
    assert!(tally_months(&vec![]).is_empty());
}

#[test]
fn monthly_record_counts_current_year_by_month() {
    // 2024-02-10, 2024-02-20, 2024-05-01 and 2023-12-31 (UTC)
    let feb_a: i64 = 1_707_523_200;
    let feb_b: i64 = 1_708_387_200;
    let may: i64 = 1_714_521_600;
    let last_year: i64 = 1_704_000_000;
    let now: i64 = 1_717_200_000; // 2024-06-01
    let mut s = store();
    for (k, t) in [feb_a, feb_b, may, last_year].iter().enumerate() {
        let k = k as u128;
        s.issue(&request(P1, K1, LOT1, VehicleType::Car, PaymentType::Qr), 1000 + k, 2000 + k, *t).unwrap();
        s.reconcile(callback(Some(2000 + k)), *t + 60).unwrap();
    }
    let records = s.monthly_record(OWNER, now);
    assert_eq!(records.len(), 2);
    assert_eq!(records[0].month.as_deref(), Some("February"));
    assert_eq!(records[0].total_history, Some(2));
    assert_eq!(records[1].month.as_deref(), Some("May"));
    assert_eq!(records[1].total_history, Some(1));
    assert!(s.monthly_record(999, now).is_empty());
}

#[test]
fn filtered_calc_sums_settled_amounts() {
    let mut s = store();
    s.issue(&request(P1, K1, LOT1, VehicleType::Car, PaymentType::Cash), 1, 2, T0).unwrap();
    s.issue(&request(P2, K1, LOT1, VehicleType::Car, PaymentType::Qr), 3, 4, T0 + 10).unwrap();
    let mut cb = callback(Some(2));
    cb.gross_amount = Some("10000.00".to_string());
    s.reconcile(cb, T0 + 4000).unwrap();
    let mut cb = callback(Some(4));
    cb.gross_amount = Some("5000".to_string());
    s.reconcile(cb, T0 + 4000).unwrap();

    let owner_scope = CalcQuery { owner_id: Some(OWNER), keeper_id: None, created_at_start_filter: T0, created_at_end_filter: T0 + 100 };
    let r = s.filtered_calc(&owner_scope);
    assert_eq!(r.sum_all, 15000);
    assert_eq!(r.total_history, 2);

    let keeper_cash = CalcQuery { owner_id: None, keeper_id: Some(K1), created_at_start_filter: T0, created_at_end_filter: T0 + 100 };
    let r = s.filtered_calc(&keeper_cash);
    assert_eq!(r.sum_all, 10000);
    assert_eq!(r.total_history, 1);

    let outside = CalcQuery { owner_id: None, keeper_id: None, created_at_start_filter: T0 + 1, created_at_end_filter: T0 + 5 };
    let r = s.filtered_calc(&outside);
    assert_eq!(r.sum_all, 0);
    assert_eq!(r.total_history, 0);
}

#[test]
fn forecast_grows_while_open() {
    let mut s = store();
    let (open, _) = s.issue(&request(P2, K2, LOT2, VehicleType::Car, PaymentType::Qr), 1, 2, T0).unwrap();
    let mut last = 0u128;
    for minutes in [0i64, 30, 60, 61, 119, 121, 600] {
        let f = forecast_amount(&open, T0 + minutes * 60).unwrap();
        assert!(f >= last);
        last = f;
    }
    assert_eq!(last, 10 * 7000);
}
