use backend_parking::accounts::{
    new_otp, CreateParkingLotPayload, CreateUserPayload, RegisterPayload, UpdateParkingLot, UpdateUser,
    UserAggregatePayload, OTP_HIGH, OTP_LOW,
};
use backend_parking::model::{EngineError, PaymentType, Role, TicketStatus, UserStatus, VehicleType};
use backend_parking::payment::basic_credential;
use backend_parking::response::{AppFailed, AppSuccess, Body, CurrentUser};
use backend_parking::store::{CreateParkingHistoryPayload, ParkingStore, UpdateParkingHistory};

const T0: i64 = 1_700_000_000;
const OWNER: u128 = 1;
const OTHER_OWNER: u128 = 2;
const LOT1: u128 = 100;
const LOT2: u128 = 200;

fn new_user(phone: &str, role: Role, status: UserStatus, lot: Option<u128>) -> CreateUserPayload {
    CreateUserPayload {
        phone_number: phone.to_string(),
        name: format!("name {}", phone),
        nik: format!("nik {}", phone),
        role,
        status,
        belong_to_parking_lot_id: lot,
    }
}

fn new_lot(owner: u128, car: u64, motor: u64) -> CreateParkingLotPayload {
    CreateParkingLotPayload {
        area_name: "Central".to_string(),
        address: "Main street".to_string(),
        file_name: "central.png".to_string(),
        car_cost: car,
        motor_cost: motor,
        owner_id: owner,
    }
}

fn no_change() -> UpdateParkingHistory {
    UpdateParkingHistory { vehicle_type: None, payment: None, parking_lot_id: None, easypark_id: None, keeper_id: None, owner_id: None }
}

/// Owners 1 and 2, lots 100 (owner 1) and 200 (owner 2), patrons 10 and 11,
/// keepers 20 (lot 100) and 21 (lot 200).
fn populated() -> ParkingStore {
    let mut s = ParkingStore::new();
    s.create_user(new_user("6201", Role::ParkOwner, UserStatus::Active, None), OWNER, T0).unwrap();
    s.create_user(new_user("6202", Role::ParkOwner, UserStatus::Active, None), OTHER_OWNER, T0).unwrap();
    s.create_lot(new_lot(OWNER, 5000, 3000), LOT1, T0).unwrap();
    s.create_lot(new_lot(OTHER_OWNER, 6000, 2000), LOT2, T0).unwrap();
    s.create_user(new_user("6210", Role::Easypark, UserStatus::Active, None), 10, T0).unwrap();
    s.create_user(new_user("6211", Role::Easypark, UserStatus::Active, None), 11, T0).unwrap();
    s.create_user(new_user("6220", Role::ParkKeeper, UserStatus::Active, Some(LOT1)), 20, T0).unwrap();
    s.create_user(new_user("6221", Role::ParkKeeper, UserStatus::Active, Some(LOT2)), 21, T0).unwrap();
    s
}

fn ticket(s: &mut ParkingStore, patron: u128, keeper: u128, lot: u128, id: u128) {
    let p = CreateParkingHistoryPayload {
        vehicle_type: VehicleType::Car,
        payment: PaymentType::Cash,
        parking_lot_id: lot,
        easypark_id: patron,
        keeper_id: keeper,
    };
    s.issue(&p, id, id + 1, T0).unwrap();
}

#[test]
fn new_otp_has_six_digits() {
    for _ in 0..50 {
        let otp = new_otp();
        assert!((100000..1000000).contains(&otp));
    }
}

#[test]
fn register_starts_inactive() {
    let mut s = ParkingStore::new();
    let p = RegisterPayload { phone_number: "628".to_string(), name: "Ana".to_string(), nik: "1".to_string(), role: Role::Easypark };
    let u = s.register(p.clone(), 7).unwrap();
    assert_eq!(u.status, UserStatus::NotActive);
    assert_eq!(u.otp, None);
    assert_eq!(u.parking_lot_id, None);
    assert_eq!(s.find_user(7), Ok(u));
    assert_eq!(s.register(p, 7), Err(EngineError::DuplicateId));
}

#[test]
fn find_user_by_phone_takes_first_match() {
    let mut s = populated();
    assert_eq!(s.find_user_by_phone(&"6210".to_string()).unwrap().id, 10);
    assert_eq!(s.find_user_by_phone(&"0000".to_string()), Err(EngineError::NotFound));
    s.create_user(new_user("6210", Role::Easypark, UserStatus::Active, None), 99, T0).unwrap();
    assert_eq!(s.find_user_by_phone(&"6210".to_string()).unwrap().id, 10);
    assert_eq!(s.find_user(12345), Err(EngineError::NotFound));
}

#[test]
fn update_user_applies_present_fields() {
    let mut s = populated();
    let patch = UpdateUser {
        phone_number: None,
        name: Some("Renamed".to_string()),
        nik: None,
        role: None,
        status: Some(UserStatus::NotActive),
        otp: None,
        created_at: None,
        updated_at: Some(T0 + 9),
        parking_lot_id: None,
    };
    let u = s.update_user(&"6220".to_string(), patch).unwrap();
    assert_eq!(u.id, 20);
    assert_eq!(u.name, "Renamed");
    assert_eq!(u.nik, "nik 6220");
    assert_eq!(u.status, UserStatus::NotActive);
    assert_eq!(u.role, Role::ParkKeeper);
    assert_eq!(u.parking_lot_id, Some(LOT1));
    assert_eq!(u.updated_at, Some(T0 + 9));
    assert_eq!(s.find_user(20), Ok(u));
}

#[test]
fn otp_login_serves_once() {
    let mut s = populated();
    let phone = "6210".to_string();
    let otp = new_otp();
    assert!(otp >= OTP_LOW && otp < OTP_HIGH);
    let u = s.update_otp(&phone, Some(otp)).unwrap();
    assert_eq!(u.otp, Some(otp));
    let wrong = if otp == OTP_LOW { otp + 1 } else { otp - 1 };
    assert_eq!(s.login(&phone, wrong), Err(EngineError::InvalidOtp));
    let signed = s.login(&phone, otp).unwrap();
    assert_eq!(signed.otp, None);
    assert_eq!(s.login(&phone, otp), Err(EngineError::InvalidOtp));
    assert_eq!(s.login(&"0000".to_string(), otp), Err(EngineError::NotFound));
}

#[test]
fn inactive_account_cannot_login_until_activated() {
    let mut s = ParkingStore::new();
    let p = RegisterPayload { phone_number: "628".to_string(), name: "Ana".to_string(), nik: "1".to_string(), role: Role::Easypark };
    s.register(p, 7).unwrap();
    let phone = "628".to_string();
    s.update_otp(&phone, Some(123456)).unwrap();
    assert_eq!(s.login(&phone, 123456), Err(EngineError::AccountNotActive));
    assert_eq!(s.activate_phone_number(&phone, 111111), Err(EngineError::InvalidOtp));
    let active = s.activate_phone_number(&phone, 123456).unwrap();
    assert_eq!(active.status, UserStatus::Active);
    assert_eq!(active.otp, None);
    s.update_otp(&phone, Some(654321)).unwrap();
    assert_eq!(s.login(&phone, 654321).unwrap().id, 7);
    assert_eq!(s.update_status(&phone, UserStatus::NotActive).unwrap().status, UserStatus::NotActive);
    assert_eq!(s.update_otp(&"0".to_string(), None), Err(EngineError::NotFound));
}

#[test]
fn users_listing_filters_by_lot_and_owner() {
    let s = populated();
    let all = UserAggregatePayload { belong_to_parking_lot_id: None, owner_id: None, take: None, skip: None };
    assert_eq!(s.users_count(&all), 2);
    let of_owner = UserAggregatePayload { belong_to_parking_lot_id: None, owner_id: Some(OTHER_OWNER), take: None, skip: None };
    let listed = s.users_aggregate(&of_owner);
    assert_eq!(listed.len(), 1);
    assert_eq!(listed[0].id, 21);
    let of_lot = UserAggregatePayload { belong_to_parking_lot_id: Some(LOT1), owner_id: None, take: None, skip: None };
    assert_eq!(s.users_aggregate(&of_lot)[0].id, 20);
    let page = UserAggregatePayload { belong_to_parking_lot_id: None, owner_id: None, take: Some(1), skip: Some(1) };
    let listed = s.users_aggregate(&page);
    assert_eq!(listed.len(), 1);
    assert_eq!(listed[0].id, 21);
}

#[test]
fn lots_need_an_owner_account() {
    let mut s = populated();
    assert_eq!(s.create_lot(new_lot(10, 1, 1), 300, T0), Err(EngineError::InvalidParticipant));
    assert_eq!(s.create_lot(new_lot(999, 1, 1), 300, T0), Err(EngineError::NotFound));
    assert_eq!(s.create_lot(new_lot(OWNER, 1, 1), LOT1, T0), Err(EngineError::DuplicateId));
    let l = s.create_lot(new_lot(OWNER, 4000, 1000), 300, T0 + 1).unwrap();
    assert_eq!(l.image_url, "central.png");
    assert_eq!(l.created_at, Some(T0 + 1));
    assert_eq!(s.find_lot(300), Ok(l));
    assert_eq!(s.find_lot(301), Err(EngineError::NotFound));
}

#[test]
fn update_lot_applies_present_fields() {
    let mut s = populated();
    let patch = UpdateParkingLot {
        area_name: None,
        address: Some("New address".to_string()),
        image_url: None,
        car_cost: Some(8000),
        motor_cost: None,
        owner_id: None,
        updated_at: Some(T0 + 5),
    };
    let l = s.update_lot(LOT1, patch.clone()).unwrap();
    assert_eq!(l.address, "New address");
    assert_eq!(l.area_name, "Central");
    assert_eq!(l.car_cost, 8000);
    assert_eq!(l.motor_cost, 3000);
    assert_eq!(l.updated_at, Some(T0 + 5));
    assert_eq!(s.update_lot(999, patch.clone()), Err(EngineError::NotFound));
    let mut to_patron = patch;
    to_patron.owner_id = Some(10);
    assert_eq!(s.update_lot(LOT1, to_patron), Err(EngineError::InvalidParticipant));
}

#[test]
fn find_by_owner_counts_assigned_accounts() {
    let s = populated();
    let lots = s.find_by_owner(OWNER);
    assert_eq!(lots.len(), 1);
    assert_eq!(lots[0].lot.id, LOT1);
    assert_eq!(lots[0].keeper_count, 1);
    assert!(s.find_by_owner(10).is_empty());
}

#[test]
fn update_session_changes_given_fields() {
    let mut s = populated();
    ticket(&mut s, 10, 20, LOT1, 1000);
    let mut p = no_change();
    p.vehicle_type = Some(VehicleType::Motor);
    p.keeper_id = Some(21);
    let (session, tx) = s.update_session(1000, &p, T0 + 30).unwrap();
    assert_eq!(session.vehicle_type, VehicleType::Motor);
    assert_eq!(session.keeper_id, 21);
    assert_eq!(session.payment, PaymentType::Cash);
    assert_eq!(session.ticket_status, TicketStatus::Active);
    assert_eq!(session.updated_at, Some(T0 + 30));
    assert_eq!(session.amount, 5000);
    assert_eq!(tx.id, 1001);
}

#[test]
fn update_session_checks_participants() {
    let mut s = populated();
    ticket(&mut s, 10, 20, LOT1, 1000);
    let mut p = no_change();
    p.easypark_id = Some(20);
    assert_eq!(s.update_session(1000, &p, T0), Err(EngineError::InvalidParticipant));
    let mut p = no_change();
    p.keeper_id = Some(10);
    assert_eq!(s.update_session(1000, &p, T0), Err(EngineError::InvalidParticipant));
    let mut p = no_change();
    p.owner_id = Some(10);
    assert_eq!(s.update_session(1000, &p, T0), Err(EngineError::InvalidParticipant));
    let mut p = no_change();
    p.parking_lot_id = Some(LOT2);
    p.owner_id = Some(OWNER);
    assert_eq!(s.update_session(1000, &p, T0), Err(EngineError::InvalidParticipant));
    let mut p = no_change();
    p.parking_lot_id = Some(999);
    assert_eq!(s.update_session(1000, &p, T0), Err(EngineError::NotFound));
    assert_eq!(s.update_session(4242, &no_change(), T0), Err(EngineError::NotFound));
}

#[test]
fn update_session_keeps_one_open_ticket_per_patron() {
    let mut s = populated();
    ticket(&mut s, 10, 20, LOT1, 1000);
    ticket(&mut s, 11, 21, LOT2, 2000);
    let mut p = no_change();
    p.easypark_id = Some(11);
    assert_eq!(s.update_session(1000, &p, T0), Err(EngineError::ConflictAlreadyIssued));
    s.reconcile(backend_parking::model::TransactionCallback {
        transaction_time: None,
        transaction_status: None,
        transaction_id: None,
        status_message: None,
        status_code: None,
        signature_key: None,
        settlement_time: None,
        payment_type: None,
        order_id: Some(2001),
        merchant_id: None,
        gross_amount: None,
        fraud_status: None,
        currency: None,
    }, T0 + 60).unwrap();
    assert_eq!(s.update_session(1000, &p, T0 + 61).unwrap().0.easypark_id, 11);
}

#[test]
fn charge_request_bills_owed_fare() {
    let mut s = populated();
    ticket(&mut s, 10, 20, LOT1, 1000);
    let c = s.charge_request(1000, T0 + 2 * 3600 + 5).unwrap();
    assert_eq!(c.order_id, 1001);
    assert_eq!(c.gross_amount, 15000);
    assert_eq!(c.customer_name, "name 6210");
    assert_eq!(c.customer_phone, "6210");
    assert_eq!(s.charge_request(5, T0), Err(EngineError::NotFound));
}

#[test]
fn basic_credential_encodes_key_and_colon() {
    assert_eq!(basic_credential("abc"), "YWJjOg==");
    assert_eq!(basic_credential(""), "Og==");
    assert_eq!(basic_credential("SB-Mid-server-key"), "U0ItTWlkLXNlcnZlci1rZXk6");
}

#[test]
fn envelopes_and_claims() {
    let ok = AppSuccess(5).into_envelope();
    assert!(ok.success);
    assert_eq!(ok.data, 5);
    let failed = AppFailed("Data not found".to_string()).into_envelope();
    assert!(!failed.success);
    assert_eq!(failed.message, "Data not found");
    assert_eq!(Body(7u8).into_inner(), 7);
    let s = populated();
    let u = s.find_user(10).unwrap();
    let claims = CurrentUser::for_account(&u, 42);
    assert_eq!(claims.sub, "6210");
    assert_eq!(claims.company, "Backend Parking");
    assert_eq!(claims.exp, 42);
}

#[test]
fn lot_detail_lists_assigned_accounts() {
    let mut s = populated();
    s.create_user(new_user("6222", Role::ParkKeeper, UserStatus::Active, Some(LOT1)), 22, T0).unwrap();
    let (lot, members) = s.lot_detail(LOT1).unwrap();
    assert_eq!(lot.id, LOT1);
    assert_eq!(members.iter().map(|u| u.id).collect::<Vec<_>>(), vec![20, 22]);
    assert_eq!(s.lot_detail(999), Err(EngineError::NotFound));
}
