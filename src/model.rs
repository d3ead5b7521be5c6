use vstd::prelude::*;

verus! {

/// Identifier of any record (a UUID held as its 128-bit value).
pub type Id = u128;

/// A point in time: seconds since 1970-01-01T00:00:00 UTC.
pub type Timestamp = i64;

/// Class of the parked vehicle. `Default` (unspecified) is billed as a car.
#[derive(PartialEq, Eq, Structural, Clone, Copy, Debug)]
pub enum VehicleType {
    Default,
    Car,
    Motor,
}

/// How the patron pays.
#[derive(PartialEq, Eq, Structural, Clone, Copy, Debug)]
pub enum PaymentType {
    Default,
    Cash,
    Qr,
}

/// Lifecycle of a ticket: `Default` is pending, `Active` is open and
/// `NotActive` is closed (terminal).
#[derive(PartialEq, Eq, Structural, Clone, Copy, Debug)]
pub enum TicketStatus {
    Default,
    Active,
    NotActive,
}

/// Role of an account.
#[derive(PartialEq, Eq, Structural, Clone, Copy, Debug)]
pub enum Role {
    Default,
    Easypark,
    ParkKeeper,
    ParkOwner,
}

/// Activation status of an account.
#[derive(PartialEq, Eq, Structural, Clone, Copy, Debug)]
pub enum UserStatus {
    Default,
    Active,
    NotActive,
}

/// Failures of the engine's operations.
#[derive(PartialEq, Eq, Structural, Clone, Copy, Debug)]
pub enum EngineError {
    /// A referenced account has the wrong role, or the keeper is not assigned
    /// to the lot.
    InvalidParticipant,
    /// The patron already holds a pending or active ticket.
    ConflictAlreadyIssued,
    /// No transaction carries the identifier a callback refers to.
    UnknownTransaction,
    /// A looked-up record does not exist.
    NotFound,
    /// A new record would reuse an identifier that is already taken.
    DuplicateId,
    /// The account has not been activated.
    AccountNotActive,
    /// The one-time password is missing or does not match.
    InvalidOtp,
}

/// An open ticket is one that is pending or active.
pub open spec fn is_open_status(s: TicketStatus) -> bool {
    s == TicketStatus::Default || s == TicketStatus::Active
}

/// An account.
#[derive(Clone, Debug, PartialEq, Eq)]
pub struct User {
    pub id: Id,
    pub phone_number: String,
    pub name: String,
    pub nik: String,
    pub role: Role,
    pub status: UserStatus,
    pub otp: Option<i32>,
    pub created_at: Option<Timestamp>,
    pub updated_at: Option<Timestamp>,
    /// The lot a keeper is assigned to.
    pub parking_lot_id: Option<Id>,
}

/// A parking lot with its hourly rate card (whole currency units).
#[derive(Clone, Debug, PartialEq, Eq)]
pub struct ParkingLot {
    pub id: Id,
    pub area_name: String,
    pub address: String,
    pub image_url: String,
    pub car_cost: u64,
    pub motor_cost: u64,
    pub owner_id: Id,
    pub created_at: Option<Timestamp>,
    pub updated_at: Option<Timestamp>,
}

/// A parking session (ticket).
///
/// `amount` is the first-hour charge fixed at issuance; what the gateway
/// finally settled is kept on the transaction (`gross_amount`), so the
/// session's amount never changes after issuance.
#[derive(Clone, Copy, Debug, PartialEq, Eq)]
pub struct ParkingHistory {
    pub id: Id,
    pub ticket_status: TicketStatus,
    pub vehicle_type: VehicleType,
    pub payment: PaymentType,
    pub amount: u64,
    pub parking_lot_id: Id,
    pub easypark_id: Id,
    pub owner_id: Id,
    pub keeper_id: Id,
    pub transaction_id: Id,
    pub created_at: Option<Timestamp>,
    pub updated_at: Option<Timestamp>,
    pub check_in_date: Option<Timestamp>,
    pub check_out_date: Option<Timestamp>,
}

/// The payment-gateway record of a session. All gateway fields are unset
/// until the gateway calls back.
#[derive(Clone, Debug, PartialEq, Eq)]
pub struct TransactionHistory {
    pub id: Id,
    pub transaction_time: Option<String>,
    pub transaction_status: Option<String>,
    pub transaction_id: Option<String>,
    pub status_message: Option<String>,
    pub status_code: Option<String>,
    pub signature_key: Option<String>,
    pub settlement_time: Option<String>,
    pub payment_type: Option<String>,
    pub order_id: Option<Id>,
    pub merchant_id: Option<String>,
    pub gross_amount: Option<String>,
    pub fraud_status: Option<String>,
    pub currency: Option<String>,
}

/// A settlement notification of the payment gateway. `order_id` names the
/// transaction it settles; every other field is applied only when present.
#[derive(Clone, Debug, PartialEq, Eq)]
pub struct TransactionCallback {
    pub transaction_time: Option<String>,
    pub transaction_status: Option<String>,
    pub transaction_id: Option<String>,
    pub status_message: Option<String>,
    pub status_code: Option<String>,
    pub signature_key: Option<String>,
    pub settlement_time: Option<String>,
    pub payment_type: Option<String>,
    pub order_id: Option<Id>,
    pub merchant_id: Option<String>,
    pub gross_amount: Option<String>,
    pub fraud_status: Option<String>,
    pub currency: Option<String>,
}

/// A session together with the fare it owes at the time of the query
/// (`None` while it has no check-in time).
#[derive(Clone, Copy, Debug, PartialEq, Eq)]
pub struct ParkingHistoryWithTotalAmount {
    pub history: ParkingHistory,
    pub total_amount: Option<u128>,
}

/// A copy of an optional string.
pub fn copy_text(s: &Option<String>) -> (r: Option<String>)
    ensures
        r == *s,
{
    match s {
        Some(t) => Some(t.clone()),
        None => None,
    }
}

impl TransactionHistory {
    /// A transaction in its pending shape: only the identifier is set.
    pub fn pending(id: Id) -> (r: TransactionHistory)
        ensures
            r == pending_transaction(id),
    {
        TransactionHistory {
            id,
            transaction_time: None,
            transaction_status: None,
            transaction_id: None,
            status_message: None,
            status_code: None,
            signature_key: None,
            settlement_time: None,
            payment_type: None,
            order_id: None,
            merchant_id: None,
            gross_amount: None,
            fraud_status: None,
            currency: None,
        }
    }

    /// A field-by-field copy.
    pub fn duplicate(&self) -> (r: TransactionHistory)
        ensures
            r == *self,
    {
        TransactionHistory {
            id: self.id,
            transaction_time: copy_text(&self.transaction_time),
            transaction_status: copy_text(&self.transaction_status),
            transaction_id: copy_text(&self.transaction_id),
            status_message: copy_text(&self.status_message),
            status_code: copy_text(&self.status_code),
            signature_key: copy_text(&self.signature_key),
            settlement_time: copy_text(&self.settlement_time),
            payment_type: copy_text(&self.payment_type),
            order_id: self.order_id,
            merchant_id: copy_text(&self.merchant_id),
            gross_amount: copy_text(&self.gross_amount),
            fraud_status: copy_text(&self.fraud_status),
            currency: copy_text(&self.currency),
        }
    }
}

impl User {
    /// A field-by-field copy.
    pub fn duplicate(&self) -> (r: User)
        ensures
            r == *self,
    {
        User {
            id: self.id,
            phone_number: self.phone_number.clone(),
            name: self.name.clone(),
            nik: self.nik.clone(),
            role: self.role,
            status: self.status,
            otp: self.otp,
            created_at: self.created_at,
            updated_at: self.updated_at,
            parking_lot_id: self.parking_lot_id,
        }
    }
}

impl ParkingLot {
    /// A field-by-field copy.
    pub fn duplicate(&self) -> (r: ParkingLot)
        ensures
            r == *self,
    {
        ParkingLot {
            id: self.id,
            area_name: self.area_name.clone(),
            address: self.address.clone(),
            image_url: self.image_url.clone(),
            car_cost: self.car_cost,
            motor_cost: self.motor_cost,
            owner_id: self.owner_id,
            created_at: self.created_at,
            updated_at: self.updated_at,
        }
    }
}

/// The pending shape of a transaction with identifier `id`.
pub open spec fn pending_transaction(id: Id) -> TransactionHistory {
    TransactionHistory {
        id,
        transaction_time: None,
        transaction_status: None,
        transaction_id: None,
        status_message: None,
        status_code: None,
        signature_key: None,
        settlement_time: None,
        payment_type: None,
        order_id: None,
        merchant_id: None,
        gross_amount: None,
        fraud_status: None,
        currency: None,
    }
}

} // verus!
