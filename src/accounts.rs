//! Accounts and lots: registration, lookups, partial updates, one-time
//! passwords and listings.

use vstd::prelude::*;
use crate::model::{EngineError, Id, ParkingLot, Role, Timestamp, User, UserStatus};
use crate::platform::draw_between;
use crate::report::{page_of, paginate};
use crate::store::{has_lot, has_user, lot_by_id, pick, user_by_id, ParkingStore, StoreView};
use crate::settlement::coalesce;

verus! {

/// Smallest one-time password.
pub const OTP_LOW: i32 = 100000;
/// One past the largest one-time password.
pub const OTP_HIGH: i32 = 1000000;

/// A fresh six-digit one-time password, drawn at random.
pub fn new_otp() -> (r: i32)
    ensures
        OTP_LOW <= r < OTP_HIGH,
{
    draw_between(OTP_LOW, OTP_HIGH)
}

/// Self-registration of an account; it starts inactive.
#[derive(Clone, Debug, PartialEq, Eq)]
pub struct RegisterPayload {
    pub phone_number: String,
    pub name: String,
    pub nik: String,
    pub role: Role,
}

/// An account created by an administrator.
#[derive(Clone, Debug, PartialEq, Eq)]
pub struct CreateUserPayload {
    pub phone_number: String,
    pub name: String,
    pub nik: String,
    pub role: Role,
    pub status: UserStatus,
    pub belong_to_parking_lot_id: Option<Id>,
}

/// A partial update of an account: each given field replaces the stored one.
#[derive(Clone, Debug, PartialEq, Eq)]
pub struct UpdateUser {
    pub phone_number: Option<String>,
    pub name: Option<String>,
    pub nik: Option<String>,
    pub role: Option<Role>,
    pub status: Option<UserStatus>,
    pub otp: Option<i32>,
    pub created_at: Option<Timestamp>,
    pub updated_at: Option<Timestamp>,
    pub parking_lot_id: Option<Id>,
}

/// Filters and pagination of an account listing: accounts assigned to an
/// existing lot, optionally one given lot, optionally the lots of one owner.
#[derive(Clone, Copy, Debug, PartialEq, Eq)]
pub struct UserAggregatePayload {
    pub belong_to_parking_lot_id: Option<Id>,
    pub owner_id: Option<Id>,
    pub take: Option<u64>,
    pub skip: Option<u64>,
}

/// A new lot; `file_name` is its picture.
#[derive(Clone, Debug, PartialEq, Eq)]
pub struct CreateParkingLotPayload {
    pub area_name: String,
    pub address: String,
    pub file_name: String,
    pub car_cost: u64,
    pub motor_cost: u64,
    pub owner_id: Id,
}

/// A partial update of a lot: each given field replaces the stored one.
#[derive(Clone, Debug, PartialEq, Eq)]
pub struct UpdateParkingLot {
    pub area_name: Option<String>,
    pub address: Option<String>,
    pub image_url: Option<String>,
    pub car_cost: Option<u64>,
    pub motor_cost: Option<u64>,
    pub owner_id: Option<Id>,
    pub updated_at: Option<Timestamp>,
}

/// A lot with the number of accounts assigned to it.
#[derive(Clone, Debug, PartialEq, Eq)]
pub struct ParkingLotWithCountOfKeeper {
    pub lot: ParkingLot,
    pub keeper_count: u64,
}

/// `i` is the first account with phone number `phone`.
pub open spec fn first_with_phone(users: Seq<User>, phone: Seq<char>, i: int) -> bool {
    &&& 0 <= i < users.len()
    &&& users[i].phone_number@ == phone
    &&& forall|j: int| 0 <= j < i ==> (#[trigger] users[j]).phone_number@ != phone
}

pub open spec fn has_phone(users: Seq<User>, phone: Seq<char>) -> bool {
    exists|i: int| 0 <= i < users.len() && (#[trigger] users[i]).phone_number@ == phone
}

/// Position of the first account with phone number `phone`.
pub open spec fn phone_index(users: Seq<User>, phone: Seq<char>) -> int {
    choose|i: int| first_with_phone(users, phone, i)
}

pub open spec fn registered_user(p: RegisterPayload, id: Id) -> User {
    User {
        id,
        phone_number: p.phone_number,
        name: p.name,
        nik: p.nik,
        role: p.role,
        status: UserStatus::NotActive,
        otp: None,
        created_at: None,
        updated_at: None,
        parking_lot_id: None,
    }
}

pub open spec fn created_user(p: CreateUserPayload, id: Id, now: Timestamp) -> User {
    User {
        id,
        phone_number: p.phone_number,
        name: p.name,
        nik: p.nik,
        role: p.role,
        status: p.status,
        otp: None,
        created_at: Some(now),
        updated_at: None,
        parking_lot_id: p.belong_to_parking_lot_id,
    }
}

/// An account after a partial update; its identifier is kept.
pub open spec fn updated_user(u: User, p: UpdateUser) -> User {
    User {
        id: u.id,
        phone_number: pick(p.phone_number, u.phone_number),
        name: pick(p.name, u.name),
        nik: pick(p.nik, u.nik),
        role: pick(p.role, u.role),
        status: pick(p.status, u.status),
        otp: coalesce(p.otp, u.otp),
        created_at: coalesce(p.created_at, u.created_at),
        updated_at: coalesce(p.updated_at, u.updated_at),
        parking_lot_id: coalesce(p.parking_lot_id, u.parking_lot_id),
    }
}

pub open spec fn created_lot(p: CreateParkingLotPayload, id: Id, now: Timestamp) -> ParkingLot {
    ParkingLot {
        id,
        area_name: p.area_name,
        address: p.address,
        image_url: p.file_name,
        car_cost: p.car_cost,
        motor_cost: p.motor_cost,
        owner_id: p.owner_id,
        created_at: Some(now),
        updated_at: None,
    }
}

/// A lot after a partial update; its identifier and creation time are kept.
pub open spec fn updated_lot(l: ParkingLot, p: UpdateParkingLot) -> ParkingLot {
    ParkingLot {
        id: l.id,
        area_name: pick(p.area_name, l.area_name),
        address: pick(p.address, l.address),
        image_url: pick(p.image_url, l.image_url),
        car_cost: pick(p.car_cost, l.car_cost),
        motor_cost: pick(p.motor_cost, l.motor_cost),
        owner_id: pick(p.owner_id, l.owner_id),
        created_at: l.created_at,
        updated_at: coalesce(p.updated_at, l.updated_at),
    }
}

/// Why `owner` cannot own a lot: missing, or not an owner.
pub open spec fn owner_error(v: StoreView, owner: Id) -> Option<EngineError> {
    if !has_user(v.users, owner) {
        Some(EngineError::NotFound)
    } else if user_by_id(v.users, owner).role != Role::ParkOwner {
        Some(EngineError::InvalidParticipant)
    } else {
        None
    }
}

/// Whether an account appears in a listing.
pub open spec fn user_listed(v: StoreView, q: UserAggregatePayload, u: User) -> bool {
    &&& u.parking_lot_id matches Some(l) && has_lot(v.lots, l)
    &&& (q.belong_to_parking_lot_id matches Some(b) ==> u.parking_lot_id == Some(b))
    &&& (q.owner_id matches Some(o) ==> lot_by_id(v.lots, u.parking_lot_id->0).owner_id == o)
}

/// The accounts of a listing, in the order they were added.
pub open spec fn listed_users(v: StoreView, q: UserAggregatePayload, n: int) -> Seq<User>
    decreases n,
{
    if n <= 0 {
        Seq::empty()
    } else {
        let r = listed_users(v, q, n - 1);
        if user_listed(v, q, v.users[n - 1]) {
            r.push(v.users[n - 1])
        } else {
            r
        }
    }
}

/// Number of the first `n` accounts assigned to `lot`.
pub open spec fn assigned_count(users: Seq<User>, lot: Id, n: int) -> nat
    decreases n,
{
    if n <= 0 {
        0
    } else {
        assigned_count(users, lot, n - 1) + if users[n - 1].parking_lot_id == Some(lot) { 1nat } else { 0nat }
    }
}

/// The lots of `owner` among the first `n`, each with its assigned accounts.
pub open spec fn owner_lots(v: StoreView, owner: Id, n: int) -> Seq<ParkingLotWithCountOfKeeper>
    decreases n,
{
    if n <= 0 {
        Seq::empty()
    } else {
        let r = owner_lots(v, owner, n - 1);
        let l = v.lots[n - 1];
        if l.owner_id == owner {
            r.push(ParkingLotWithCountOfKeeper {
                lot: l,
                keeper_count: assigned_count(v.users, l.id, v.users.len() as int) as u64,
            })
        } else {
            r
        }
    }
}

/// The first `n` accounts assigned to `lot`, in the order they were added.
pub open spec fn assigned_users(users: Seq<User>, lot: Id, n: int) -> Seq<User>
    decreases n,
{
    if n <= 0 {
        Seq::empty()
    } else {
        let r = assigned_users(users, lot, n - 1);
        if users[n - 1].parking_lot_id == Some(lot) {
            r.push(users[n - 1])
        } else {
            r
        }
    }
}

proof fn lemma_assigned_count_le(users: Seq<User>, lot: Id, n: int)
    requires
        0 <= n <= users.len(),
    ensures
        assigned_count(users, lot, n) <= n,
    decreases n,
{
    if n > 0 {
        lemma_assigned_count_le(users, lot, n - 1);
    }
}

impl ParkingStore {
    /// Position of the first account with phone number `phone`.
    fn phone_position(&self, phone: &String) -> (r: Option<usize>)
        ensures
            match r {
                Some(i) => first_with_phone(self@.users, phone@, i as int)
                    && phone_index(self@.users, phone@) == i,
                None => !has_phone(self@.users, phone@),
            },
    {
        let users = self.users();
        let mut i: usize = 0;
        while i < users.len()
            invariant
                users@ == self@.users,
                i <= users@.len(),
                forall|j: int| 0 <= j < i ==> (#[trigger] users@[j]).phone_number@ != phone@,
            decreases users@.len() - i,
        {
            if users[i].phone_number.eq(phone) {
                proof {
                    assert(first_with_phone(users@, phone@, i as int));
                    let k = choose|k: int| first_with_phone(users@, phone@, k);
                    assert(k == i) by {
                        if k < i {
                            assert(users@[k].phone_number@ != phone@);
                        } else if k > i {
                            assert(users@[i as int].phone_number@ != phone@);
                        }
                    }
                }
                return Some(i);
            }
            i += 1;
        }
        None
    }

    /// Registers an inactive account with identifier `id`.
    pub fn register(&mut self, p: RegisterPayload, id: Id) -> (r: Result<User, EngineError>)
        requires
            old(self)@.wf(),
        ensures
            final(self)@.wf(),
            match r {
                Ok(u) => u == registered_user(p, id) && !has_user(old(self)@.users, id)
                    && final(self)@ == (StoreView { users: old(self)@.users.push(u), ..old(self)@ }),
                Err(e) => e == EngineError::DuplicateId && has_user(old(self)@.users, id)
                    && final(self)@ == old(self)@,
            },
    {
        let u = User {
            id,
            phone_number: p.phone_number,
            name: p.name,
            nik: p.nik,
            role: p.role,
            status: UserStatus::NotActive,
            otp: None,
            created_at: None,
            updated_at: None,
            parking_lot_id: None,
        };
        let copy = u.duplicate();
        match self.add_user(u) {
            Ok(()) => Ok(copy),
            Err(e) => Err(e),
        }
    }

    /// Creates an account with identifier `id` at time `now`.
    pub fn create_user(&mut self, p: CreateUserPayload, id: Id, now: Timestamp) -> (r: Result<User, EngineError>)
        requires
            old(self)@.wf(),
        ensures
            final(self)@.wf(),
            match r {
                Ok(u) => u == created_user(p, id, now) && !has_user(old(self)@.users, id)
                    && final(self)@ == (StoreView { users: old(self)@.users.push(u), ..old(self)@ }),
                Err(e) => e == EngineError::DuplicateId && has_user(old(self)@.users, id)
                    && final(self)@ == old(self)@,
            },
    {
        let u = User {
            id,
            phone_number: p.phone_number,
            name: p.name,
            nik: p.nik,
            role: p.role,
            status: p.status,
            otp: None,
            created_at: Some(now),
            updated_at: None,
            parking_lot_id: p.belong_to_parking_lot_id,
        };
        let copy = u.duplicate();
        match self.add_user(u) {
            Ok(()) => Ok(copy),
            Err(e) => Err(e),
        }
    }

    /// The account `id`.
    pub fn find_user(&self, id: Id) -> (r: Result<User, EngineError>)
        requires
            self@.wf(),
        ensures
            match r {
                Ok(u) => has_user(self@.users, id) && u == user_by_id(self@.users, id),
                Err(e) => e == EngineError::NotFound && !has_user(self@.users, id),
            },
    {
        match self.user_position(id) {
            Some(i) => Ok(self.users()[i].duplicate()),
            None => Err(EngineError::NotFound),
        }
    }

    /// The first account with phone number `phone`.
    pub fn find_user_by_phone(&self, phone: &String) -> (r: Result<User, EngineError>)
        ensures
            match r {
                Ok(u) => has_phone(self@.users, phone@) && u == self@.users[phone_index(self@.users, phone@)],
                Err(e) => e == EngineError::NotFound && !has_phone(self@.users, phone@),
            },
    {
        match self.phone_position(phone) {
            Some(i) => Ok(self.users()[i].duplicate()),
            None => Err(EngineError::NotFound),
        }
    }

    /// Replaces account `i`, the first with phone number `phone`, by `u`.
    fn rewrite_by_phone(&mut self, phone: &String, u: User, i: usize)
        requires
            old(self)@.wf(),
            first_with_phone(old(self)@.users, phone@, i as int),
            u.id == old(self)@.users[i as int].id,
        ensures
            final(self)@.wf(),
            final(self)@ == (StoreView { users: old(self)@.users.update(i as int, u), ..old(self)@ }),
    {
        self.replace_user(i, u);
    }

    /// Applies a partial update to the first account with phone number
    /// `phone`.
    pub fn update_user(&mut self, phone: &String, p: UpdateUser) -> (r: Result<User, EngineError>)
        requires
            old(self)@.wf(),
        ensures
            final(self)@.wf(),
            match r {
                Ok(u) => {
                    let i = phone_index(old(self)@.users, phone@);
                    &&& has_phone(old(self)@.users, phone@)
                    &&& u == updated_user(old(self)@.users[i], p)
                    &&& final(self)@ == (StoreView { users: old(self)@.users.update(i, u), ..old(self)@ })
                },
                Err(e) => e == EngineError::NotFound && !has_phone(old(self)@.users, phone@)
                    && final(self)@ == old(self)@,
            },
    {
        let i = match self.phone_position(phone) {
            Some(i) => i,
            None => return Err(EngineError::NotFound),
        };
        let old_user = self.users()[i].duplicate();
        let u = User {
            id: old_user.id,
            phone_number: match p.phone_number {
                Some(x) => x,
                None => old_user.phone_number,
            },
            name: match p.name {
                Some(x) => x,
                None => old_user.name,
            },
            nik: match p.nik {
                Some(x) => x,
                None => old_user.nik,
            },
            role: match p.role {
                Some(x) => x,
                None => old_user.role,
            },
            status: match p.status {
                Some(x) => x,
                None => old_user.status,
            },
            otp: match p.otp {
                Some(x) => Some(x),
                None => old_user.otp,
            },
            created_at: match p.created_at {
                Some(x) => Some(x),
                None => old_user.created_at,
            },
            updated_at: match p.updated_at {
                Some(x) => Some(x),
                None => old_user.updated_at,
            },
            parking_lot_id: match p.parking_lot_id {
                Some(x) => Some(x),
                None => old_user.parking_lot_id,
            },
        };
        let copy = u.duplicate();
        self.rewrite_by_phone(phone, u, i);
        Ok(copy)
    }

    /// Sets the one-time password of the first account with phone number
    /// `phone`; `None` clears it.
    pub fn update_otp(&mut self, phone: &String, otp: Option<i32>) -> (r: Result<User, EngineError>)
        requires
            old(self)@.wf(),
        ensures
            final(self)@.wf(),
            match r {
                Ok(u) => {
                    let i = phone_index(old(self)@.users, phone@);
                    &&& has_phone(old(self)@.users, phone@)
                    &&& u == (User { otp, ..old(self)@.users[i] })
                    &&& final(self)@ == (StoreView { users: old(self)@.users.update(i, u), ..old(self)@ })
                },
                Err(e) => e == EngineError::NotFound && !has_phone(old(self)@.users, phone@)
                    && final(self)@ == old(self)@,
            },
    {
        let i = match self.phone_position(phone) {
            Some(i) => i,
            None => return Err(EngineError::NotFound),
        };
        let mut u = self.users()[i].duplicate();
        u.otp = otp;
        let copy = u.duplicate();
        self.rewrite_by_phone(phone, u, i);
        Ok(copy)
    }

    /// Sets the activation status of the first account with phone number
    /// `phone`.
    pub fn update_status(&mut self, phone: &String, status: UserStatus) -> (r: Result<User, EngineError>)
        requires
            old(self)@.wf(),
        ensures
            final(self)@.wf(),
            match r {
                Ok(u) => {
                    let i = phone_index(old(self)@.users, phone@);
                    &&& has_phone(old(self)@.users, phone@)
                    &&& u == (User { status, ..old(self)@.users[i] })
                    &&& final(self)@ == (StoreView { users: old(self)@.users.update(i, u), ..old(self)@ })
                },
                Err(e) => e == EngineError::NotFound && !has_phone(old(self)@.users, phone@)
                    && final(self)@ == old(self)@,
            },
    {
        let i = match self.phone_position(phone) {
            Some(i) => i,
            None => return Err(EngineError::NotFound),
        };
        let mut u = self.users()[i].duplicate();
        u.status = status;
        let copy = u.duplicate();
        self.rewrite_by_phone(phone, u, i);
        Ok(copy)
    }

    /// Signs in with a one-time password: the first account with phone
    /// number `phone` must be active-or-pending (not deactivated) and hold
    /// exactly `otp`, which is then cleared so that it serves once.
    pub fn login(&mut self, phone: &String, otp: i32) -> (r: Result<User, EngineError>)
        requires
            old(self)@.wf(),
        ensures
            final(self)@.wf(),
            match r {
                Ok(u) => {
                    let i = phone_index(old(self)@.users, phone@);
                    &&& has_phone(old(self)@.users, phone@)
                    &&& old(self)@.users[i].status != UserStatus::NotActive
                    &&& old(self)@.users[i].otp == Some(otp)
                    &&& u == (User { otp: None, ..old(self)@.users[i] })
                    &&& final(self)@ == (StoreView { users: old(self)@.users.update(i, u), ..old(self)@ })
                },
                Err(e) => final(self)@ == old(self)@ && ({
                    let i = phone_index(old(self)@.users, phone@);
                    if !has_phone(old(self)@.users, phone@) {
                        e == EngineError::NotFound
                    } else if old(self)@.users[i].status == UserStatus::NotActive {
                        e == EngineError::AccountNotActive
                    } else {
                        e == EngineError::InvalidOtp && old(self)@.users[i].otp != Some(otp)
                    }
                }),
            },
    {
        let i = match self.phone_position(phone) {
            Some(i) => i,
            None => return Err(EngineError::NotFound),
        };
        if self.users()[i].status == UserStatus::NotActive {
            return Err(EngineError::AccountNotActive);
        }
        if self.users()[i].otp != Some(otp) {
            return Err(EngineError::InvalidOtp);
        }
        self.update_otp(phone, None)
    }

    /// Activates an account with a one-time password: the first account with
    /// phone number `phone` must hold exactly `otp`; it becomes active and
    /// the password is cleared.
    pub fn activate_phone_number(&mut self, phone: &String, otp: i32) -> (r: Result<User, EngineError>)
        requires
            old(self)@.wf(),
        ensures
            final(self)@.wf(),
            match r {
                Ok(u) => {
                    let i = phone_index(old(self)@.users, phone@);
                    &&& has_phone(old(self)@.users, phone@)
                    &&& old(self)@.users[i].otp == Some(otp)
                    &&& u == (User { otp: None, status: UserStatus::Active, ..old(self)@.users[i] })
                    &&& final(self)@ == (StoreView { users: old(self)@.users.update(i, u), ..old(self)@ })
                },
                Err(e) => final(self)@ == old(self)@ && if !has_phone(old(self)@.users, phone@) {
                    e == EngineError::NotFound
                } else {
                    e == EngineError::InvalidOtp
                        && old(self)@.users[phone_index(old(self)@.users, phone@)].otp != Some(otp)
                },
            },
    {
        let i = match self.phone_position(phone) {
            Some(i) => i,
            None => return Err(EngineError::NotFound),
        };
        if self.users()[i].otp != Some(otp) {
            return Err(EngineError::InvalidOtp);
        }
        let mut u = self.users()[i].duplicate();
        u.status = UserStatus::Active;
        u.otp = None;
        let copy = u.duplicate();
        self.rewrite_by_phone(phone, u, i);
        Ok(copy)
    }

    fn listed(&self, q: &UserAggregatePayload, u: &User) -> (r: bool)
        requires
            self@.wf(),
        ensures
            r == user_listed(self@, *q, *u),
    {
        let l = match u.parking_lot_id {
            Some(l) => l,
            None => return false,
        };
        let li = match self.lot_position(l) {
            Some(li) => li,
            None => return false,
        };
        let in_lot = match q.belong_to_parking_lot_id {
            Some(b) => l == b,
            None => true,
        };
        let of_owner = match q.owner_id {
            Some(o) => self.lots()[li].owner_id == o,
            None => true,
        };
        in_lot && of_owner
    }

    fn listed_all(&self, q: &UserAggregatePayload) -> (r: Vec<User>)
        requires
            self@.wf(),
        ensures
            r@ == listed_users(self@, *q, self@.users.len() as int),
    {
        let users = self.users();
        let mut out: Vec<User> = Vec::new();
        let mut i: usize = 0;
        while i < users.len()
            invariant
                self@.wf(),
                users@ == self@.users,
                i <= users@.len(),
                out@ == listed_users(self@, *q, i as int),
            decreases users@.len() - i,
        {
            if self.listed(q, &users[i]) {
                out.push(users[i].duplicate());
            }
            i += 1;
        }
        out
    }

    /// One page of the accounts assigned to an existing lot that match the
    /// listing's filters, in the order they were added.
    pub fn users_aggregate(&self, q: &UserAggregatePayload) -> (r: Vec<User>)
        requires
            self@.wf(),
        ensures
            r@ == page_of(listed_users(self@, *q, self@.users.len() as int), q.skip, q.take),
    {
        paginate(self.listed_all(q), q.skip, q.take)
    }

    /// Number of accounts a listing matches, ignoring its pagination.
    pub fn users_count(&self, q: &UserAggregatePayload) -> (r: u64)
        requires
            self@.wf(),
        ensures
            r as nat == listed_users(self@, *q, self@.users.len() as int).len(),
    {
        self.listed_all(q).len() as u64
    }

    /// The lot `id`.
    pub fn find_lot(&self, id: Id) -> (r: Result<ParkingLot, EngineError>)
        requires
            self@.wf(),
        ensures
            match r {
                Ok(l) => has_lot(self@.lots, id) && l == lot_by_id(self@.lots, id),
                Err(e) => e == EngineError::NotFound && !has_lot(self@.lots, id),
            },
    {
        match self.lot_position(id) {
            Some(i) => Ok(self.lots()[i].duplicate()),
            None => Err(EngineError::NotFound),
        }
    }

    fn owner_check(&self, owner: Id) -> (r: Option<EngineError>)
        requires
            self@.wf(),
        ensures
            r == owner_error(self@, owner),
    {
        match self.user_position(owner) {
            Some(i) => if self.users()[i].role == Role::ParkOwner {
                None
            } else {
                Some(EngineError::InvalidParticipant)
            },
            None => Some(EngineError::NotFound),
        }
    }

    /// Creates a lot with identifier `id` at time `now` for an owner account.
    pub fn create_lot(&mut self, p: CreateParkingLotPayload, id: Id, now: Timestamp) -> (r: Result<ParkingLot, EngineError>)
        requires
            old(self)@.wf(),
        ensures
            final(self)@.wf(),
            match r {
                Ok(l) => {
                    &&& owner_error(old(self)@, p.owner_id) is None
                    &&& !has_lot(old(self)@.lots, id)
                    &&& l == created_lot(p, id, now)
                    &&& final(self)@ == (StoreView { lots: old(self)@.lots.push(l), ..old(self)@ })
                },
                Err(e) => final(self)@ == old(self)@ && if owner_error(old(self)@, p.owner_id) is Some {
                    Some(e) == owner_error(old(self)@, p.owner_id)
                } else {
                    e == EngineError::DuplicateId && has_lot(old(self)@.lots, id)
                },
            },
    {
        if let Some(e) = self.owner_check(p.owner_id) {
            return Err(e);
        }
        let l = ParkingLot {
            id,
            area_name: p.area_name,
            address: p.address,
            image_url: p.file_name,
            car_cost: p.car_cost,
            motor_cost: p.motor_cost,
            owner_id: p.owner_id,
            created_at: Some(now),
            updated_at: None,
        };
        let copy = l.duplicate();
        match self.add_lot(l) {
            Ok(()) => Ok(copy),
            Err(e) => Err(e),
        }
    }

    /// Applies a partial update to lot `id`; a new owner must be an owner
    /// account.
    pub fn update_lot(&mut self, id: Id, p: UpdateParkingLot) -> (r: Result<ParkingLot, EngineError>)
        requires
            old(self)@.wf(),
        ensures
            final(self)@.wf(),
            match r {
                Ok(l) => {
                    let i = choose|i: int| 0 <= i < old(self)@.lots.len() && old(self)@.lots[i].id == id;
                    &&& (p.owner_id matches Some(o) ==> owner_error(old(self)@, o) is None)
                    &&& has_lot(old(self)@.lots, id)
                    &&& l == updated_lot(lot_by_id(old(self)@.lots, id), p)
                    &&& final(self)@ == (StoreView { lots: old(self)@.lots.update(i, l), ..old(self)@ })
                },
                Err(e) => final(self)@ == old(self)@ && if p.owner_id is Some && owner_error(old(self)@, p.owner_id->0) is Some {
                    Some(e) == owner_error(old(self)@, p.owner_id->0)
                } else {
                    e == EngineError::NotFound && !has_lot(old(self)@.lots, id)
                },
            },
    {
        if let Some(o) = p.owner_id {
            if let Some(e) = self.owner_check(o) {
                return Err(e);
            }
        }
        let i = match self.lot_position(id) {
            Some(i) => i,
            None => return Err(EngineError::NotFound),
        };
        let old_lot = self.lots()[i].duplicate();
        let l = ParkingLot {
            id: old_lot.id,
            area_name: match p.area_name {
                Some(x) => x,
                None => old_lot.area_name,
            },
            address: match p.address {
                Some(x) => x,
                None => old_lot.address,
            },
            image_url: match p.image_url {
                Some(x) => x,
                None => old_lot.image_url,
            },
            car_cost: match p.car_cost {
                Some(x) => x,
                None => old_lot.car_cost,
            },
            motor_cost: match p.motor_cost {
                Some(x) => x,
                None => old_lot.motor_cost,
            },
            owner_id: match p.owner_id {
                Some(x) => x,
                None => old_lot.owner_id,
            },
            created_at: old_lot.created_at,
            updated_at: match p.updated_at {
                Some(x) => Some(x),
                None => old_lot.updated_at,
            },
        };
        let copy = l.duplicate();
        proof {
            let k = choose|k: int| 0 <= k < old(self)@.lots.len() && old(self)@.lots[k].id == id;
            assert(k == i as int) by {
                if k != i as int {
                    assert(old(self)@.lots[k].id != old(self)@.lots[i as int].id);
                }
            }
        }
        self.replace_lot(i, l);
        Ok(copy)
    }

    fn assigned(&self, lot: Id) -> (r: u64)
        ensures
            r as nat == assigned_count(self@.users, lot, self@.users.len() as int),
    {
        let users = self.users();
        let mut c: u64 = 0;
        let mut i: usize = 0;
        while i < users.len()
            invariant
                users@ == self@.users,
                i <= users@.len(),
                c as nat == assigned_count(users@, lot, i as int),
            decreases users@.len() - i,
        {
            proof {
                lemma_assigned_count_le(users@, lot, i as int);
            }
            if users[i].parking_lot_id == Some(lot) {
                c += 1;
            }
            i += 1;
        }
        c
    }

    /// The lots of `owner`, in the order they were added, each with the
    /// number of accounts assigned to it.
    pub fn find_by_owner(&self, owner: Id) -> (r: Vec<ParkingLotWithCountOfKeeper>)
        ensures
            r@ == owner_lots(self@, owner, self@.lots.len() as int),
    {
        let lots = self.lots();
        let mut out: Vec<ParkingLotWithCountOfKeeper> = Vec::new();
        let mut i: usize = 0;
        while i < lots.len()
            invariant
                lots@ == self@.lots,
                i <= lots@.len(),
                out@ == owner_lots(self@, owner, i as int),
            decreases lots@.len() - i,
        {
            if lots[i].owner_id == owner {
                let count = self.assigned(lots[i].id);
                out.push(ParkingLotWithCountOfKeeper { lot: lots[i].duplicate(), keeper_count: count });
            }
            i += 1;
        }
        out
    }

    /// Lot `id` with the accounts assigned to it, in the order they were
    /// added.
    pub fn lot_detail(&self, id: Id) -> (r: Result<(ParkingLot, Vec<User>), EngineError>)
        requires
            self@.wf(),
        ensures
            match r {
                Ok((l, members)) => {
                    &&& has_lot(self@.lots, id)
                    &&& l == lot_by_id(self@.lots, id)
                    &&& members@ == assigned_users(self@.users, id, self@.users.len() as int)
                },
                Err(e) => e == EngineError::NotFound && !has_lot(self@.lots, id),
            },
    {
        let lot = match self.find_lot(id) {
            Ok(l) => l,
            Err(e) => return Err(e),
        };
        let users = self.users();
        let mut members: Vec<User> = Vec::new();
        let mut i: usize = 0;
        while i < users.len()
            invariant
                users@ == self@.users,
                i <= users@.len(),
                members@ == assigned_users(users@, id, i as int),
            decreases users@.len() - i,
        {
            if users[i].parking_lot_id == Some(id) {
                members.push(users[i].duplicate());
            }
            i += 1;
        }
        Ok((lot, members))
    }
}

} // verus!
