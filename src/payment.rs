//! What the engine hands to the payment gateway when it asks for a charge.

use vstd::prelude::*;
use vstd::string::StringSliceAdditionalSpecFns;
use crate::fare::{forecast_amount, forecast_of};
use crate::model::{EngineError, Id, ParkingHistory, Timestamp};
use crate::store::{has_session, session_index, user_by_id, ParkingStore};

verus! {

/// The colon byte that ends the user part of a basic-authentication pair.
pub const COLON: u8 = 58;

/// A charge to ask of the gateway for a session.
#[derive(Clone, Debug, PartialEq, Eq)]
pub struct ChargeRequest {
    /// The session's transaction identifier, under which the gateway calls
    /// back.
    pub order_id: Id,
    pub gross_amount: u128,
    pub customer_name: String,
    pub customer_phone: String,
}

/// Standard padded base64 of `b`, as the `base64` crate encodes it.
pub uninterp spec fn base64_of(b: Seq<u8>) -> Seq<char>;

/// Relies on `base64::Engine::encode` with the `STANDARD` engine: the
/// standard padded base64 text of the bytes. It panics only when the encoded
/// length overflows `usize`, which the bound rules out.
#[verifier::external_body]
fn base64_encode(b: &Vec<u8>) -> (r: String)
    requires
        b@.len() <= usize::MAX / 2,
    ensures
        r@ == base64_of(b@),
{
    base64::Engine::encode(&base64::prelude::BASE64_STANDARD, b)
}

/// Credential of the gateway's basic authentication: the server key
/// followed by a colon (an empty password), base64-encoded.
pub fn basic_credential(server_key: &str) -> (r: String)
    requires
        server_key.spec_bytes().len() < usize::MAX / 2,
    ensures
        r@ == base64_of(server_key.spec_bytes().push(COLON)),
{
    let key = server_key.as_bytes();
    let mut b: Vec<u8> = Vec::new();
    let mut i: usize = 0;
    while i < key.len()
        invariant
            key@ == server_key.spec_bytes(),
            i <= key@.len(),
            b@ == key@.take(i as int),
        decreases key@.len() - i,
    {
        b.push(key[i]);
        proof {
            assert(b@ =~= key@.take(i as int + 1));
        }
        i += 1;
    }
    b.push(COLON);
    proof {
        assert(b@ =~= server_key.spec_bytes().push(COLON));
    }
    base64_encode(&b)
}

/// What a session owes at `now`: the fare for every started hour since
/// check-in, or its first-hour amount when it has no check-in time.
pub open spec fn amount_due(s: ParkingHistory, now: Timestamp) -> u128 {
    match forecast_of(s, now) {
        Some(x) => x,
        None => s.amount as u128,
    }
}

impl ParkingStore {
    /// The charge for session `session_id` at `now`: the fare it owes, under
    /// its transaction identifier, for its patron.
    pub fn charge_request(&self, session_id: Id, now: Timestamp) -> (r: Result<ChargeRequest, EngineError>)
        requires
            self@.wf(),
        ensures
            match r {
                Ok(c) => {
                    let s = self@.sessions[session_index(self@.sessions, session_id)];
                    let patron = user_by_id(self@.users, s.easypark_id);
                    &&& has_session(self@.sessions, session_id)
                    &&& c.order_id == s.transaction_id
                    &&& c.gross_amount == amount_due(s, now)
                    &&& c.customer_name == patron.name
                    &&& c.customer_phone == patron.phone_number
                },
                Err(e) => e == EngineError::NotFound && !has_session(self@.sessions, session_id),
            },
    {
        let s = match self.find_session(session_id) {
            Ok(s) => s,
            Err(e) => return Err(e),
        };
        proof {
            let i = session_index(self@.sessions, session_id);
            assert(self@.sessions[i].easypark_id == s.easypark_id);
        }
        let patron = match self.find_user(s.easypark_id) {
            Ok(u) => u,
            Err(e) => return Err(e),
        };
        let gross_amount = match forecast_amount(&s, now) {
            Some(x) => x,
            None => s.amount as u128,
        };
        Ok(ChargeRequest {
            order_id: s.transaction_id,
            gross_amount,
            customer_name: patron.name,
            customer_phone: patron.phone_number,
        })
    }
}

} // verus!
