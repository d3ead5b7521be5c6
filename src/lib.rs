//! Parking session lifecycle and fare settlement engine.
//!
//! A patron checks into a lot, accrues a time-based fare and checks out when
//! the payment gateway settles the session's transaction. The store keeps, at
//! every step, at most one open session per patron and exactly one
//! transaction per session.

pub mod model;
pub mod fare;
pub mod amount;
pub mod settlement;
pub mod store;
pub mod report;
pub mod accounts;
pub mod payment;
pub mod response;
pub mod laws;
pub mod platform;
