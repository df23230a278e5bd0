//! A verified custodial vault ledger.
//!
//! Users deposit native value into a pooled vault held at a derived, keyless
//! address and later withdraw part of it; a per-user deposit record tracks
//! each user's claim. The account validation, the two ledger transitions,
//! the persisted record layout, and the conservation of value across whole
//! sequences of instructions are all stated as contracts and proved.

pub mod addr;
pub mod accounts;
pub mod codec;
pub mod ledger;
pub mod model;
