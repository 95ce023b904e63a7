//! The dispatch layer of the Coretime broker: which origins may make which
//! call, which operation an admitted call hands on (with which arguments),
//! and what a call reports once that operation has succeeded or failed.

pub mod dispatch;
pub mod error;
pub mod event;
pub mod laws;
pub mod origin;
pub mod pallet;
pub mod types;
