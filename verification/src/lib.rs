//! A submission-with-payout protocol for funded survey forms.
//!
//! A form owner funds a pool of value; each distinct respondent receives a
//! fixed per-submission payout at the moment their submission is durably
//! recorded, while the form's remaining payable balance is decremented exactly
//! once per accepted submission. The modules below hold the data model
//! ([`form`], [`submission`]), an in-memory balance ledger ([`ledger`]), the
//! error taxonomy ([`errors`]) and the acceptance protocol itself
//! ([`protocol`]).

pub mod errors;
pub mod form;
pub mod ledger;
pub mod protocol;
pub mod submission;
