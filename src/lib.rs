//! Creation phase of a two-party token escrow: the initializer's holding
//! account is handed to a program-derived authority and the terms of the
//! exchange are recorded, both in one all-or-nothing step.

pub mod identity;
pub mod authority;
pub mod escrow;
pub mod initialize;
