//! Per-owner persistent records kept at program-derived addresses.
//!
//! The crate holds the decisions of an on-ledger program: how a record is
//! laid out in bytes, which address it lives at, which checks an instruction
//! has to pass, and what is written when it does. Nothing here touches an
//! account: the host program reads the accounts into plain values, calls in,
//! and carries out the plan that comes back.

pub mod address;
pub mod error;
pub mod guard;
pub mod instruction;
pub mod lifecycle;
pub mod state;
pub mod update;
