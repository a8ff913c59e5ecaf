//! Escrow of payments for agricultural trades between a farmer (seller) and a
//! buyer.
//!
//! A trade moves through a fixed lifecycle:
//!
//! ```text
//! Pending --(deposit)--> Funded --(deliver)--> Delivered --(receipt)--> Completed
//!    |                     |                       |
//!    +--(cancel)--> Cancelled   +----(dispute)-----+--> Disputed
//! ```
//!
//! The buyer locks exactly the agreed price in escrow, the farmer marks the
//! crop delivered, and the payment is released to the farmer only when the
//! buyer confirms receipt. Either party can freeze the funds with a dispute;
//! a trade can be cancelled only while nothing has been paid.
//!
//! Every operation of the escrow is a decision over the stored trade record
//! and the caller: it says whether the caller's authorization must be
//! demanded, and either rejects the request with an [`types::Error`] or yields
//! the new record together with the token transfer and the event that go with
//! it. The host that keeps the records, checks signatures and moves tokens
//! carries those effects out.

pub mod types;
pub mod model;
pub mod contract;
pub mod laws;
