//! A Ledger hardware-wallet signer for Solana: everything it decides, and none
//! of the waiting.
//!
//! The private key never leaves the device, and every signature must be
//! confirmed on the device screen. Device I/O, threads and timers live in the
//! program around this library; it asks the library what to do next and reports
//! what came of it.
//!
//! * [`signer`] opens a signer and starts its commands;
//! * [`traits`] states what every signer offers, and holds the check that no
//!   signature leaves without;
//! * [`request`] and [`health`] govern one exchange with the device thread, and
//!   what callers know of that thread;
//! * [`actor`] decides what the device thread does, [`selection`] which device
//!   it opens, and [`serving`] states what serving a command comes to;
//! * [`envelope`] lays out the bytes that a Ledger signs as an off-chain message;
//! * [`transaction`] places a signature in a transaction.

pub mod actor;
pub mod command;
pub mod derivation;
pub mod envelope;
pub mod error;
pub mod health;
pub mod keys;
pub mod request;
pub mod selection;
pub mod serving;
pub mod signer;
pub mod text;
pub mod timeout;
pub mod traits;
pub mod transaction;
pub mod wallet_error;
