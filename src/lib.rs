//! Consensus parameters, transaction checks and peer handshake decisions of a
//! Zcash/Komodo full node, with their contracts proved by Verus.
pub mod parameters;
pub mod transaction;
pub mod error;
pub mod check;
pub mod fee;
pub mod interest;
pub mod verify;
pub mod session;
pub mod handshake;
