//! A verified model of a CW20 / ICS-20 bridge contract: an allow list of
//! token contracts, the admin that governs it, and the transfer logic that
//! turns an incoming token deposit into an outgoing ICS-20 packet.

pub mod amount;
pub mod contract;
pub mod env;
pub mod error;
pub mod laws;
pub mod msg;
pub mod response;
pub mod state;
pub mod table;
pub mod test_helpers;
pub mod text;
pub mod time;
