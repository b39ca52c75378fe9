//! Signing calls to the ledger and governance services without sending
//! them, keeping the signed envelopes as message records, and sending them
//! later: the records, the rules that accept them, and the decisions of the
//! signing and sending runs.
pub mod agent;
pub mod call_type;
pub mod commands;
pub mod hex_text;
pub mod identity;
pub mod message;
pub mod nns_types;
pub mod options;
pub mod principal;
pub mod request_id;
pub mod send;
pub mod sign;
pub mod sign_session;
pub mod sign_transport;
pub mod timestamp;
