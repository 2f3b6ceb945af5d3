//! Offline verification of signed connection tickets.
//!
//! A ticket is the text `TICKET:v1:<payload>.<signature>`, both parts in
//! base64url without padding. The payload is a JSON object of claims and the
//! signature is an Ed25519 signature over the payload bytes exactly as they
//! were transmitted. This crate checks tickets; it issues none.

pub mod clock;
pub mod codec;
pub mod error;
pub mod json;
pub mod laws;
pub mod payload;
pub mod signature;
pub mod text;
pub mod ticket;
pub mod wire;

pub use error::{ErrorKind, TicketError};
pub use payload::TicketPayload;
pub use ticket::{is_ticket, try_verify_ticket, try_verify_ticket_at, TicketVerifier};
