//! The claims that a ticket carries, and the rules they are held to.

use vstd::prelude::*;
use crate::error::TicketError;
use crate::json::{
    find_integer, find_text, integer_member, json_object, members_view, parse_json_object,
    text_member, JsonField, Members,
};
use crate::text::text_equal;

verus! {

/// Seconds by which a ticket may be past its expiry and still be accepted.
pub const EXPIRY_GRACE_SECONDS: i64 = 30;

/// The claims of a ticket.
#[derive(Debug, Clone)]
pub struct TicketPayload {
    /// The device that asks for the connection.
    pub src_id: String,
    /// The device that the ticket was issued for.
    pub dst_id: String,
    /// When the ticket expires, in seconds since the Unix epoch.
    pub exp: i64,
    /// Randomness chosen at issue. It is carried along and not examined.
    pub nonce: String,
    /// When the ticket was issued, in seconds since the Unix epoch.
    pub iat: i64,
}

/// The claims of a ticket as mathematical values.
pub struct TicketClaims {
    pub src_id: Seq<char>,
    pub dst_id: Seq<char>,
    pub exp: int,
    pub nonce: Seq<char>,
    pub iat: int,
}

impl View for TicketPayload {
    type V = TicketClaims;

    open spec fn view(&self) -> TicketClaims {
        TicketClaims {
            src_id: self.src_id@,
            dst_id: self.dst_id@,
            exp: self.exp as int,
            nonce: self.nonce@,
            iat: self.iat as int,
        }
    }
}

/// The claims that the members of a JSON object spell: `src_id`, `dst_id`
/// and `nonce` as texts, `exp` and `iat` as integers. Other members are
/// passed over.
pub open spec fn claims_of_members(members: Members) -> Option<TicketClaims> {
    if text_member(members, "src_id"@) is Some && text_member(members, "dst_id"@) is Some
        && integer_member(members, "exp"@) is Some && text_member(members, "nonce"@) is Some
        && integer_member(members, "iat"@) is Some {
        Some(
            TicketClaims {
                src_id: text_member(members, "src_id"@).unwrap(),
                dst_id: text_member(members, "dst_id"@).unwrap(),
                exp: integer_member(members, "exp"@).unwrap(),
                nonce: text_member(members, "nonce"@).unwrap(),
                iat: integer_member(members, "iat"@).unwrap(),
            },
        )
    } else {
        None
    }
}

/// The claims that payload bytes spell, where they are a JSON object that
/// holds all five.
pub open spec fn claims_of_json(bytes: Seq<u8>) -> Option<TicketClaims> {
    match json_object(bytes) {
        Some(members) => claims_of_members(members),
        None => None,
    }
}

/// What becomes of authentic claims at the time `now`, for a verifier that
/// expects the destination `expected_dst` or, with the empty text, any.
pub open spec fn claims_outcome(claims: TicketClaims, now: int, expected_dst: Seq<char>) -> Result<
    TicketClaims,
    TicketError,
> {
    if claims.exp < now - EXPIRY_GRACE_SECONDS {
        Err(TicketError::Expired)
    } else if expected_dst.len() != 0 && claims.dst_id != expected_dst {
        Err(TicketError::DestinationMismatch)
    } else {
        Ok(claims)
    }
}

/// The view of the outcome of a verification.
pub open spec fn outcome_view(res: Result<TicketPayload, TicketError>) -> Result<
    TicketClaims,
    TicketError,
> {
    match res {
        Ok(payload) => Ok(payload@),
        Err(e) => Err(e),
    }
}

/// Gathers the five claims from the members of a JSON object.
pub fn payload_from_members(members: &Vec<(String, JsonField)>) -> (res: Option<TicketPayload>)
    ensures
        match res {
            Some(payload) => claims_of_members(members_view(members@)) == Some(payload@),
            None => claims_of_members(members_view(members@)) is None,
        },
{
    let src_id = match find_text(members, "src_id") {
        Some(text) => text,
        None => { return None; },
    };
    let dst_id = match find_text(members, "dst_id") {
        Some(text) => text,
        None => { return None; },
    };
    let exp = match find_integer(members, "exp") {
        Some(value) => value,
        None => { return None; },
    };
    let nonce = match find_text(members, "nonce") {
        Some(text) => text,
        None => { return None; },
    };
    let iat = match find_integer(members, "iat") {
        Some(value) => value,
        None => { return None; },
    };
    Some(TicketPayload { src_id, dst_id, exp, nonce, iat })
}

/// Reads payload bytes as a JSON object and gathers the five claims from it.
pub fn parse_payload(bytes: &[u8]) -> (res: Option<TicketPayload>)
    ensures
        match res {
            Some(payload) => claims_of_json(bytes@) == Some(payload@),
            None => claims_of_json(bytes@) is None,
        },
{
    match parse_json_object(bytes) {
        Ok(members) => payload_from_members(&members),
        Err(_) => None,
    }
}

/// Holds authentic claims to the expiry and destination rules: the ticket is
/// refused once `now` is more than the grace period past its expiry, and
/// else where a destination is expected and it names another.
pub fn check_claims(payload: TicketPayload, now: i64, expected_dst: &str) -> (res: Result<
    TicketPayload,
    TicketError,
>)
    ensures
        outcome_view(res) == claims_outcome(payload@, now as int, expected_dst@),
        res matches Ok(accepted) ==> accepted == payload,
{
    let expired = now >= i64::MIN + EXPIRY_GRACE_SECONDS && payload.exp < now
        - EXPIRY_GRACE_SECONDS;
    if expired {
        Err(TicketError::Expired)
    } else if !expected_dst.is_empty() && !text_equal(payload.dst_id.as_str(), expected_dst) {
        Err(TicketError::DestinationMismatch)
    } else {
        Ok(payload)
    }
}

} // verus!
