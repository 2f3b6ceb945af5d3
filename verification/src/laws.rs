//! What holds of every ticket, key and point in time.

use vstd::prelude::*;
use crate::codec::{base64url_decoding, hex_bytes, is_hex_text};
use crate::error::TicketError;
use crate::payload::{claims_of_json, claims_outcome, TicketClaims, EXPIRY_GRACE_SECONDS};
use crate::signature::{signature_accepts, verifying_key_accepts};
use crate::ticket::{authentic_claims, key_of_hex, ticket_outcome, SIGNATURE_LENGTH};
use crate::wire::{
    last_index_of, lemma_last_index_of, lemma_last_index_of_is, prefix_bytes, ticket_parts,
    SEPARATOR,
};

verus! {

/// The text of a ticket with the given encoded parts.
pub open spec fn ticket_text(payload_b64: Seq<u8>, signature_b64: Seq<u8>) -> Seq<u8> {
    prefix_bytes() + payload_b64 + seq![SEPARATOR] + signature_b64
}

/// A ticket put together from two encoded parts comes apart into the same
/// two parts, provided the encoded signature holds no `.`.
pub proof fn lemma_ticket_text_parts(payload_b64: Seq<u8>, signature_b64: Seq<u8>)
    requires
        !signature_b64.contains(SEPARATOR),
    ensures
        ticket_parts(ticket_text(payload_b64, signature_b64)) == Ok::<
            (Seq<u8>, Seq<u8>),
            TicketError,
        >((payload_b64, signature_b64)),
{
    let ticket = ticket_text(payload_b64, signature_b64);
    let prefix = prefix_bytes();
    assert(ticket.subrange(0, prefix.len() as int) =~= prefix);
    let content = ticket.skip(prefix.len() as int);
    assert(content =~= payload_b64 + seq![SEPARATOR] + signature_b64);
    let dot = payload_b64.len() as int;
    assert forall|j: int| dot < j < content.len() implies content[j] != SEPARATOR by {
        assert(content[j] == signature_b64[j - dot - 1]);
    }
    lemma_last_index_of_is(content, SEPARATOR, dot);
    assert(content.take(dot) =~= payload_b64);
    assert(content.skip(dot + 1) =~= signature_b64);
}

/// Round trip. Take claims, the payload bytes that spell them, a signature
/// of 64 bytes that the key passes for those bytes, and the ticket made of
/// both in base64url. At any time up to the grace period past the expiry,
/// and for a verifier that expects no destination or the one the claims
/// name, the ticket verifies and yields those claims unchanged.
pub proof fn lemma_signed_ticket_verifies(
    key: Seq<u8>,
    claims: TicketClaims,
    payload: Seq<u8>,
    signature: Seq<u8>,
    payload_b64: Seq<u8>,
    signature_b64: Seq<u8>,
    now: int,
    expected_dst: Seq<char>,
)
    requires
        claims_of_json(payload) == Some(claims),
        signature.len() == SIGNATURE_LENGTH,
        signature_accepts(key, payload, signature),
        base64url_decoding(payload_b64) == Some(payload),
        base64url_decoding(signature_b64) == Some(signature),
        !signature_b64.contains(SEPARATOR),
        claims.exp >= now - EXPIRY_GRACE_SECONDS,
        expected_dst.len() == 0 || expected_dst == claims.dst_id,
    ensures
        ticket_outcome(Some(key), ticket_text(payload_b64, signature_b64), now, expected_dst)
            == Ok::<TicketClaims, TicketError>(claims),
{
    lemma_ticket_text_parts(payload_b64, signature_b64);
}

/// Only a signed ticket is accepted: where a verification succeeds, the
/// ticket parts into two texts that decode to a payload and to a signature
/// of 64 bytes, the configured key passes that signature for exactly those
/// payload bytes, and the claims handed out are the ones those bytes spell.
pub proof fn lemma_accepted_ticket_is_signed(
    key: Option<Seq<u8>>,
    ticket: Seq<u8>,
    now: int,
    expected_dst: Seq<char>,
)
    requires
        ticket_outcome(key, ticket, now, expected_dst) is Ok,
    ensures
        key is Some,
        ticket_parts(ticket) is Ok,
        base64url_decoding(ticket_parts(ticket).unwrap().0) is Some,
        base64url_decoding(ticket_parts(ticket).unwrap().1) is Some,
        base64url_decoding(ticket_parts(ticket).unwrap().1).unwrap().len() == SIGNATURE_LENGTH,
        signature_accepts(
            key.unwrap(),
            base64url_decoding(ticket_parts(ticket).unwrap().0).unwrap(),
            base64url_decoding(ticket_parts(ticket).unwrap().1).unwrap(),
        ),
        claims_of_json(base64url_decoding(ticket_parts(ticket).unwrap().0).unwrap()) == Some(
            ticket_outcome(key, ticket, now, expected_dst).unwrap(),
        ),
{
}

/// The payload and the signature of a ticket are parted at its last `.`,
/// so the encoded signature of a ticket that parts holds none.
pub proof fn lemma_signature_part_has_no_separator(ticket: Seq<u8>)
    requires
        ticket_parts(ticket) is Ok,
    ensures
        !ticket_parts(ticket).unwrap().1.contains(SEPARATOR),
{
    let content = ticket.skip(prefix_bytes().len() as int);
    lemma_last_index_of(content, SEPARATOR);
    let dot = last_index_of(content, SEPARATOR).unwrap();
    let tail = content.skip(dot + 1);
    assert forall|j: int| 0 <= j < tail.len() implies tail[j] != SEPARATOR by {
        assert(tail[j] == content[dot + 1 + j]);
    }
}

/// Expiry boundary. A ticket is expired at the time `now` exactly when its
/// expiry lies more than the grace period back: with `exp` 30 seconds back
/// it still stands, with `exp` 31 seconds back it is refused as expired.
pub proof fn lemma_expiry_boundary(claims: TicketClaims, now: int, expected_dst: Seq<char>)
    ensures
        claims_outcome(claims, now, expected_dst) == Err::<TicketClaims, TicketError>(
            TicketError::Expired,
        ) <==> claims.exp < now - 30,
        claims.exp == now - 30 ==> claims_outcome(claims, now, Seq::<char>::empty()) == Ok::<
            TicketClaims,
            TicketError,
        >(claims),
        claims.exp == now - 31 ==> claims_outcome(claims, now, expected_dst) == Err::<
            TicketClaims,
            TicketError,
        >(TicketError::Expired),
{
}

/// Destination check. With the empty text as the expected destination the
/// destination that a ticket names is not looked at: the ticket stands or
/// falls by its expiry alone. With any other text, a ticket that names
/// another destination is never accepted, whatever its signature, its expiry
/// or the time.
pub proof fn lemma_destination_check(
    key: Option<Seq<u8>>,
    ticket: Seq<u8>,
    claims: TicketClaims,
    now: int,
    expected_dst: Seq<char>,
)
    ensures
        claims_outcome(claims, now, Seq::<char>::empty()) == if claims.exp < now - 30 {
            Err::<TicketClaims, TicketError>(TicketError::Expired)
        } else {
            Ok::<TicketClaims, TicketError>(claims)
        },
        expected_dst.len() != 0 && claims.dst_id != expected_dst ==> claims_outcome(
            claims,
            now,
            expected_dst,
        ) is Err,
        ticket_outcome(key, ticket, now, expected_dst) matches Ok(accepted) ==> expected_dst.len()
            == 0 || accepted.dst_id == expected_dst,
{
}

/// Key loading. Hexadecimal text holds a key only if it is 64 digits that
/// spell 32 bytes which encode a verifying key; text that is no hexadecimal,
/// that spells another number of bytes, or whose 32 bytes encode no key is
/// turned down, each with its own error.
pub proof fn lemma_key_loading(text: Seq<char>)
    ensures
        key_of_hex(text) matches Ok(key) ==> {
            &&& is_hex_text(text)
            &&& text.len() == 64
            &&& key == hex_bytes(text)
            &&& key.len() == 32
            &&& verifying_key_accepts(key)
        },
        !is_hex_text(text) ==> key_of_hex(text) == Err::<Seq<u8>, TicketError>(
            TicketError::KeyNotHex,
        ),
        is_hex_text(text) && text.len() != 64 ==> key_of_hex(text) == Err::<Seq<u8>, TicketError>(
            TicketError::KeyLength,
        ),
        is_hex_text(text) && text.len() == 64 && !verifying_key_accepts(hex_bytes(text))
            ==> key_of_hex(text) == Err::<Seq<u8>, TicketError>(TicketError::KeyRejected),
{
}

/// A verifier without a key accepts no ticket.
pub proof fn lemma_unconfigured_verifier_refuses(ticket: Seq<u8>, now: int, expected_dst: Seq<char>)
    ensures
        ticket_outcome(None, ticket, now, expected_dst) == Err::<TicketClaims, TicketError>(
            TicketError::KeyNotConfigured,
        ),
        authentic_claims(None, ticket) == Err::<TicketClaims, TicketError>(
            TicketError::KeyNotConfigured,
        ),
{
}

} // verus!
