//! The verifier: a configured key, and the path of a ticket from text to
//! accepted claims.

use vstd::prelude::*;
use vstd::string::StringSliceAdditionalSpecFns;
use vstd::utf8::valid_utf8;
use crate::clock::unix_time_now;
use crate::codec::{base64url_decoding, decode_base64url, decode_hex, hex_bytes, is_hex_text};
use crate::error::TicketError;
use crate::payload::{
    check_claims, claims_of_json, claims_outcome, outcome_view, parse_payload, TicketClaims,
    TicketPayload,
};
use crate::signature::{
    check_signature, check_verifying_key, signature_accepts, verifying_key_accepts,
};
use crate::wire::{has_ticket_prefix, split_ticket, starts_with, ticket_parts, TICKET_PREFIX};

verus! {

/// Bytes in the encoding of a verifying key.
pub const KEY_LENGTH: usize = 32;

/// Bytes in a signature.
pub const SIGNATURE_LENGTH: usize = 64;

/// The key that hexadecimal text holds, or why it holds none.
pub open spec fn key_of_hex(text: Seq<char>) -> Result<Seq<u8>, TicketError> {
    if !is_hex_text(text) {
        Err(TicketError::KeyNotHex)
    } else if hex_bytes(text).len() != KEY_LENGTH {
        Err(TicketError::KeyLength)
    } else if !verifying_key_accepts(hex_bytes(text)) {
        Err(TicketError::KeyRejected)
    } else {
        Ok(hex_bytes(text))
    }
}

/// The claims that a ticket makes good under a key: the ticket is parted,
/// both parts are decoded, the signature is checked against the payload
/// bytes as they were decoded, and only then are those bytes read as claims.
/// Each step that fails has an error of its own.
pub open spec fn authentic_claims(key: Option<Seq<u8>>, ticket: Seq<u8>) -> Result<
    TicketClaims,
    TicketError,
> {
    match key {
        None => Err(TicketError::KeyNotConfigured),
        Some(key) => match ticket_parts(ticket) {
            Err(e) => Err(e),
            Ok(parts) => match base64url_decoding(parts.0) {
                None => Err(TicketError::PayloadEncoding),
                Some(payload) => match base64url_decoding(parts.1) {
                    None => Err(TicketError::SignatureEncoding),
                    Some(signature) => if signature.len() != SIGNATURE_LENGTH {
                        Err(TicketError::SignatureLength)
                    } else if !signature_accepts(key, payload, signature) {
                        Err(TicketError::SignatureInvalid)
                    } else {
                        match claims_of_json(payload) {
                            None => Err(TicketError::PayloadStructure),
                            Some(claims) => Ok(claims),
                        }
                    },
                },
            },
        },
    }
}

/// What becomes of a ticket under a key at the time `now`, for a verifier
/// that expects the destination `expected_dst` or, with the empty text, any.
pub open spec fn ticket_outcome(
    key: Option<Seq<u8>>,
    ticket: Seq<u8>,
    now: int,
    expected_dst: Seq<char>,
) -> Result<TicketClaims, TicketError> {
    match authentic_claims(key, ticket) {
        Err(e) => Err(e),
        Ok(claims) => claims_outcome(claims, now, expected_dst),
    }
}

/// Whether `outcome` is what becomes of authentic claims at some time not
/// before the epoch.
pub open spec fn judged_at_some_time(
    claims: TicketClaims,
    expected_dst: Seq<char>,
    outcome: Result<TicketClaims, TicketError>,
) -> bool {
    exists|now: int| 0 <= now && outcome == #[trigger] claims_outcome(claims, now, expected_dst)
}

/// Whether `outcome` is one that a verification by the system clock may
/// have: the error of a ticket that does not authenticate; else
/// `ClockUnreadable`, or what becomes of the claims at some time not before
/// the epoch.
pub open spec fn clocked_outcome(
    key: Option<Seq<u8>>,
    ticket: Seq<u8>,
    expected_dst: Seq<char>,
    outcome: Result<TicketClaims, TicketError>,
) -> bool {
    match authentic_claims(key, ticket) {
        Err(e) => outcome == Err::<TicketClaims, TicketError>(e),
        Ok(claims) => outcome == Err::<TicketClaims, TicketError>(TicketError::ClockUnreadable)
            || judged_at_some_time(claims, expected_dst, outcome),
    }
}

/// Whether the bytes are text that begins with the ticket prefix.
pub open spec fn is_ticket_text(bytes: Seq<u8>) -> bool {
    valid_utf8(bytes) && has_ticket_prefix(bytes)
}

/// The claims that `try_verify_ticket_at` hands out: those of a secret that
/// is ticket text and verifies at the time `now` under the key that the
/// hexadecimal text holds. Every failure on the way gives `None`.
pub open spec fn accepted_claims(
    password: Seq<u8>,
    expected_dst: Seq<char>,
    key_hex: Seq<char>,
    now: int,
) -> Option<TicketClaims> {
    if !is_ticket_text(password) {
        None
    } else {
        match key_of_hex(key_hex) {
            Err(_) => None,
            Ok(key) => match ticket_outcome(Some(key), password, now, expected_dst) {
                Ok(claims) => Some(claims),
                Err(_) => None,
            },
        }
    }
}

/// Whether `outcome` is one that `try_verify_ticket` may have. A secret that
/// is no ticket text, a key that does not load and a ticket that does not
/// authenticate give `None`. Authentic claims are handed out only as they
/// are, and only if they stand at some time not before the epoch.
pub open spec fn clocked_accepted_claims(
    password: Seq<u8>,
    expected_dst: Seq<char>,
    key_hex: Seq<char>,
    outcome: Option<TicketClaims>,
) -> bool {
    if !is_ticket_text(password) {
        outcome is None
    } else {
        match key_of_hex(key_hex) {
            Err(_) => outcome is None,
            Ok(key) => match authentic_claims(Some(key), password) {
                Err(_) => outcome is None,
                Ok(claims) => outcome matches Some(accepted) ==> {
                    &&& accepted == claims
                    &&& judged_at_some_time(
                        claims,
                        expected_dst,
                        Ok::<TicketClaims, TicketError>(claims),
                    )
                },
            },
        }
    }
}

/// The view of what the convenience functions return.
pub open spec fn accepted_view(res: Option<TicketPayload>) -> Option<TicketClaims> {
    match res {
        Some(payload) => Some(payload@),
        None => None,
    }
}

/// The bytes of a slice of known length as an array.
pub fn array_of<const N: usize>(bytes: &[u8]) -> (array: [u8; N])
    requires
        bytes@.len() == N,
    ensures
        array@ == bytes@,
{
    let mut array = [0u8; N];
    let mut i: usize = 0;
    while i < N
        invariant
            i <= N,
            bytes@.len() == N,
            array@.len() == N,
            forall|j: int| 0 <= j < i ==> array@[j] == bytes@[j],
        decreases N - i,
    {
        array[i] = bytes[i];
        i += 1;
    }
    assert(array@ =~= bytes@);
    array
}

/// Checks tickets against one verifying key. It starts without a key;
/// `set_public_key_hex` gives it one.
pub struct TicketVerifier {
    public_key: Option<[u8; 32]>,
}

impl TicketVerifier {
    #[verifier::type_invariant]
    spec fn key_is_sound(self) -> bool {
        self.public_key matches Some(key) ==> verifying_key_accepts(key@)
    }

    /// The encoding of the configured key, if one is configured.
    pub closed spec fn key(&self) -> Option<Seq<u8>> {
        match self.public_key {
            Some(key) => Some(key@),
            None => None,
        }
    }

    /// A verifier without a key.
    pub fn new() -> (verifier: Self)
        ensures
            verifier.key() is None,
    {
        TicketVerifier { public_key: None }
    }

    /// Loads the verifying key from hexadecimal text. The text must spell
    /// exactly 32 bytes and these must encode a verifying key; else the key
    /// held before stays.
    pub fn set_public_key_hex(&mut self, hex_key: &str) -> (res: Result<(), TicketError>)
        ensures
            match key_of_hex(hex_key@) {
                Ok(key) => res is Ok && final(self).key() == Some(key),
                Err(e) => res == Err::<(), TicketError>(e) && final(self).key() == old(self).key(),
            },
    {
        let key_bytes = match decode_hex(hex_key) {
            Ok(bytes) => bytes,
            Err(_) => { return Err(TicketError::KeyNotHex); },
        };
        if key_bytes.len() != KEY_LENGTH {
            return Err(TicketError::KeyLength);
        }
        let key: [u8; 32] = array_of(key_bytes.as_slice());
        match check_verifying_key(&key) {
            Ok(()) => {
                self.public_key = Some(key);
                Ok(())
            },
            Err(_) => Err(TicketError::KeyRejected),
        }
    }

    /// Authenticates a ticket and returns the claims it carries, whatever
    /// they say of expiry and destination.
    pub fn authenticate(&self, ticket: &str) -> (res: Result<TicketPayload, TicketError>)
        ensures
            outcome_view(res) == authentic_claims(self.key(), ticket.spec_bytes()),
    {
        proof {
            use_type_invariant(self);
        }
        let key = match &self.public_key {
            Some(key) => key,
            None => { return Err(TicketError::KeyNotConfigured); },
        };
        let (payload_b64, signature_b64) = match split_ticket(ticket.as_bytes()) {
            Ok(parts) => parts,
            Err(e) => { return Err(e); },
        };
        let payload_bytes = match decode_base64url(payload_b64) {
            Ok(bytes) => bytes,
            Err(_) => { return Err(TicketError::PayloadEncoding); },
        };
        let signature_bytes = match decode_base64url(signature_b64) {
            Ok(bytes) => bytes,
            Err(_) => { return Err(TicketError::SignatureEncoding); },
        };
        if signature_bytes.len() != SIGNATURE_LENGTH {
            return Err(TicketError::SignatureLength);
        }
        let signature: [u8; 64] = array_of(signature_bytes.as_slice());
        match check_signature(key, payload_bytes.as_slice(), &signature) {
            Ok(()) => {},
            Err(_) => { return Err(TicketError::SignatureInvalid); },
        }
        match parse_payload(payload_bytes.as_slice()) {
            Some(payload) => Ok(payload),
            None => Err(TicketError::PayloadStructure),
        }
    }

    /// Verifies a ticket as of the time `now`, in seconds since the Unix
    /// epoch. With a non-empty `my_device_id` the ticket must name it as its
    /// destination.
    pub fn verify_at(&self, ticket: &str, my_device_id: &str, now: i64) -> (res: Result<
        TicketPayload,
        TicketError,
    >)
        ensures
            outcome_view(res) == ticket_outcome(
                self.key(),
                ticket.spec_bytes(),
                now as int,
                my_device_id@,
            ),
    {
        match self.authenticate(ticket) {
            Ok(payload) => check_claims(payload, now, my_device_id),
            Err(e) => Err(e),
        }
    }

    /// Verifies a ticket as of now, by the system clock. A ticket that does
    /// not authenticate fails as it would at any time; an authentic one fails
    /// with `ClockUnreadable` or is judged at one point in time not before
    /// the epoch.
    pub fn verify(&self, ticket: &str, my_device_id: &str) -> (res: Result<
        TicketPayload,
        TicketError,
    >)
        ensures
            clocked_outcome(self.key(), ticket.spec_bytes(), my_device_id@, outcome_view(res)),
    {
        let payload = match self.authenticate(ticket) {
            Ok(payload) => payload,
            Err(e) => { return Err(e); },
        };
        let ghost claims = payload@;
        match unix_time_now() {
            Some(now) => {
                let res = check_claims(payload, now, my_device_id);
                assert(judged_at_some_time(claims, my_device_id@, outcome_view(res))) by {
                    assert(outcome_view(res) == claims_outcome(
                        claims,
                        now as int,
                        my_device_id@,
                    ));
                }
                res
            },
            None => Err(TicketError::ClockUnreadable),
        }
    }
}

/// Whether a secret has the shape of a ticket: it is text and begins with
/// the ticket prefix. Nothing beyond the prefix is looked at.
pub fn is_ticket(password: &[u8]) -> (found: bool)
    ensures
        found == is_ticket_text(password@),
{
    match core::str::from_utf8(password) {
        Ok(text) => starts_with(text.as_bytes(), TICKET_PREFIX.as_bytes()),
        Err(_) => false,
    }
}

/// Reads a secret as ticket text and loads the key into a new verifier.
fn prepare<'a>(password: &'a [u8], public_key_hex: &str) -> (res: Option<(TicketVerifier, &'a str)>)
    ensures
        match res {
            Some(ready) => {
                &&& is_ticket_text(password@)
                &&& key_of_hex(public_key_hex@) matches Ok(key)
                &&& ready.0.key() == Some(key)
                &&& ready.1.spec_bytes() == password@
            },
            None => !is_ticket_text(password@) || key_of_hex(public_key_hex@) is Err,
        },
{
    let ticket = match core::str::from_utf8(password) {
        Ok(text) => text,
        Err(_) => { return None; },
    };
    if !starts_with(ticket.as_bytes(), TICKET_PREFIX.as_bytes()) {
        return None;
    }
    let mut verifier = TicketVerifier::new();
    match verifier.set_public_key_hex(public_key_hex) {
        Ok(()) => Some((verifier, ticket)),
        Err(_) => None,
    }
}

/// Verifies a secret that may be a ticket, as of the time `now` in seconds
/// since the Unix epoch, under the key given in hexadecimal. Whatever goes
/// wrong, the answer is `None`.
pub fn try_verify_ticket_at(
    password: &[u8],
    my_device_id: &str,
    public_key_hex: &str,
    now: i64,
) -> (res: Option<TicketPayload>)
    ensures
        accepted_view(res) == accepted_claims(
            password@,
            my_device_id@,
            public_key_hex@,
            now as int,
        ),
{
    let (verifier, ticket) = match prepare(password, public_key_hex) {
        Some(ready) => ready,
        None => { return None; },
    };
    match verifier.verify_at(ticket, my_device_id, now) {
        Ok(payload) => Some(payload),
        Err(_) => None,
    }
}

/// Verifies a secret that may be a ticket, as of now by the system clock,
/// under the key given in hexadecimal. Whatever goes wrong, the answer is
/// `None`: the caller is to fall back on another way to authenticate.
pub fn try_verify_ticket(password: &[u8], my_device_id: &str, public_key_hex: &str) -> (res: Option<
    TicketPayload,
>)
    ensures
        clocked_accepted_claims(
            password@,
            my_device_id@,
            public_key_hex@,
            accepted_view(res),
        ),
{
    let (verifier, ticket) = match prepare(password, public_key_hex) {
        Some(ready) => ready,
        None => { return None; },
    };
    match verifier.verify(ticket, my_device_id) {
        Ok(payload) => Some(payload),
        Err(_) => None,
    }
}

} // verus!
