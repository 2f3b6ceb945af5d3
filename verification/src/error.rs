//! Why a ticket or a key was turned down.

use vstd::prelude::*;

verus! {

/// The broad class of a failure.
#[derive(Clone, Copy, Debug, PartialEq, Eq, Structural)]
pub enum ErrorKind {
    /// No key is configured, or the key offered is unusable.
    Config,
    /// The ticket text is not laid out as the wire format demands.
    Format,
    /// The signature does not belong to the payload.
    Crypto,
    /// The ticket is past its expiry, grace included.
    Expiry,
    /// The ticket was issued for another device.
    IdentityMismatch,
    /// The system clock could not be read as seconds since the epoch.
    Clock,
}

/// Each way in which loading a key or verifying a ticket can fail.
#[derive(Clone, Copy, Debug, PartialEq, Eq, Structural)]
pub enum TicketError {
    /// `verify` was called before a key was loaded.
    KeyNotConfigured,
    /// The key text is not an even number of hexadecimal digits.
    KeyNotHex,
    /// The key text decodes to some other number of bytes than 32.
    KeyLength,
    /// The 32 bytes are not the encoding of a verifying key.
    KeyRejected,
    /// The ticket does not start with the version prefix.
    MissingPrefix,
    /// No `.` parts payload and signature.
    MissingSeparator,
    /// The payload part is not base64url.
    PayloadEncoding,
    /// The signature part is not base64url.
    SignatureEncoding,
    /// The signature decodes to some other number of bytes than 64.
    SignatureLength,
    /// The signature does not check against the payload.
    SignatureInvalid,
    /// The payload is not a JSON object holding the five claims.
    PayloadStructure,
    /// The clock reads a time that is no count of seconds since the epoch.
    ClockUnreadable,
    /// The ticket expired more than the grace period ago.
    Expired,
    /// The ticket names another destination than the one expected.
    DestinationMismatch,
}

impl TicketError {
    /// The class that a failure falls under.
    pub open spec fn spec_kind(self) -> ErrorKind {
        match self {
            TicketError::KeyNotConfigured => ErrorKind::Config,
            TicketError::KeyNotHex => ErrorKind::Config,
            TicketError::KeyLength => ErrorKind::Config,
            TicketError::KeyRejected => ErrorKind::Config,
            TicketError::MissingPrefix => ErrorKind::Format,
            TicketError::MissingSeparator => ErrorKind::Format,
            TicketError::PayloadEncoding => ErrorKind::Format,
            TicketError::SignatureEncoding => ErrorKind::Format,
            TicketError::SignatureLength => ErrorKind::Format,
            TicketError::PayloadStructure => ErrorKind::Format,
            TicketError::SignatureInvalid => ErrorKind::Crypto,
            TicketError::ClockUnreadable => ErrorKind::Clock,
            TicketError::Expired => ErrorKind::Expiry,
            TicketError::DestinationMismatch => ErrorKind::IdentityMismatch,
        }
    }

    /// The class that a failure falls under.
    #[verifier::when_used_as_spec(spec_kind)]
    pub fn kind(self) -> (kind: ErrorKind)
        ensures
            kind == self.spec_kind(),
    {
        match self {
            TicketError::KeyNotConfigured => ErrorKind::Config,
            TicketError::KeyNotHex => ErrorKind::Config,
            TicketError::KeyLength => ErrorKind::Config,
            TicketError::KeyRejected => ErrorKind::Config,
            TicketError::MissingPrefix => ErrorKind::Format,
            TicketError::MissingSeparator => ErrorKind::Format,
            TicketError::PayloadEncoding => ErrorKind::Format,
            TicketError::SignatureEncoding => ErrorKind::Format,
            TicketError::SignatureLength => ErrorKind::Format,
            TicketError::PayloadStructure => ErrorKind::Format,
            TicketError::SignatureInvalid => ErrorKind::Crypto,
            TicketError::ClockUnreadable => ErrorKind::Clock,
            TicketError::Expired => ErrorKind::Expiry,
            TicketError::DestinationMismatch => ErrorKind::IdentityMismatch,
        }
    }

    /// A description of the failure for a reader.
    pub open spec fn spec_message(self) -> Seq<char> {
        match self {
            TicketError::KeyNotConfigured => "key not configured"@,
            TicketError::KeyNotHex => "public key is not hexadecimal"@,
            TicketError::KeyLength => "public key is not 32 bytes long"@,
            TicketError::KeyRejected => "public key is not a valid verifying key"@,
            TicketError::MissingPrefix => "invalid ticket format: missing prefix"@,
            TicketError::MissingSeparator => "invalid ticket format: missing signature separator"@,
            TicketError::PayloadEncoding => "invalid ticket format: payload is not base64url"@,
            TicketError::SignatureEncoding => "invalid ticket format: signature is not base64url"@,
            TicketError::SignatureLength => "invalid ticket format: signature is not 64 bytes"@,
            TicketError::PayloadStructure => "invalid ticket format: payload holds no claims"@,
            TicketError::SignatureInvalid => "signature verification failed"@,
            TicketError::ClockUnreadable => "system clock is not readable"@,
            TicketError::Expired => "ticket has expired"@,
            TicketError::DestinationMismatch => "ticket was issued for another device"@,
        }
    }

    /// A description of the failure for a reader.
    pub fn message(self) -> (text: String)
        ensures
            text@ == self.spec_message(),
    {
        let text: &str = match self {
            TicketError::KeyNotConfigured => "key not configured",
            TicketError::KeyNotHex => "public key is not hexadecimal",
            TicketError::KeyLength => "public key is not 32 bytes long",
            TicketError::KeyRejected => "public key is not a valid verifying key",
            TicketError::MissingPrefix => "invalid ticket format: missing prefix",
            TicketError::MissingSeparator => "invalid ticket format: missing signature separator",
            TicketError::PayloadEncoding => "invalid ticket format: payload is not base64url",
            TicketError::SignatureEncoding => "invalid ticket format: signature is not base64url",
            TicketError::SignatureLength => "invalid ticket format: signature is not 64 bytes",
            TicketError::PayloadStructure => "invalid ticket format: payload holds no claims",
            TicketError::SignatureInvalid => "signature verification failed",
            TicketError::ClockUnreadable => "system clock is not readable",
            TicketError::Expired => "ticket has expired",
            TicketError::DestinationMismatch => "ticket was issued for another device",
        };
        text.to_owned()
    }
}

} // verus!
