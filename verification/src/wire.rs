//! The outer layout of a ticket: the version prefix, then the encoded payload
//! and the encoded signature with a `.` between them.

use vstd::prelude::*;
use vstd::slice::slice_subrange;
use vstd::string::StringSliceAdditionalSpecFns;
use vstd::utf8::is_ascii_chars_encode_utf8;
use crate::error::TicketError;

verus! {

/// What every ticket begins with. The tag `v1` is the version of the layout.
pub const TICKET_PREFIX: &'static str = "TICKET:v1:";

/// The byte `.`, which no base64url text holds.
pub const SEPARATOR: u8 = 0x2e;

/// The prefix as the bytes that stand at the head of a ticket.
pub open spec fn prefix_bytes() -> Seq<u8> {
    TICKET_PREFIX.spec_bytes()
}

/// Whether the bytes begin with the ticket prefix.
pub open spec fn has_ticket_prefix(bytes: Seq<u8>) -> bool {
    prefix_bytes().is_prefix_of(bytes)
}

/// The index of the last occurrence of `byte`, if it occurs at all.
pub open spec fn last_index_of(bytes: Seq<u8>, byte: u8) -> Option<int>
    decreases bytes.len(),
{
    if bytes.len() == 0 {
        None
    } else if bytes.last() == byte {
        Some(bytes.len() - 1)
    } else {
        last_index_of(bytes.drop_last(), byte)
    }
}

/// The two encoded parts of a ticket: what stands between the prefix and the
/// last `.`, and what follows that `.`.
pub open spec fn ticket_parts(ticket: Seq<u8>) -> Result<(Seq<u8>, Seq<u8>), TicketError> {
    if !has_ticket_prefix(ticket) {
        Err(TicketError::MissingPrefix)
    } else {
        let content = ticket.skip(prefix_bytes().len() as int);
        match last_index_of(content, SEPARATOR) {
            None => Err(TicketError::MissingSeparator),
            Some(dot) => Ok((content.take(dot), content.skip(dot + 1))),
        }
    }
}

/// The prefix is ten bytes of ASCII: `TICKET:v1:`.
pub proof fn lemma_prefix_bytes()
    ensures
        prefix_bytes() == seq![0x54u8, 0x49, 0x43, 0x4b, 0x45, 0x54, 0x3a, 0x76, 0x31, 0x3a],
{
    reveal_strlit("TICKET:v1:");
    is_ascii_chars_encode_utf8(TICKET_PREFIX@);
    assert(prefix_bytes() =~= seq![0x54u8, 0x49, 0x43, 0x4b, 0x45, 0x54, 0x3a, 0x76, 0x31, 0x3a]);
}

/// `last_index_of` finds an occurrence after which there is no other, and
/// finds nothing only where there is none.
pub proof fn lemma_last_index_of(bytes: Seq<u8>, byte: u8)
    ensures
        match last_index_of(bytes, byte) {
            Some(i) => {
                &&& 0 <= i < bytes.len()
                &&& bytes[i] == byte
                &&& forall|j: int| i < j < bytes.len() ==> bytes[j] != byte
            },
            None => forall|j: int| 0 <= j < bytes.len() ==> bytes[j] != byte,
        },
    decreases bytes.len(),
{
    if bytes.len() != 0 && bytes.last() != byte {
        let front = bytes.drop_last();
        lemma_last_index_of(front, byte);
        assert forall|j: int| 0 <= j < front.len() implies front[j] == bytes[j] by {}
    }
}

/// An occurrence after which there is no other is the one that
/// `last_index_of` finds.
pub proof fn lemma_last_index_of_is(bytes: Seq<u8>, byte: u8, i: int)
    requires
        0 <= i < bytes.len(),
        bytes[i] == byte,
        forall|j: int| i < j < bytes.len() ==> bytes[j] != byte,
    ensures
        last_index_of(bytes, byte) == Some(i),
{
    lemma_last_index_of(bytes, byte);
}

/// Whether `bytes` begins with `prefix`.
pub fn starts_with(bytes: &[u8], prefix: &[u8]) -> (found: bool)
    ensures
        found == prefix@.is_prefix_of(bytes@),
{
    if prefix.len() > bytes.len() {
        return false;
    }
    let mut i: usize = 0;
    while i < prefix.len()
        invariant
            i <= prefix.len() <= bytes.len(),
            forall|j: int| 0 <= j < i ==> prefix@[j] == bytes@[j],
        decreases prefix.len() - i,
    {
        if prefix[i] != bytes[i] {
            assert(bytes@.subrange(0, prefix@.len() as int)[i as int] != prefix@[i as int]);
            return false;
        }
        i += 1;
    }
    assert(prefix@ =~= bytes@.subrange(0, prefix@.len() as int));
    true
}

/// The index of the last occurrence of `byte` in `bytes`.
pub fn last_position(bytes: &[u8], byte: u8) -> (found: Option<usize>)
    ensures
        match found {
            Some(i) => last_index_of(bytes@, byte) == Some(i as int),
            None => last_index_of(bytes@, byte) is None,
        },
{
    let mut i: usize = bytes.len();
    while i > 0
        invariant
            i <= bytes.len(),
            forall|j: int| i <= j < bytes.len() ==> bytes@[j] != byte,
        decreases i,
    {
        i -= 1;
        if bytes[i] == byte {
            proof {
                lemma_last_index_of_is(bytes@, byte, i as int);
            }
            return Some(i);
        }
    }
    proof {
        lemma_last_index_of(bytes@, byte);
    }
    None
}

/// Parts a ticket into its encoded payload and its encoded signature.
pub fn split_ticket<'a>(ticket: &'a [u8]) -> (res: Result<(&'a [u8], &'a [u8]), TicketError>)
    ensures
        match ticket_parts(ticket@) {
            Ok(parts) => res matches Ok(found) && found.0@ == parts.0 && found.1@ == parts.1,
            Err(e) => res == Err::<(&[u8], &[u8]), TicketError>(e),
        },
{
    let prefix = TICKET_PREFIX.as_bytes();
    if !starts_with(ticket, prefix) {
        return Err(TicketError::MissingPrefix);
    }
    let content = slice_subrange(ticket, prefix.len(), ticket.len());
    assert(content@ == ticket@.skip(prefix_bytes().len() as int));
    match last_position(content, SEPARATOR) {
        None => Err(TicketError::MissingSeparator),
        Some(dot) => {
            proof {
                lemma_last_index_of(content@, SEPARATOR);
            }
            let payload = slice_subrange(content, 0, dot);
            let signature = slice_subrange(content, dot + 1, content.len());
            assert(payload@ == content@.take(dot as int));
            assert(signature@ == content@.skip(dot + 1));
            Ok((payload, signature))
        },
    }
}

} // verus!
