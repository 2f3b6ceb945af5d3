use ticket_verify::{is_ticket, try_verify_ticket, try_verify_ticket_at};

const SOME_KEY: &str = "d75a980182b10ab7d54bfed3c964073a0ee172f3daa62325af021a68f707511a";

#[test]
fn test_is_ticket() {
    assert!(is_ticket(b"TICKET:v1:abc.def"));
    assert!(!is_ticket(b"password123"));
    assert!(!is_ticket(b""));
}

#[test]
fn is_ticket_looks_at_the_prefix_only() {
    assert!(is_ticket(b"TICKET:v1:"));
    assert!(is_ticket(b"TICKET:v1:no separator and not base64 !!"));
    assert!(is_ticket("TICKET:v1:\u{7968}\u{636e}".as_bytes()));
}

#[test]
fn is_ticket_wants_the_whole_prefix_in_its_case() {
    assert!(!is_ticket(b"TICKET:v1"));
    assert!(!is_ticket(b"TICKET:v2:abc.def"));
    assert!(!is_ticket(b"ticket:v1:abc.def"));
    assert!(!is_ticket(b" TICKET:v1:abc.def"));
    assert!(!is_ticket(b"T"));
}

#[test]
fn is_ticket_refuses_bytes_that_are_no_text() {
    assert!(!is_ticket(b"TICKET:v1:\xff\xfe"));
    assert!(!is_ticket(b"\xffTICKET:v1:abc.def"));
    assert!(!is_ticket(b"TICKET:v1:\xc3"));
    assert!(!is_ticket(b"TICKET:v1:\xed\xa0\x80"));
}

#[test]
fn try_verify_ticket_answers_none_for_empty_bytes() {
    assert!(try_verify_ticket(b"", "", SOME_KEY).is_none());
    assert!(try_verify_ticket(b"", "device", "").is_none());
    assert!(try_verify_ticket_at(b"", "", SOME_KEY, 0).is_none());
}

#[test]
fn try_verify_ticket_answers_none_for_bytes_that_are_no_text() {
    assert!(try_verify_ticket(b"TICKET:v1:\xff.\xff", "", SOME_KEY).is_none());
    assert!(try_verify_ticket(b"\x80\x81\x82", "", SOME_KEY).is_none());
    assert!(try_verify_ticket_at(b"TICKET:v1:\xff.\xff", "", SOME_KEY, 0).is_none());
}

#[test]
fn try_verify_ticket_answers_none_for_a_password() {
    assert!(try_verify_ticket(b"password123", "", SOME_KEY).is_none());
    assert!(try_verify_ticket_at(b"password123", "", SOME_KEY, 0).is_none());
}

#[test]
fn try_verify_ticket_answers_none_for_a_malformed_key() {
    let ticket = b"TICKET:v1:abc.def";
    assert!(try_verify_ticket(ticket, "", "").is_none());
    assert!(try_verify_ticket(ticket, "", "not hex at all").is_none());
    assert!(try_verify_ticket(ticket, "", "abc").is_none());
    assert!(try_verify_ticket(ticket, "", "d75a98").is_none());
    assert!(try_verify_ticket(ticket, "", "\u{516c}\u{94a5}").is_none());
    assert!(try_verify_ticket_at(ticket, "", "zz", 0).is_none());
}

#[test]
fn try_verify_ticket_answers_none_for_a_malformed_ticket() {
    assert!(try_verify_ticket(b"TICKET:v1:", "", SOME_KEY).is_none());
    assert!(try_verify_ticket(b"TICKET:v1:abc", "", SOME_KEY).is_none());
    assert!(try_verify_ticket(b"TICKET:v1:abc.def", "", SOME_KEY).is_none());
    assert!(try_verify_ticket(b"TICKET:v1:.", "", SOME_KEY).is_none());
    assert!(try_verify_ticket(b"TICKET:v1:....", "me", SOME_KEY).is_none());
}
