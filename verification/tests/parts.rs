use ticket_verify::clock::{seconds_to_time, unix_time_now};
use ticket_verify::json::{find_integer, find_member, find_text, JsonField};
use ticket_verify::payload::{
    check_claims, parse_payload, payload_from_members, EXPIRY_GRACE_SECONDS,
};
use ticket_verify::text::{bytes_equal, text_equal};
use ticket_verify::ticket::{array_of, KEY_LENGTH, SIGNATURE_LENGTH};
use ticket_verify::wire::{last_position, split_ticket, starts_with, SEPARATOR, TICKET_PREFIX};
use ticket_verify::{TicketError, TicketPayload};

fn claims(dst: &str, exp: i64) -> TicketPayload {
    TicketPayload {
        src_id: "src".to_string(),
        dst_id: dst.to_string(),
        exp,
        nonce: "nonce".to_string(),
        iat: 5,
    }
}

fn members() -> Vec<(String, JsonField)> {
    vec![
        ("dst_id".to_string(), JsonField::Text("d".to_string())),
        ("exp".to_string(), JsonField::Number(Some(100))),
        ("iat".to_string(), JsonField::Number(Some(-7))),
        ("nonce".to_string(), JsonField::Text("n".to_string())),
        ("src_id".to_string(), JsonField::Text("s".to_string())),
    ]
}

#[test]
fn the_constants_are_those_of_the_wire_format() {
    assert_eq!(TICKET_PREFIX, "TICKET:v1:");
    assert_eq!(SEPARATOR, b'.');
    assert_eq!(KEY_LENGTH, 32);
    assert_eq!(SIGNATURE_LENGTH, 64);
    assert_eq!(EXPIRY_GRACE_SECONDS, 30);
}

#[test]
fn starts_with_compares_the_head() {
    assert!(starts_with(b"TICKET:v1:abc", b"TICKET:v1:"));
    assert!(starts_with(b"abc", b""));
    assert!(starts_with(b"", b""));
    assert!(starts_with(b"abc", b"abc"));
    assert!(!starts_with(b"ab", b"abc"));
    assert!(!starts_with(b"", b"a"));
    assert!(!starts_with(b"abd", b"abc"));
    assert!(!starts_with(b"xbc", b"abc"));
}

#[test]
fn last_position_finds_the_last_occurrence() {
    assert_eq!(last_position(b"a.b.c", b'.'), Some(3));
    assert_eq!(last_position(b".", b'.'), Some(0));
    assert_eq!(last_position(b"..", b'.'), Some(1));
    assert_eq!(last_position(b"abc.", b'.'), Some(3));
    assert_eq!(last_position(b".abc", b'.'), Some(0));
    assert_eq!(last_position(b"abc", b'.'), None);
    assert_eq!(last_position(b"", b'.'), None);
}

#[test]
fn split_ticket_parts_at_the_last_separator() {
    let (payload, signature) = split_ticket(b"TICKET:v1:abc.def").unwrap();
    assert_eq!(payload, b"abc");
    assert_eq!(signature, b"def");
    let (payload, signature) = split_ticket(b"TICKET:v1:a.b.c").unwrap();
    assert_eq!(payload, b"a.b");
    assert_eq!(signature, b"c");
    let (payload, signature) = split_ticket(b"TICKET:v1:.").unwrap();
    assert_eq!(payload, b"");
    assert_eq!(signature, b"");
    let (payload, signature) = split_ticket(b"TICKET:v1:abc.").unwrap();
    assert_eq!(payload, b"abc");
    assert_eq!(signature, b"");
    let (payload, signature) = split_ticket(b"TICKET:v1:.def").unwrap();
    assert_eq!(payload, b"");
    assert_eq!(signature, b"def");
}

#[test]
fn split_ticket_names_what_is_missing() {
    assert_eq!(split_ticket(b"abc.def").unwrap_err(), TicketError::MissingPrefix);
    assert_eq!(split_ticket(b"").unwrap_err(), TicketError::MissingPrefix);
    assert_eq!(split_ticket(b"TICKET.v1:abc.def").unwrap_err(), TicketError::MissingPrefix);
    assert_eq!(split_ticket(b"TICKET:v1:").unwrap_err(), TicketError::MissingSeparator);
    assert_eq!(split_ticket(b"TICKET:v1:abcdef").unwrap_err(), TicketError::MissingSeparator);
}

#[test]
fn texts_and_bytes_compare_by_content() {
    assert!(bytes_equal(b"", b""));
    assert!(bytes_equal(b"abc", b"abc"));
    assert!(!bytes_equal(b"abc", b"abd"));
    assert!(!bytes_equal(b"abc", b"ab"));
    assert!(!bytes_equal(b"", b"a"));
    assert!(text_equal("", ""));
    assert!(text_equal("device-9", "device-9"));
    assert!(text_equal("\u{8bbe}\u{5907}", "\u{8bbe}\u{5907}"));
    assert!(!text_equal("\u{8bbe}\u{5907}", "\u{8bbe}\u{5908}"));
    assert!(!text_equal("device-9", "device-8"));
    assert!(!text_equal("device-9", "Device-9"));
    assert!(!text_equal("a", ""));
}

#[test]
fn array_of_copies_the_bytes() {
    let bytes: Vec<u8> = (0u8..32).collect();
    let array: [u8; 32] = array_of(&bytes);
    assert_eq!(array.to_vec(), bytes);
    let bytes: Vec<u8> = (100u8..164).collect();
    let array: [u8; 64] = array_of(&bytes);
    assert_eq!(array.to_vec(), bytes);
    let array: [u8; 0] = array_of(&[]);
    assert_eq!(array.len(), 0);
}

#[test]
fn members_are_found_by_name() {
    let members = members();
    assert!(matches!(find_member(&members, "exp"), Some(JsonField::Number(Some(100)))));
    assert!(matches!(find_member(&members, "dst_id"), Some(JsonField::Text(_))));
    assert!(find_member(&members, "EXP").is_none());
    assert!(find_member(&members, "").is_none());
    assert_eq!(find_text(&members, "src_id"), Some("s".to_string()));
    assert_eq!(find_text(&members, "nonce"), Some("n".to_string()));
    assert_eq!(find_text(&members, "exp"), None);
    assert_eq!(find_text(&members, "absent"), None);
    assert_eq!(find_integer(&members, "exp"), Some(100));
    assert_eq!(find_integer(&members, "iat"), Some(-7));
    assert_eq!(find_integer(&members, "src_id"), None);
    assert_eq!(find_integer(&members, "absent"), None);
}

#[test]
fn the_first_member_of_a_name_is_the_one_found() {
    let members = vec![
        ("k".to_string(), JsonField::Number(Some(1))),
        ("k".to_string(), JsonField::Number(Some(2))),
        ("t".to_string(), JsonField::Null),
        ("t".to_string(), JsonField::Text("late".to_string())),
    ];
    assert_eq!(find_integer(&members, "k"), Some(1));
    assert_eq!(find_text(&members, "t"), None);
}

#[test]
fn members_of_other_kinds_are_neither_text_nor_integer() {
    let members = vec![
        ("null".to_string(), JsonField::Null),
        ("bool".to_string(), JsonField::Bool(true)),
        ("big".to_string(), JsonField::Number(None)),
        ("array".to_string(), JsonField::Array),
        ("object".to_string(), JsonField::Object),
    ];
    for name in ["null", "bool", "big", "array", "object"] {
        assert!(find_member(&members, name).is_some());
        assert_eq!(find_text(&members, name), None);
        assert_eq!(find_integer(&members, name), None);
    }
}

#[test]
fn the_five_claims_are_gathered_from_the_members() {
    let payload = payload_from_members(&members()).unwrap();
    assert_eq!(payload.src_id, "s");
    assert_eq!(payload.dst_id, "d");
    assert_eq!(payload.exp, 100);
    assert_eq!(payload.nonce, "n");
    assert_eq!(payload.iat, -7);
    for missing in 0..5 {
        let mut fewer = members();
        fewer.remove(missing);
        assert!(payload_from_members(&fewer).is_none());
    }
    let mut wrong = members();
    wrong[1].1 = JsonField::Text("100".to_string());
    assert!(payload_from_members(&wrong).is_none());
    let mut wrong = members();
    wrong[0].1 = JsonField::Number(Some(1));
    assert!(payload_from_members(&wrong).is_none());
    assert!(payload_from_members(&Vec::new()).is_none());
}

#[test]
fn payload_bytes_are_read_as_a_json_object() {
    let payload = parse_payload(
        b"{\"src_id\":\"s\",\"dst_id\":\"d\",\"exp\":100,\"nonce\":\"n\",\"iat\":-7,\"deep\":{\"exp\":1}}",
    )
    .unwrap();
    assert_eq!(payload.src_id, "s");
    assert_eq!(payload.dst_id, "d");
    assert_eq!(payload.exp, 100);
    assert_eq!(payload.nonce, "n");
    assert_eq!(payload.iat, -7);
    assert!(parse_payload(b"").is_none());
    assert!(parse_payload(b"[]").is_none());
    assert!(parse_payload(b"{\"src_id\":\"s\"}").is_none());
    assert!(parse_payload(b"{\"src_id\":\"s\",\"dst_id\":\"d\",\"exp\":true,\"nonce\":\"n\",\"iat\":1}").is_none());
    assert!(parse_payload(b"{\"src_id\":\"s\",\"dst_id\":\"d\",\"exp\":1e3,\"nonce\":\"n\",\"iat\":1}").is_none());
}

#[test]
fn claims_stand_until_the_grace_period_is_over() {
    assert!(check_claims(claims("d", 1000), 1000, "").is_ok());
    assert!(check_claims(claims("d", 1000), 1029, "").is_ok());
    assert!(check_claims(claims("d", 1000), 1030, "").is_ok());
    assert_eq!(check_claims(claims("d", 1000), 1031, "").unwrap_err(), TicketError::Expired);
    assert_eq!(check_claims(claims("d", 1000), i64::MAX, "").unwrap_err(), TicketError::Expired);
    assert!(check_claims(claims("d", 1000), -5, "").is_ok());
    assert!(check_claims(claims("d", 1000), i64::MIN, "").is_ok());
    assert!(check_claims(claims("d", i64::MIN), i64::MIN + 29, "").is_ok());
    assert!(check_claims(claims("d", -31), 0, "").is_err());
    assert!(check_claims(claims("d", -30), 0, "").is_ok());
}

#[test]
fn claims_are_held_to_the_expected_destination() {
    let accepted = check_claims(claims("d", 1000), 1000, "d").unwrap();
    assert_eq!(accepted.dst_id, "d");
    assert_eq!(accepted.src_id, "src");
    assert_eq!(accepted.nonce, "nonce");
    assert_eq!(accepted.exp, 1000);
    assert_eq!(accepted.iat, 5);
    assert_eq!(check_claims(claims("d", 1000), 1000, "e").unwrap_err(), TicketError::DestinationMismatch);
    assert_eq!(check_claims(claims("", 1000), 1000, "e").unwrap_err(), TicketError::DestinationMismatch);
    assert!(check_claims(claims("", 1000), 1000, "").is_ok());
    assert!(check_claims(claims("anything", 1000), 1000, "").is_ok());
    assert_eq!(check_claims(claims("d", 1000), 1031, "e").unwrap_err(), TicketError::Expired);
}

#[test]
fn the_clock_reads_a_time_after_the_epoch() {
    let now = unix_time_now().unwrap();
    assert!(now > 1_600_000_000);
    let later = unix_time_now().unwrap();
    assert!(later >= now - 1);
}

#[test]
fn seconds_become_a_time_where_they_fit() {
    assert_eq!(seconds_to_time(0), Some(0));
    assert_eq!(seconds_to_time(1_700_000_000), Some(1_700_000_000));
    assert_eq!(seconds_to_time(i64::MAX as u64), Some(i64::MAX));
    assert_eq!(seconds_to_time(i64::MAX as u64 + 1), None);
    assert_eq!(seconds_to_time(u64::MAX), None);
}
