use inicio_faucet::mint::{parse_address, parse_note_type, NoteKind};
use inicio_faucet::text::decimal;

use miden_protocol::account::AccountId;
use miden_protocol::address::NetworkId;

/// A valid account id (public account, version 1) in its 128-bit form.
const SAMPLE_ID: u128 = 0xaa0000000000bb11_0000cc000000dd00;
const SAMPLE_HEX: &str = "0xaa0000000000bb110000cc000000dd";

#[test]
fn note_type_accepts_both_kinds() {
    assert_eq!(parse_note_type("public").unwrap(), NoteKind::Public);
    assert_eq!(parse_note_type("private").unwrap(), NoteKind::Private);
}

#[test]
fn note_type_ignores_ascii_case() {
    assert_eq!(parse_note_type("PUBLIC").unwrap(), NoteKind::Public);
    assert_eq!(parse_note_type("Private").unwrap(), NoteKind::Private);
    assert_eq!(parse_note_type("pRiVaTe").unwrap(), NoteKind::Private);
}

#[test]
fn note_type_rejects_other_text_with_lowercased_quote() {
    let err = parse_note_type("Secret").unwrap_err();
    assert_eq!(err, "note_type must be \"public\" or \"private\", got \"secret\"");
    let err = parse_note_type("").unwrap_err();
    assert_eq!(err, "note_type must be \"public\" or \"private\", got \"\"");
    // surrounding white space is not trimmed for the note type
    assert!(parse_note_type(" public").is_err());
}

#[test]
fn note_type_error_escapes_quotes() {
    let err = parse_note_type("a\"b").unwrap_err();
    assert_eq!(err, "note_type must be \"public\" or \"private\", got \"a\\\"b\"");
}

#[test]
fn hex_address_parses_to_account_id() {
    assert_eq!(parse_address(SAMPLE_HEX).unwrap(), SAMPLE_ID);
    let id = AccountId::try_from(SAMPLE_ID).unwrap();
    assert_eq!(id.to_hex(), SAMPLE_HEX);
}

#[test]
fn address_ignores_surrounding_white_space() {
    let padded = format!("  \t{SAMPLE_HEX}\n ");
    assert_eq!(parse_address(&padded).unwrap(), SAMPLE_ID);
    let padded = format!("\u{3000}{SAMPLE_HEX}\u{a0}");
    assert_eq!(parse_address(&padded).unwrap(), SAMPLE_ID);
}

#[test]
fn bad_hex_address_is_reported() {
    let err = parse_address("0xzz").unwrap_err();
    assert!(err.starts_with("invalid hex account id: "), "{err}");
    assert!(err.len() > "invalid hex account id: ".len());
}

#[test]
fn bech32_address_parses_to_account_id() {
    let id = AccountId::try_from(SAMPLE_ID).unwrap();
    let bech = id.to_bech32(NetworkId::Testnet);
    assert_eq!(parse_address(&bech).unwrap(), SAMPLE_ID);
    assert_eq!(parse_address(&format!(" {bech} ")).unwrap(), SAMPLE_ID);
}

#[test]
fn bad_bech32_address_is_reported() {
    let err = parse_address("not-an-address").unwrap_err();
    assert!(err.starts_with("invalid bech32 address: "), "{err}");
    assert!(err.len() > "invalid bech32 address: ".len());
    // upper-case `0X` is not the hex prefix, so the text is read as bech32
    let err = parse_address("0XAA0000000000BB110000CC000000DD").unwrap_err();
    assert!(err.starts_with("invalid bech32 address: "), "{err}");
}

#[test]
fn decimal_matches_display() {
    for n in [0u64, 7, 9, 10, 99, 100, 1234567890, u64::MAX] {
        assert_eq!(decimal(n), n.to_string());
    }
}
