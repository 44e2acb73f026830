use rusty_board::digest::sha256_hex;
use rusty_board::ident::{id_text, parse_id};

#[test]
fn sha256_of_abc_in_hex() {
    assert_eq!(
        sha256_hex(b"abc"),
        "ba7816bf8f01cfea414140de5dae2223b00361a396177a9cb410ff61f20015ad"
    );
}

#[test]
fn sha256_of_nothing_in_hex() {
    assert_eq!(
        sha256_hex(b""),
        "e3b0c44298fc1c149afbf4c8996fb92427ae41e4649b934ca495991b7852b855"
    );
}

#[test]
fn identifier_prints_hyphenated_lowercase() {
    assert_eq!(
        id_text(0x0123_4567_89ab_cdef_0123_4567_89ab_cdef),
        "01234567-89ab-cdef-0123-456789abcdef"
    );
    assert_eq!(id_text(0), "00000000-0000-0000-0000-000000000000");
    assert_eq!(id_text(u128::MAX), "ffffffff-ffff-ffff-ffff-ffffffffffff");
}

#[test]
fn identifier_is_read_from_text() {
    assert_eq!(
        parse_id("01234567-89ab-cdef-0123-456789abcdef"),
        Some(0x0123_4567_89ab_cdef_0123_4567_89ab_cdef)
    );
    assert_eq!(
        parse_id("0123456789ABCDEF0123456789ABCDEF"),
        Some(0x0123_4567_89ab_cdef_0123_4567_89ab_cdef)
    );
    assert_eq!(parse_id("not a uuid"), None);
    assert_eq!(parse_id(""), None);
}

#[test]
fn identifier_text_round_trips() {
    let id = uuid::Uuid::now_v7().as_u128();
    assert_eq!(parse_id(&id_text(id)), Some(id));
    assert_eq!(id_text(id), uuid::Uuid::from_u128(id).to_string());
}

#[test]
fn identifier_carries_its_creation_time() {
    assert_eq!(rusty_board::ident::id_millis(0x0123_4567_89ab_7def_8123_4567_89ab_cdef), 0x0123_4567_89ab);
    assert_eq!(rusty_board::ident::id_millis(0), 0);
    assert_eq!(rusty_board::ident::id_millis(u128::MAX), 0xffff_ffff_ffff);
    let before = chrono::Utc::now().timestamp_millis() as u64;
    let id = uuid::Uuid::now_v7().as_u128();
    let after = chrono::Utc::now().timestamp_millis() as u64;
    let made = rusty_board::ident::id_millis(id);
    assert!(before <= made && made <= after + 1_000);
}
