use smart_review::clipboard::{base64, osc52};

#[test]
fn encoding_matches_the_standard_vectors() {
    assert_eq!(base64(b""), "");
    assert_eq!(base64(b"f"), "Zg==");
    assert_eq!(base64(b"fo"), "Zm8=");
    assert_eq!(base64(b"foo"), "Zm9v");
    assert_eq!(base64(b"foob"), "Zm9vYg==");
    assert_eq!(base64(b"fooba"), "Zm9vYmE=");
    assert_eq!(base64(b"foobar"), "Zm9vYmFy");
}

#[test]
fn the_two_non_ascii_vectors_encode_correctly() {
    assert_eq!(base64(&[0xfb, 0xff]), "+/8=");
    assert_eq!(base64(&[0xff, 0xff, 0xff]), "////");
    assert_eq!(base64(&[0x00, 0x00, 0x00]), "AAAA");
}

#[test]
fn a_path_survives_the_trip() {
    assert_eq!(
        base64(b"src/domain/invoice.rs"),
        "c3JjL2RvbWFpbi9pbnZvaWNlLnJz"
    );
}

#[test]
fn the_sequence_names_the_clipboard_and_is_terminated() {
    let sequence = osc52("a");
    assert!(sequence.starts_with("\u{1b}]52;c;"));
    assert!(sequence.ends_with('\u{7}'));
    assert!(sequence.contains("YQ=="), "{sequence:?}");
    assert!(!sequence.contains('\n'));
}

#[test]
fn an_empty_string_still_produces_a_valid_sequence() {
    assert_eq!(osc52(""), "\u{1b}]52;c;\u{7}");
}
