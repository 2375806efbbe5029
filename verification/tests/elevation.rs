//! Relaunching with higher rights.

use halod_drivers::elevation::{ensure_elevated, join_args, wide};

#[test]
fn texts_end_with_a_zero() {
    assert_eq!(wide("ab"), vec![0x61, 0x62, 0]);
    assert_eq!(wide(""), vec![0]);
    assert_eq!(wide("\u{1F600}"), vec![0xD83D, 0xDE00, 0]);
    assert_eq!(wide("\u{20AC}"), "\u{20AC}\0".encode_utf16().collect::<Vec<u16>>());
}

#[test]
fn different_texts_are_told_apart() {
    assert_ne!(wide("a"), wide("a\u{1F600}"));
    assert_ne!(wide("\u{1F600}"), wide("\u{1F601}"));
}

#[test]
fn arguments_are_joined_by_blanks() {
    let args = ["--a".to_string(), "b c".to_string()];
    assert_eq!(join_args(&args), "--a b c");
    assert_eq!(join_args(&[]), "");
}

#[test]
fn an_elevated_process_is_not_relaunched() {
    assert!(ensure_elevated(true, "a.exe", &[], "C:\\").is_none());
    let r = ensure_elevated(false, "a.exe", &["-v".to_string()], "C:\\").unwrap();
    assert_eq!(r.verb, wide("runas"));
    assert_eq!(r.file, wide("a.exe"));
    assert_eq!(r.parameters, Some(wide("-v")));
    assert_eq!(r.directory, Some(wide("C:\\")));
    let bare = ensure_elevated(false, "a.exe", &[], "").unwrap();
    assert_eq!(bare.parameters, None);
    assert_eq!(bare.directory, None);
}
