use cosmic_notebook::cli::{parse_args, ParsedArgs};
use cosmic_notebook::file_handler::io::{decode_content, decode_utf16_be, decode_utf16_le, read_text, FileEncoding};

fn args(list: &[&str]) -> Vec<String> {
    list.iter().map(|s| s.to_string()).collect()
}

#[test]
fn arguments_are_read_in_order() {
    assert!(matches!(parse_args(&args(&["prog", "a.md", "--help"])), ParsedArgs::Help));
    assert!(matches!(parse_args(&args(&["prog", "-v"])), ParsedArgs::Version));
    assert!(matches!(parse_args(&args(&["prog", "-d"])), ParsedArgs::MissingDirectory));
    match parse_args(&args(&["prog", "-x"])) {
        ParsedArgs::UnknownOption(o) => assert_eq!(o, "-x"),
        _ => panic!("expected an unknown option"),
    }
    match parse_args(&args(&["prog", "notes/a.md", "b.md"])) {
        ParsedArgs::Run(flags) => {
            assert_eq!(flags.files, vec!["notes/a.md".to_string(), "b.md".to_string()]);
            assert_eq!(flags.working_dir, Some("notes".to_string()));
        }
        _ => panic!("expected flags"),
    }
    match parse_args(&args(&["prog", "-d", "/home", "a.md"])) {
        ParsedArgs::Run(flags) => assert_eq!(flags.working_dir, Some("/home".to_string())),
        _ => panic!("expected flags"),
    }
    match parse_args(&args(&["prog"])) {
        ParsedArgs::Run(flags) => {
            assert!(flags.files.is_empty());
            assert_eq!(flags.working_dir, None);
        }
        _ => panic!("expected flags"),
    }
}

#[test]
fn decoding_each_encoding() {
    assert_eq!(decode_utf16_le(&[b'H', 0, b'i', 0]), ("Hi".to_string(), false));
    assert_eq!(decode_utf16_be(&[0, b'H', 0, b'i']), ("Hi".to_string(), false));
    assert_eq!(decode_utf16_le(&[0x00, 0xD8]), ("\u{FFFD}".to_string(), true));
    assert_eq!(decode_content(&[0xEF, 0xBB, 0xBF, b'o', b'k'], FileEncoding::Utf8Bom), ("ok".to_string(), false));
    assert_eq!(decode_content(&[b'a', 0xFF], FileEncoding::Unknown), ("a\u{FFFD}".to_string(), true));
    let r = read_text(&[0xFF, 0xFE, b'H', 0, b'i', 0]);
    assert_eq!(r.encoding, FileEncoding::Utf16Le);
    assert_eq!(r.content, "Hi");
    assert_eq!(r.size_bytes, 6);
    let r = read_text("plain ü".as_bytes());
    assert_eq!(r.encoding, FileEncoding::Utf8);
    assert_eq!(r.content, "plain ü");
    assert!(!r.lossy);
}
