use nfd::c_wide_string::CWideString;
use nfd::utf16::encode_utf16;
use nfd::utf16::WideChars;

#[test]
fn encode_basic_plane() {
    assert_eq!(encode_utf16("toml"), vec![0x74, 0x6F, 0x6D, 0x6C]);
    assert_eq!(encode_utf16(""), Vec::<u16>::new());
}

#[test]
fn encode_supplementary_plane() {
    // U+1F600 encodes as the surrogate pair D83D DE00.
    assert_eq!(encode_utf16("\u{1F600}"), vec![0xD83D, 0xDE00]);
    assert_eq!(encode_utf16("a\u{1F600}b"), vec![0x61, 0xD83D, 0xDE00, 0x62]);
}

#[test]
fn decode_basic_plane() {
    let s = CWideString::new("toml").expect("plain text");
    let mut it = s.chars();
    let mut decoded = String::new();
    while let Some(r) = it.next() {
        decoded.push(r.expect("plain text decodes cleanly"));
    }
    assert_eq!(decoded, "toml");
}

#[test]
fn decode_surrogate_pair() {
    let s = CWideString::new("\u{1F600}").expect("plain text");
    let mut it = s.chars();
    let first = it.next().expect("one character").expect("a full pair decodes");
    assert_eq!(first, '\u{1F600}');
    assert!(it.next().is_none());
}

#[test]
fn decode_reports_unpaired_high_surrogate() {
    // A high surrogate followed by a plain unit has no partner.
    let s = CWideString::from_vec_with_nul(vec![0xD800, 0x41, 0]).expect("terminated input");
    let mut it = s.chars();
    let err = it.next().expect("one element").expect_err("the surrogate is unpaired");
    assert_eq!(err.unpaired_surrogate(), 0xD800);
    let next = it.next().expect("the plain unit follows").expect("it decodes");
    assert_eq!(next, 'A');
    assert!(it.next().is_none());
}

#[test]
fn decode_reports_unpaired_low_surrogate() {
    let s = CWideString::from_vec_with_nul(vec![0xDC00, 0]).expect("terminated input");
    let mut it = s.chars();
    let err = it.next().expect("one element").expect_err("a leading low surrogate");
    assert_eq!(err.unpaired_surrogate(), 0xDC00);
    assert!(it.next().is_none());
}

#[test]
fn decode_reports_high_surrogate_at_end() {
    let s = CWideString::from_vec_with_nul(vec![0x41, 0xD83D, 0]).expect("terminated input");
    let mut it = s.chars();
    assert_eq!(it.next().expect("first").expect("plain"), 'A');
    let err = it.next().expect("second").expect_err("no trailing partner");
    assert_eq!(err.unpaired_surrogate(), 0xD83D);
    assert!(it.next().is_none());
}

#[test]
fn decode_failure_is_not_fatal() {
    // Callers may substitute a replacement character and keep going.
    let s = CWideString::from_vec_with_nul(vec![0x41, 0xD800, 0x42, 0]).expect("terminated");
    let mut it = s.chars();
    let mut decoded = String::new();
    while let Some(r) = it.next() {
        decoded.push(r.unwrap_or(char::REPLACEMENT_CHARACTER));
    }
    assert_eq!(decoded, "A\u{FFFD}B");
}

#[test]
fn decoder_restarts() {
    let units: Vec<u16> = vec![0x68, 0x69];
    let mut it = WideChars::new(&units);
    assert_eq!(it.next().expect("first").expect("plain"), 'h');
    it.restart();
    assert_eq!(it.next().expect("first again").expect("plain"), 'h');
    assert_eq!(it.next().expect("second").expect("plain"), 'i');
    assert!(it.next().is_none());
}

#[test]
fn encode_decode_roundtrip() {
    let text = "wide strings \u{00E9} \u{1F4C1}";
    let units = encode_utf16(text);
    let mut it = WideChars::new(&units);
    let mut decoded = String::new();
    while let Some(r) = it.next() {
        decoded.push(r.expect("encoded text decodes cleanly"));
    }
    assert_eq!(decoded, text);
}
