use nfd::c_wide_string::CWideStr;
use nfd::c_wide_string::CWideString;
use nfd::c_wide_string::FromWideWithNulErrorKind;

#[test]
fn new_then_as_slice_returns_input() {
    // "toml" as raw code units, no nul anywhere.
    let units: Vec<u16> = vec![0x74, 0x6F, 0x6D, 0x6C];
    let s = CWideString::new(units.clone()).expect("nul-free input must be accepted");
    assert_eq!(s.as_slice(), &units[..]);
    assert_eq!(s.as_slice_with_nul(), &[0x74, 0x6F, 0x6D, 0x6C, 0][..]);
}

#[test]
fn new_of_empty_input() {
    let s = CWideString::new(Vec::<u16>::new()).expect("empty input must be accepted");
    assert_eq!(s.as_slice(), &[][..]);
    assert_eq!(s.as_slice_with_nul(), &[0][..]);
}

#[test]
fn new_rejects_interior_nul() {
    let units: Vec<u16> = vec![5, 0, 7];
    let err = CWideString::new(units.clone()).expect_err("a nul unit must be rejected");
    assert_eq!(err.nul_position(), 1);
    // The original sequence comes back untouched: no terminator appended.
    assert_eq!(err.into_vec(), units);
}

#[test]
fn new_reports_first_nul() {
    let units: Vec<u16> = vec![0, 0, 7];
    let err = CWideString::new(units.clone()).expect_err("a nul unit must be rejected");
    assert_eq!(err.nul_position(), 0);
    assert_eq!(err.into_vec(), units);
}

#[test]
fn new_rejects_trailing_nul_too() {
    // `new` appends its own terminator; a nul anywhere in the payload is
    // interior from its point of view.
    let units: Vec<u16> = vec![5, 7, 0];
    let err = CWideString::new(units.clone()).expect_err("a nul unit must be rejected");
    assert_eq!(err.nul_position(), 2);
    assert_eq!(err.into_vec(), units);
}

#[test]
fn new_from_text() {
    let s = CWideString::new("toml").expect("plain text must be accepted");
    assert_eq!(s.as_slice_with_nul(), &[0x74, 0x6F, 0x6D, 0x6C, 0][..]);
}

#[test]
fn new_from_text_with_nul_character() {
    let err = CWideString::new("a\0b").expect_err("a nul character must be rejected");
    assert_eq!(err.nul_position(), 1);
    assert_eq!(err.into_vec(), vec![0x61, 0, 0x62]);
}

#[test]
fn from_vec_with_nul_accepts_terminated() {
    let units: Vec<u16> = vec![9, 0];
    let s = CWideString::from_vec_with_nul(units.clone()).expect("terminated input");
    assert_eq!(s.as_slice_with_nul(), &units[..]);
    assert_eq!(s.as_slice(), &[9][..]);
}

#[test]
fn from_vec_with_nul_accepts_just_terminator() {
    let s = CWideString::from_vec_with_nul(vec![0]).expect("a lone terminator is valid");
    assert_eq!(s.as_slice(), &[][..]);
}

#[test]
fn from_vec_with_nul_rejects_interior_nul() {
    let units: Vec<u16> = vec![9, 0, 8, 0];
    let err = CWideString::from_vec_with_nul(units.clone()).expect_err("interior nul");
    assert_eq!(err.kind(), FromWideWithNulErrorKind::InteriorNul(1));
    assert_eq!(err.into_vec(), units);
}

#[test]
fn from_vec_with_nul_rejects_unterminated() {
    let units: Vec<u16> = vec![9, 8];
    let err = CWideString::from_vec_with_nul(units.clone()).expect_err("no terminator");
    assert_eq!(err.kind(), FromWideWithNulErrorKind::NotNulTerminated);
    assert_eq!(err.into_vec(), units);

    let err = CWideString::from_vec_with_nul(Vec::new()).expect_err("empty input");
    assert_eq!(err.kind(), FromWideWithNulErrorKind::NotNulTerminated);
}

#[test]
fn index_from_keeps_suffix_and_terminator() {
    let s = CWideString::from_vec_with_nul(vec![5, 7, 9, 0]).expect("terminated input");
    let view = s.as_c_wide_str();
    let suffix = view.index_from(1);
    assert_eq!(suffix.as_slice_with_nul(), &[7, 9, 0][..]);
    assert_eq!(suffix.as_slice(), &[7, 9][..]);
    // Slicing at the terminator itself yields the empty string.
    let empty = view.index_from(3);
    assert_eq!(empty.as_slice_with_nul(), &[0][..]);
    assert_eq!(empty.as_slice(), &[][..]);
}

#[test]
fn index_from_twice_composes() {
    let s = CWideString::from_vec_with_nul(vec![5, 7, 9, 0]).expect("terminated input");
    let view = s.as_c_wide_str();
    let once = view.index_from(1);
    let twice = once.index_from(1);
    assert_eq!(twice.as_slice_with_nul(), &[9, 0][..]);
}

#[test]
fn to_c_wide_string_copies_units() {
    let s = CWideString::from_vec_with_nul(vec![5, 7, 0]).expect("terminated input");
    let view = s.as_c_wide_str();
    let copy = view.index_from(1).to_c_wide_string();
    assert_eq!(copy.as_slice_with_nul(), &[7, 0][..]);
}

#[test]
fn unchecked_constructors_keep_units() {
    let s = CWideString::from_vec_with_nul_unchecked(vec![5, 0]);
    assert_eq!(s.as_slice_with_nul(), &[5, 0][..]);
    let units: Vec<u16> = vec![7, 0];
    let view = CWideStr::from_wide_with_nul_unchecked(&units);
    assert_eq!(view.as_slice(), &[7][..]);
}

#[test]
fn view_roundtrip_through_into_wide() {
    let s = CWideString::new("path").expect("plain text");
    let view = s.as_c_wide_str();
    let again = CWideString::new(view).expect("a valid view has no interior nul");
    assert_eq!(again.as_slice_with_nul(), s.as_slice_with_nul());
}
