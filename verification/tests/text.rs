use rkiwi::Error;
use rkiwi::text::to_nul_terminated;
use rkiwi::text::to_nul_terminated_w;

#[test]
fn clean_text_gains_one_terminating_null() {
    let v = to_nul_terminated("안녕하세요").unwrap();
    let mut expect = String::from("안녕하세요").into_bytes();
    expect.push(0);
    assert_eq!(v, expect);
}

#[test]
fn empty_text_is_just_the_terminator() {
    assert_eq!(to_nul_terminated("").unwrap(), vec![0u8]);
}

#[test]
fn interior_null_byte_is_a_conversion_error() {
    let r = to_nul_terminated("ab\0cd");
    assert!(matches!(r, Err(Error::Conversion(_))));
}

#[test]
fn clean_wide_text_gains_one_terminating_null() {
    let units: Vec<u16> = "안녕하세요".encode_utf16().collect();
    let v = to_nul_terminated_w(&units).unwrap();
    let mut expect = units.clone();
    expect.push(0);
    assert_eq!(v, expect);
}

#[test]
fn interior_null_unit_is_a_conversion_error() {
    let units: Vec<u16> = vec![0xC548, 0, 0xB155];
    assert!(matches!(to_nul_terminated_w(&units), Err(Error::Conversion(_))));
}
