use rkiwi::pos_tag::POSTag;

#[test]
fn tag_names_match_the_native_table() {
    assert_eq!(POSTag(0).as_str(), "UNK");
    assert_eq!(POSTag(1).as_str(), "NNG");
    assert_eq!(POSTag(2).as_str(), "NNP");
    assert_eq!(POSTag(4).as_str(), "VV");
    assert_eq!(POSTag(15).as_str(), "XSV");
    assert_eq!(POSTag(33).as_str(), "W_URL");
    assert_eq!(POSTag(38).as_str(), "W_EMOJI");
    assert_eq!(POSTag(53).as_str(), "Z_CODA");
    assert_eq!(POSTag(54).as_str(), "Z_SIOT");
    assert_eq!(POSTag(60).as_str(), "PV");
    assert_eq!(POSTag(61).as_str(), "PA");
}

#[test]
fn irregular_variants_carry_the_irregular_bit() {
    assert_eq!(POSTag(128).as_str(), "IRREGULAR");
    assert_eq!(POSTag(4 | 128).as_str(), "VV-I");
    assert_eq!(POSTag(5 | 128).as_str(), "VA-I");
    assert_eq!(POSTag(9 | 128).as_str(), "VX-I");
    assert_eq!(POSTag(16 | 128).as_str(), "XSA-I");
    assert_eq!(POSTag(60 | 128).as_str(), "PV-I");
    assert_eq!(POSTag(61 | 128).as_str(), "PA-I");
}

#[test]
fn unknown_codes_map_to_underscore() {
    assert_eq!(POSTag(62).as_str(), "_");
    assert_eq!(POSTag(127).as_str(), "_");
    assert_eq!(POSTag(200).as_str(), "_");
}

#[test]
fn get_num_returns_the_code() {
    assert_eq!(POSTag(2).get_num(), 2);
    assert_eq!(POSTag(189).get_num(), 189);
}

#[test]
fn base_tag_count() {
    assert_eq!(POSTag::MAX, 61);
}
