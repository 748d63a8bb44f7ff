use rkiwi::analyzed::Analyzed;
use rkiwi::analyzed::Morpheme;
use rkiwi::analyzed::Token;
use rkiwi::pos_tag::POSTag;

fn token(tag: u8, chr: u32, len: u16) -> Token {
    Token {
        chr_position: chr,
        word_position: chr / 4,
        sent_position: 0,
        line_number: 0,
        length: len,
        tag: POSTag(tag),
        score_bits: 0xbf000000,
        typo_cost_bits: 0,
        typo_form_id: 0,
        paired_token: u32::MAX,
        sub_sent_position: 0,
        sense_id: 0,
        script: 0,
    }
}

fn morpheme(form: &str, tag: u8, chr: u32) -> Morpheme {
    Morpheme {
        form: String::from(form),
        form_w: form.encode_utf16().collect(),
        token: token(tag, chr, form.encode_utf16().count() as u16),
    }
}

fn sample() -> Analyzed {
    // Two candidates: the first with two morphemes, the second with one.
    Analyzed::new(vec![
        vec![morpheme("테스트", 2, 0), morpheme("입니다", 19, 3)],
        vec![morpheme("테스트입니다", 0, 0)],
    ])
}

#[test]
fn size_counts_candidates() {
    assert_eq!(sample().size(), 2);
}

#[test]
fn word_num_reports_cached_counts() {
    let a = sample();
    assert_eq!(a.word_num(0), Some(2));
    assert_eq!(a.word_num(1), Some(1));
}

#[test]
fn out_of_range_candidate_yields_nothing() {
    let a = sample();
    assert!(a.word_num(a.size()).is_none());
    assert!(a.word_num(17).is_none());
}

#[test]
fn out_of_range_accessors_yield_nothing() {
    let a = sample();
    assert!(a.form(2, 0).is_none());
    assert!(a.form(0, 2).is_none());
    assert!(a.form_w(9, 9).is_none());
    assert!(a.tag(0, 5).is_none());
    assert!(a.token(3, 0).is_none());
    assert!(a.length(0, 2).is_none());
    assert!(a.word_position(2, 0).is_none());
    assert!(a.sent_position(0, 7).is_none());
    assert!(a.score_bits(5, 0).is_none());
    assert!(a.typo_cost_bits(0, 3).is_none());
}

#[test]
fn check_index_validates_both_coordinates() {
    let a = sample();
    assert!(a.check_index(0, None));
    assert!(a.check_index(1, None));
    assert!(!a.check_index(2, None));
    assert!(a.check_index(0, Some(1)));
    assert!(!a.check_index(0, Some(2)));
    assert!(a.check_index(1, Some(0)));
    assert!(!a.check_index(1, Some(1)));
}

#[test]
fn in_range_accessors_return_the_stored_data() {
    let a = sample();
    assert_eq!(a.form(0, 0).unwrap(), "테스트");
    assert_eq!(a.form(0, 1).unwrap(), "입니다");
    assert_eq!(a.form(1, 0).unwrap(), "테스트입니다");
    assert_eq!(a.tag(0, 0).unwrap(), "NNP");
    assert_eq!(a.tag(0, 1).unwrap(), "VCP");
    assert_eq!(a.tag(1, 0).unwrap(), "UNK");
    let w: Vec<u16> = "테스트".encode_utf16().collect();
    assert_eq!(a.form_w(0, 0).unwrap(), w);
    let t = a.token(0, 1).unwrap();
    assert_eq!(t.chr_position, 3);
    assert_eq!(t.tag, POSTag(19));
    assert_eq!(a.length(0, 0).unwrap(), 3);
    assert_eq!(a.score_bits(0, 0).unwrap(), 0xbf000000);
    assert_eq!(a.typo_cost_bits(0, 0).unwrap(), 0);
    assert_eq!(a.word_position(0, 1).unwrap(), 0);
    assert_eq!(a.sent_position(1, 0).unwrap(), 0);
}

#[test]
fn to_vec_flattens_candidate_major_morpheme_minor() {
    let a = sample();
    let flat = a.to_vec();
    assert_eq!(flat.len(), 3);
    assert_eq!(flat[0].0, "테스트");
    assert_eq!(flat[1].0, "입니다");
    assert_eq!(flat[2].0, "테스트입니다");
    assert_eq!(flat[0].1.tag, POSTag(2));
    assert_eq!(flat[1].1.tag, POSTag(19));
    assert_eq!(flat[2].1.tag, POSTag(0));
}

#[test]
fn per_candidate_counts_match_word_num() {
    // The flattened list holds word_num(0) entries for candidate zero, then
    // word_num(1) entries for candidate one.
    let a = sample();
    let flat = a.to_vec();
    let n0 = a.word_num(0).unwrap();
    let n1 = a.word_num(1).unwrap();
    assert_eq!(flat.len(), n0 + n1);
    assert_eq!(flat[..n0].iter().count(), n0);
}

#[test]
fn to_vec_t_and_to_vec_w_follow_the_same_order() {
    let a = sample();
    let pairs = a.to_vec();
    let tokens = a.to_vec_t();
    let wide = a.to_vec_w();
    assert_eq!(tokens.len(), pairs.len());
    assert_eq!(wide.len(), pairs.len());
    for k in 0..pairs.len() {
        assert_eq!(tokens[k], pairs[k].1);
        assert_eq!(wide[k].1, pairs[k].1);
        let expect: Vec<u16> = pairs[k].0.encode_utf16().collect();
        assert_eq!(wide[k].0, expect);
    }
}

#[test]
fn iter_yields_the_flattened_pairs_in_order() {
    let a = sample();
    let flat = a.to_vec();
    let mut it = a.iter();
    let mut seen = Vec::new();
    while let Some(p) = it.next() {
        seen.push(p);
    }
    assert_eq!(seen.len(), flat.len());
    for k in 0..flat.len() {
        assert_eq!(seen[k].0, flat[k].0);
        assert_eq!(seen[k].1, flat[k].1);
    }
    assert!(it.next().is_none());
}

#[test]
fn iter_w_and_iter_t_yield_the_same_order() {
    let a = sample();
    let mut it_w = a.iter_w();
    let mut it_t = a.iter_t();
    let flat = a.to_vec();
    for k in 0..flat.len() {
        let w = it_w.next().unwrap();
        let t = it_t.next().unwrap();
        assert_eq!(t, flat[k].1);
        assert_eq!(w.1, flat[k].1);
    }
    assert!(it_w.next().is_none());
    assert!(it_t.next().is_none());
}

#[test]
fn iter_skips_empty_candidates() {
    let a = Analyzed::new(vec![
        vec![],
        vec![morpheme("하나", 1, 0)],
        vec![],
        vec![morpheme("둘", 1, 0)],
        vec![],
    ]);
    let mut it = a.iter();
    assert_eq!(it.next().unwrap().0, "하나");
    assert_eq!(it.next().unwrap().0, "둘");
    assert!(it.next().is_none());
}

#[test]
fn empty_result_has_no_entries() {
    let a = Analyzed::new(vec![]);
    assert_eq!(a.size(), 0);
    assert!(a.word_num(0).is_none());
    assert!(a.to_vec().is_empty());
    assert!(a.iter().next().is_none());
}
