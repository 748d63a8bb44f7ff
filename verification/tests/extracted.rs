use rkiwi::extracted::Extracted;
use rkiwi::extracted::ExtractedWord;

fn word(form: &str, freq: usize) -> ExtractedWord {
    ExtractedWord {
        form: String::from(form),
        form_w: form.encode_utf16().collect(),
        score_bits: 0x3f000000 + freq as u32,
        pos_score_bits: 0x3e000000 + freq as u32,
        freq,
    }
}

fn sample() -> Extracted {
    Extracted::new(vec![word("만둣국", 12), word("핏줄", 5)])
}

#[test]
fn size_counts_words() {
    assert_eq!(sample().size(), 2);
}

#[test]
fn check_index_validates_against_the_cached_size() {
    let e = sample();
    assert!(e.check_index(0));
    assert!(e.check_index(1));
    assert!(!e.check_index(2));
}

#[test]
fn out_of_range_word_accessors_yield_nothing() {
    let e = sample();
    assert!(e.form(2).is_none());
    assert!(e.form_w(2).is_none());
    assert!(e.freq(9).is_none());
    assert!(e.score_bits(2).is_none());
    assert!(e.pos_score_bits(100).is_none());
}

#[test]
fn in_range_word_accessors_return_the_stored_data() {
    let e = sample();
    assert_eq!(e.form(0).unwrap(), "만둣국");
    assert_eq!(e.form(1).unwrap(), "핏줄");
    let w: Vec<u16> = "핏줄".encode_utf16().collect();
    assert_eq!(e.form_w(1).unwrap(), w);
    assert_eq!(e.freq(0).unwrap(), 12);
    assert_eq!(e.score_bits(0).unwrap(), 0x3f00000c);
    assert_eq!(e.pos_score_bits(1).unwrap(), 0x3e000005);
}

#[test]
fn to_vec_projects_every_word_in_order() {
    let e = sample();
    let words = e.to_vec();
    assert_eq!(words.len(), 2);
    assert_eq!(words[0].form, "만둣국");
    assert_eq!(words[0].freq, 12);
    assert_eq!(words[1].form, "핏줄");
    assert_eq!(words[1].score_bits, 0x3f000005);
}

#[test]
fn to_vec_w_projects_the_wide_forms() {
    let e = sample();
    let words = e.to_vec_w();
    let expect: Vec<u16> = "만둣국".encode_utf16().collect();
    assert_eq!(words[0].form, expect);
    assert_eq!(words[1].pos_score_bits, 0x3e000005);
}

#[test]
fn iter_yields_every_word_once_in_order() {
    let e = sample();
    let mut it = e.iter();
    let first = it.next().unwrap();
    assert_eq!(first.form, "만둣국");
    let second = it.next().unwrap();
    assert_eq!(second.form, "핏줄");
    assert!(it.next().is_none());
    assert!(it.next().is_none());
}

#[test]
fn iter_w_yields_wide_forms_in_order() {
    let e = sample();
    let mut it = e.iter_w();
    let expect: Vec<u16> = "만둣국".encode_utf16().collect();
    assert_eq!(it.next().unwrap().form, expect);
    assert_eq!(it.next().unwrap().freq, 5);
    assert!(it.next().is_none());
}

#[test]
fn empty_extraction_has_no_entries() {
    let e = Extracted::new(vec![]);
    assert_eq!(e.size(), 0);
    assert!(e.form(0).is_none());
    assert!(e.to_vec().is_empty());
    assert!(e.iter().next().is_none());
}
