use rkiwi::match_options::Match;

#[test]
fn new_has_no_toggles() {
    assert_eq!(Match::new().finish(), 0);
}

#[test]
fn single_toggle_url() {
    assert_eq!(Match::new().url(true).finish(), 0x1);
}

#[test]
fn single_toggle_email() {
    assert_eq!(Match::new().email(true).finish(), 0x2);
}

#[test]
fn single_toggle_hashtag() {
    assert_eq!(Match::new().hashtag(true).finish(), 0x4);
}

#[test]
fn single_toggle_mention() {
    assert_eq!(Match::new().mention(true).finish(), 0x8);
}

#[test]
fn single_toggle_serial() {
    assert_eq!(Match::new().serial(true).finish(), 0x10);
}

#[test]
fn single_toggle_emoji() {
    assert_eq!(Match::new().emoji(true).finish(), 0x20);
}

#[test]
fn single_toggle_normalize_coda() {
    assert_eq!(Match::new().normalize_coda(true).finish(), 0x10000);
}

#[test]
fn single_toggle_join_noun_prefix() {
    assert_eq!(Match::new().join_noun_prefix(true).finish(), 0x20000);
}

#[test]
fn single_toggle_join_noun_suffix() {
    assert_eq!(Match::new().join_noun_suffix(true).finish(), 0x40000);
}

#[test]
fn single_toggle_join_verb_suffix() {
    assert_eq!(Match::new().join_verb_suffix(true).finish(), 0x80000);
}

#[test]
fn single_toggle_join_adj_suffix() {
    assert_eq!(Match::new().join_adj_suffix(true).finish(), 0x100000);
}

#[test]
fn single_toggle_join_adv_suffix() {
    assert_eq!(Match::new().join_adv_suffix(true).finish(), 0x200000);
}

#[test]
fn single_toggle_split_complex() {
    assert_eq!(Match::new().split_complex(true).finish(), 0x400000);
}

#[test]
fn single_toggle_z_coda() {
    assert_eq!(Match::new().z_coda(true).finish(), 0x800000);
}

#[test]
fn single_toggle_compatible_jamo() {
    assert_eq!(Match::new().compatible_jamo(true).finish(), 0x1000000);
}

#[test]
fn single_toggle_split_saisiot() {
    assert_eq!(Match::new().split_saisiot(true).finish(), 0x2000000);
}

#[test]
fn single_toggle_merge_saisiot() {
    assert_eq!(Match::new().merge_saisiot(true).finish(), 0x4000000);
}

#[test]
fn all_sets_exactly_the_five_web_bits() {
    // url, email, hashtag, mention, serial; emoji stays off.
    assert_eq!(Match::new().all().finish(), 0x1f);
}

#[test]
fn all_keeps_other_toggles() {
    let m = Match::new().normalize_coda(true).all();
    assert_eq!(m.finish(), 0x1f | 0x10000);
}

#[test]
fn all_with_normailize_coda_adds_the_coda_bit() {
    assert_eq!(Match::new().all_with_normailize_coda().finish(), 0x1f | 0x10000);
}

#[test]
fn join_v_suffix_sets_verb_and_adj() {
    assert_eq!(Match::new().join_v_suffix().finish(), 0x80000 | 0x100000);
}

#[test]
fn join_affix_sets_all_five_joins() {
    assert_eq!(
        Match::new().join_affix().finish(),
        0x20000 | 0x40000 | 0x80000 | 0x100000 | 0x200000
    );
}

#[test]
fn toggles_clear_again() {
    let m = Match::new().url(true).url(false);
    assert_eq!(m.finish(), 0);
}

#[test]
fn combined_mask_is_the_or_of_the_bits() {
    let m = Match::new()
        .compatible_jamo(true)
        .normalize_coda(true)
        .split_complex(true)
        .z_coda(true)
        .split_saisiot(true);
    assert_eq!(
        m.finish(),
        0x1000000 | 0x10000 | 0x400000 | 0x800000 | 0x2000000
    );
}

#[test]
fn normalize_coda_with_split_complex_mask() {
    // The option pair used to keep a stray trailing consonant from failing
    // the analysis: both bits and nothing else.
    let m = Match::new().normalize_coda(true).split_complex(true);
    assert_eq!(m.finish(), 0x10000 | 0x400000);
}
