use either::Either;
use rkiwi::builder::split_pre_analyzed;
use rkiwi::script::script_name_of;
use rkiwi::typo::CondVowel;
use rkiwi::typo::DefaultTypoSet;

#[test]
fn unpositioned_morphemes_split_into_forms_and_tag_names() {
    // The unpositioned registration of a verb with its two endings.
    let morphs: Vec<(String, u8)> = vec![
        (String::from("사귀"), 4),
        (String::from("었"), 48),
        (String::from("다"), 49),
    ];
    let (forms, tags, positions) = split_pre_analyzed(Either::Left(morphs));
    assert_eq!(forms, vec!["사귀", "었", "다"]);
    assert_eq!(tags, vec!["VV", "EP", "EF"]);
    assert!(positions.is_none());
}

#[test]
fn positioned_morphemes_interleave_their_offsets() {
    let morphs: Vec<(String, u8, usize, usize)> = vec![
        (String::from("사귀"), 4, 0, 2),
        (String::from("었"), 48, 1, 2),
        (String::from("다"), 49, 2, 3),
    ];
    let (forms, tags, positions) = split_pre_analyzed(Either::Right(morphs));
    assert_eq!(forms, vec!["사귀", "었", "다"]);
    assert_eq!(tags, vec!["VV", "EP", "EF"]);
    assert_eq!(positions.unwrap(), vec![0, 2, 1, 2, 2, 3]);
}

#[test]
fn empty_payloads_split_into_empty_lists() {
    let (forms, tags, positions) = split_pre_analyzed(Either::Left(Vec::new()));
    assert!(forms.is_empty());
    assert!(tags.is_empty());
    assert!(positions.is_none());
    let (forms, tags, positions) = split_pre_analyzed(Either::Right(Vec::new()));
    assert!(forms.is_empty());
    assert!(tags.is_empty());
    assert_eq!(positions.unwrap(), Vec::<usize>::new());
}

#[test]
fn typo_set_selectors_encode_to_their_native_codes() {
    assert_eq!(DefaultTypoSet::WithoutTypo.code(), 0);
    assert_eq!(DefaultTypoSet::BasicTypoSet.code(), 1);
    assert_eq!(DefaultTypoSet::ContinualTypoSet.code(), 2);
    assert_eq!(DefaultTypoSet::BasicTypoSetWithContinual.code(), 3);
    assert_eq!(DefaultTypoSet::LengtheningTypoSet.code(), 4);
    assert_eq!(DefaultTypoSet::BasicTypoSetWithContinualAndLengthening.code(), 5);
}

#[test]
fn vowel_conditions_encode_to_their_native_codes() {
    assert_eq!(CondVowel::Unset.code(), 0);
    assert_eq!(CondVowel::Any.code(), 1);
    assert_eq!(CondVowel::Vowel.code(), 2);
    assert_eq!(CondVowel::Vocalic.code(), 3);
    assert_eq!(CondVowel::VocalicH.code(), 4);
    assert_eq!(CondVowel::NonVowel.code(), 5);
    assert_eq!(CondVowel::NonVocalic.code(), 6);
    assert_eq!(CondVowel::NonVocalicH.code(), 7);
    assert_eq!(CondVowel::Applosive.code(), 8);
    assert_eq!(CondVowel::default().code(), 0);
}

#[test]
fn unknown_script_names_vanish() {
    assert!(script_name_of(String::from("Unknown")).is_none());
    assert_eq!(script_name_of(String::from("IPA Extensions")).unwrap(), "IPA Extensions");
}
