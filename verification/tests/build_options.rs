use rkiwi::build_options::KiwiOptions;

#[test]
fn default_mask_loads_everything_with_knlm() {
    let opts = KiwiOptions::default();
    assert_eq!(opts.finish(), 0x1 | 0x2 | 0x4 | 0x8 | 0x200);
}

#[test]
fn disabling_dictionaries_clears_their_bits() {
    let opts = KiwiOptions::default()
        .load_default_dict(false)
        .load_typo_dict(false)
        .load_multi_dict(false);
    assert_eq!(opts.finish(), 0x1 | 0x200);
}

#[test]
fn disabling_allomorph_integration_clears_its_bit() {
    let opts = KiwiOptions::default().integrate_allomorph(false);
    assert_eq!(opts.finish(), 0x2 | 0x4 | 0x8 | 0x200);
}

#[test]
fn selecting_sbg_clears_knlm() {
    let opts = KiwiOptions::default().model_type_sbg(true);
    assert!(opts.model_type_sbg);
    assert!(!opts.model_type_knlm);
    assert_eq!(opts.finish(), 0x1 | 0x2 | 0x4 | 0x8 | 0x300);
}

#[test]
fn reselecting_knlm_clears_sbg() {
    let opts = KiwiOptions::default().model_type_sbg(true).model_type_knlm(true);
    assert!(opts.model_type_knlm);
    assert!(!opts.model_type_sbg);
    assert_eq!(opts.finish(), 0x1 | 0x2 | 0x4 | 0x8 | 0x200);
}

#[test]
fn deselecting_knlm_selects_sbg() {
    let opts = KiwiOptions::default().model_type_knlm(false);
    assert!(opts.model_type_sbg);
    assert!(!opts.model_type_knlm);
}
