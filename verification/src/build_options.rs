//! Construction-time options for the analysis engine.
//!
//! `KiwiOptions` is a pure value type: dictionary-loading toggles plus a
//! language-model selection, encoded to one native option integer when the
//! engine is built.  The two model kinds are mutually exclusive: selecting
//! one clears the other.

use vstd::prelude::*;

verus! {

/// Integrate phonological allomorphs into one morpheme.
pub const BUILD_INTEGRATE_ALLOMORPH: u32 = 0x1;
/// Load the built-in default dictionary.
pub const BUILD_LOAD_DEFAULT_DICT: u32 = 0x2;
/// Load the built-in typo dictionary.
pub const BUILD_LOAD_TYPO_DICT: u32 = 0x4;
/// Load the built-in multi-word dictionary.
pub const BUILD_LOAD_MULTI_DICT: u32 = 0x8;
/// Select the knlm language model.
pub const BUILD_MODEL_TYPE_KNLM: u32 = 0x200;
/// Select the sbg language model.
pub const BUILD_MODEL_TYPE_SBG: u32 = 0x300;

/// Options consumed when building an engine: dictionary loading toggles and
/// the language-model selection.
///
/// By default every dictionary toggle is enabled and the knlm model is
/// selected.
#[derive(Debug, Clone, Copy)]
pub struct KiwiOptions {
    pub integrate_allomorph: bool,
    pub load_default_dict: bool,
    pub load_typo_dict: bool,
    pub load_multi_dict: bool,
    pub model_type_knlm: bool,
    pub model_type_sbg: bool,
}

/// The two model selections are mutually exclusive: exactly one is set.
pub open spec fn model_choice_exclusive(opts: KiwiOptions) -> bool {
    opts.model_type_knlm == !opts.model_type_sbg
}

/// The option integer a `KiwiOptions` value encodes to: each enabled toggle
/// contributes its fixed value.
pub open spec fn spec_build_mask(opts: KiwiOptions) -> u32 {
    let f: u32 = 0;
    let f: u32 = if opts.integrate_allomorph { f | BUILD_INTEGRATE_ALLOMORPH } else { f };
    let f: u32 = if opts.load_default_dict { f | BUILD_LOAD_DEFAULT_DICT } else { f };
    let f: u32 = if opts.load_typo_dict { f | BUILD_LOAD_TYPO_DICT } else { f };
    let f: u32 = if opts.load_multi_dict { f | BUILD_LOAD_MULTI_DICT } else { f };
    let f: u32 = if opts.model_type_knlm { f | BUILD_MODEL_TYPE_KNLM } else { f };
    let f: u32 = if opts.model_type_sbg { f | BUILD_MODEL_TYPE_SBG } else { f };
    f
}

impl KiwiOptions {
    /// Integrate allomorphs or keep them distinct; every other option keeps
    /// its value.
    pub fn integrate_allomorph(self, r: bool) -> (out: KiwiOptions)
        ensures
            out == (KiwiOptions { integrate_allomorph: r, ..self }),
            model_choice_exclusive(self) ==> model_choice_exclusive(out),
    {
        KiwiOptions { integrate_allomorph: r, ..self }
    }

    /// Load or skip the default dictionary; every other option keeps its
    /// value.
    pub fn load_default_dict(self, r: bool) -> (out: KiwiOptions)
        ensures
            out == (KiwiOptions { load_default_dict: r, ..self }),
            model_choice_exclusive(self) ==> model_choice_exclusive(out),
    {
        KiwiOptions { load_default_dict: r, ..self }
    }

    /// Load or skip the typo dictionary; every other option keeps its value.
    pub fn load_typo_dict(self, r: bool) -> (out: KiwiOptions)
        ensures
            out == (KiwiOptions { load_typo_dict: r, ..self }),
            model_choice_exclusive(self) ==> model_choice_exclusive(out),
    {
        KiwiOptions { load_typo_dict: r, ..self }
    }

    /// Load or skip the multi-word dictionary; every other option keeps its
    /// value.
    pub fn load_multi_dict(self, r: bool) -> (out: KiwiOptions)
        ensures
            out == (KiwiOptions { load_multi_dict: r, ..self }),
            model_choice_exclusive(self) ==> model_choice_exclusive(out),
    {
        KiwiOptions { load_multi_dict: r, ..self }
    }

    /// Selects (or deselects) the knlm model; the sbg selection always
    /// becomes the opposite, so the choice stays exclusive.
    pub fn model_type_knlm(self, r: bool) -> (out: KiwiOptions)
        ensures
            out == (KiwiOptions { model_type_knlm: r, model_type_sbg: !r, ..self }),
            model_choice_exclusive(out),
    {
        KiwiOptions { model_type_knlm: r, model_type_sbg: !r, ..self }
    }

    /// Selects (or deselects) the sbg model; the knlm selection always
    /// becomes the opposite, so the choice stays exclusive.
    pub fn model_type_sbg(self, r: bool) -> (out: KiwiOptions)
        ensures
            out == (KiwiOptions { model_type_knlm: !r, model_type_sbg: r, ..self }),
            model_choice_exclusive(out),
    {
        KiwiOptions { model_type_knlm: !r, model_type_sbg: r, ..self }
    }

    /// Encodes the options into the native option integer.
    pub fn finish(&self) -> (r: u32)
        ensures
            r == spec_build_mask(*self),
    {
        let mut f: u32 = 0;
        if self.integrate_allomorph {
            f = f | BUILD_INTEGRATE_ALLOMORPH;
        }
        if self.load_default_dict {
            f = f | BUILD_LOAD_DEFAULT_DICT;
        }
        if self.load_typo_dict {
            f = f | BUILD_LOAD_TYPO_DICT;
        }
        if self.load_multi_dict {
            f = f | BUILD_LOAD_MULTI_DICT;
        }
        if self.model_type_knlm {
            f = f | BUILD_MODEL_TYPE_KNLM;
        }
        if self.model_type_sbg {
            f = f | BUILD_MODEL_TYPE_SBG;
        }
        f
    }
}

impl Default for KiwiOptions {
    /// Every dictionary toggle enabled and the knlm model selected.
    fn default() -> (r: KiwiOptions)
        ensures
            r == (KiwiOptions {
                integrate_allomorph: true,
                load_default_dict: true,
                load_typo_dict: true,
                load_multi_dict: true,
                model_type_knlm: true,
                model_type_sbg: false,
            }),
            model_choice_exclusive(r),
    {
        KiwiOptions {
            integrate_allomorph: true,
            load_default_dict: true,
            load_typo_dict: true,
            load_multi_dict: true,
            model_type_knlm: true,
            model_type_sbg: false,
        }
    }
}

} // verus!
