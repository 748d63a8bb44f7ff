//! Typo-correction selectors.
//!
//! Pure value types that select among the built-in typo-rule presets and
//! state the vowel condition of a custom typo rule.  Each encodes to the
//! fixed native code at the point of use.

use vstd::prelude::*;

verus! {

/// The vowel condition attached to a custom typo rule: which preceding-
/// syllable finals allow the replacement.
#[derive(Debug, Clone, Copy, PartialEq, Eq, Structural)]
pub enum CondVowel {
    /// No condition set.
    Unset,
    /// Applicable regardless of the preceding vowel or final.
    Any,
    /// Only after a syllable with no final consonant.
    Vowel,
    /// Only after no final or the liquid final.
    Vocalic,
    /// Only after no final, the liquid final, or the aspirate final.
    VocalicH,
    /// The negation of the vowel condition.
    NonVowel,
    /// The negation of the vocalic condition.
    NonVocalic,
    /// The negation of the vocalic-aspirate condition.
    NonVocalicH,
    /// Only after an unreleased final.
    Applosive,
}

/// The native code of a vowel condition.
pub open spec fn spec_cond_vowel_code(c: CondVowel) -> i32 {
    match c {
        CondVowel::Unset => 0,
        CondVowel::Any => 1,
        CondVowel::Vowel => 2,
        CondVowel::Vocalic => 3,
        CondVowel::VocalicH => 4,
        CondVowel::NonVowel => 5,
        CondVowel::NonVocalic => 6,
        CondVowel::NonVocalicH => 7,
        CondVowel::Applosive => 8,
    }
}

impl CondVowel {
    /// Encodes the condition into its native code.
    pub fn code(&self) -> (r: i32)
        ensures
            r == spec_cond_vowel_code(*self),
    {
        match self {
            CondVowel::Unset => 0,
            CondVowel::Any => 1,
            CondVowel::Vowel => 2,
            CondVowel::Vocalic => 3,
            CondVowel::VocalicH => 4,
            CondVowel::NonVowel => 5,
            CondVowel::NonVocalic => 6,
            CondVowel::NonVocalicH => 7,
            CondVowel::Applosive => 8,
        }
    }
}

impl Default for CondVowel {
    /// No condition set.
    fn default() -> (r: CondVowel)
        ensures
            r == CondVowel::Unset,
    {
        CondVowel::Unset
    }
}

/// Selects one of the built-in typo-rule presets.
#[derive(Debug, Clone, Copy, PartialEq, Eq, Structural)]
pub enum DefaultTypoSet {
    /// No typo correction.
    WithoutTypo,
    /// The basic typo rules.
    BasicTypoSet,
    /// Continual-typo rules only.
    ContinualTypoSet,
    /// The basic rules plus continual-typo rules.
    BasicTypoSetWithContinual,
    /// Lengthening-typo rules only.
    LengtheningTypoSet,
    /// The basic rules plus continual- and lengthening-typo rules.
    BasicTypoSetWithContinualAndLengthening,
}

/// The native code of a preset selector.
pub open spec fn spec_typo_set_code(s: DefaultTypoSet) -> i32 {
    match s {
        DefaultTypoSet::WithoutTypo => 0,
        DefaultTypoSet::BasicTypoSet => 1,
        DefaultTypoSet::ContinualTypoSet => 2,
        DefaultTypoSet::BasicTypoSetWithContinual => 3,
        DefaultTypoSet::LengtheningTypoSet => 4,
        DefaultTypoSet::BasicTypoSetWithContinualAndLengthening => 5,
    }
}

impl DefaultTypoSet {
    /// Encodes the selector into its native code.
    pub fn code(&self) -> (r: i32)
        ensures
            r == spec_typo_set_code(*self),
    {
        match self {
            DefaultTypoSet::WithoutTypo => 0,
            DefaultTypoSet::BasicTypoSet => 1,
            DefaultTypoSet::ContinualTypoSet => 2,
            DefaultTypoSet::BasicTypoSetWithContinual => 3,
            DefaultTypoSet::LengtheningTypoSet => 4,
            DefaultTypoSet::BasicTypoSetWithContinualAndLengthening => 5,
        }
    }
}

} // verus!
