//! Analysis-time pattern-matching options.
//!
//! `Match` is a pure value type: a set of boolean toggles that encodes to a
//! single native bitmask integer at the point of use.  The bit assigned to
//! each toggle is fixed by the native interface and reproduced here exactly.

use vstd::prelude::*;

verus! {

/// Extract internet addresses under the URL web tag.
pub const MATCH_URL: u32 = 0x1;
/// Extract e-mail addresses under the e-mail web tag.
pub const MATCH_EMAIL: u32 = 0x2;
/// Extract hashtags under the hashtag web tag.
pub const MATCH_HASHTAG: u32 = 0x4;
/// Extract mentions under the mention web tag.
pub const MATCH_MENTION: u32 = 0x8;
/// Extract serial numbers under the serial web tag.
pub const MATCH_SERIAL: u32 = 0x10;
/// Extract emoji characters under the emoji web tag.
pub const MATCH_EMOJI: u32 = 0x20;
/// Split a coda that was stuck onto a syllable and normalize it away.
pub const MATCH_NORMALIZE_CODA: u32 = 0x10000;
/// Keep noun prefixes joined to the noun.
pub const MATCH_JOIN_NOUN_PREFIX: u32 = 0x20000;
/// Keep noun suffixes joined to the noun.
pub const MATCH_JOIN_NOUN_SUFFIX: u32 = 0x40000;
/// Keep verb-derivation suffixes joined.
pub const MATCH_JOIN_VERB_SUFFIX: u32 = 0x80000;
/// Keep adjective-derivation suffixes joined.
pub const MATCH_JOIN_ADJ_SUFFIX: u32 = 0x100000;
/// Keep adverb-derivation suffixes joined.
pub const MATCH_JOIN_ADV_SUFFIX: u32 = 0x200000;
/// Split every morpheme that can be divided further.
pub const MATCH_SPLIT_COMPLEX: u32 = 0x400000;
/// Separate a coda appended to a particle or ending under its own tag.
pub const MATCH_Z_CODA: u32 = 0x800000;
/// Convert first/last-position jamo to compatibility jamo in the output.
pub const MATCH_COMPATIBLE_JAMO: u32 = 0x1000000;
/// Split compound nouns that contain a linking siot.
pub const MATCH_SPLIT_SAISIOT: u32 = 0x2000000;
/// Merge nouns that appear to contain a linking siot.
pub const MATCH_MERGE_SAISIOT: u32 = 0x4000000;

/// Selects which special text patterns the analyzer extracts and how
/// affixes, codas and compounds are joined or split.
///
/// Every toggle starts disabled.
#[derive(Debug, Clone, Copy)]
pub struct Match {
    pub url: bool,
    pub email: bool,
    pub hashtag: bool,
    pub mention: bool,
    pub serial: bool,
    pub emoji: bool,
    pub normalize_coda: bool,
    pub join_noun_prefix: bool,
    pub join_noun_suffix: bool,
    pub join_verb_suffix: bool,
    pub join_adj_suffix: bool,
    pub join_adv_suffix: bool,
    pub split_complex: bool,
    pub z_coda: bool,
    pub compatible_jamo: bool,
    pub split_saisiot: bool,
    pub merge_saisiot: bool,
}

/// The bitmask a `Match` value encodes to: each enabled toggle contributes
/// its fixed bit.
pub open spec fn spec_match_mask(m: Match) -> u32 {
    let f: u32 = 0;
    let f: u32 = if m.url { f | MATCH_URL } else { f };
    let f: u32 = if m.email { f | MATCH_EMAIL } else { f };
    let f: u32 = if m.hashtag { f | MATCH_HASHTAG } else { f };
    let f: u32 = if m.mention { f | MATCH_MENTION } else { f };
    let f: u32 = if m.serial { f | MATCH_SERIAL } else { f };
    let f: u32 = if m.emoji { f | MATCH_EMOJI } else { f };
    let f: u32 = if m.normalize_coda { f | MATCH_NORMALIZE_CODA } else { f };
    let f: u32 = if m.join_noun_prefix { f | MATCH_JOIN_NOUN_PREFIX } else { f };
    let f: u32 = if m.join_noun_suffix { f | MATCH_JOIN_NOUN_SUFFIX } else { f };
    let f: u32 = if m.join_verb_suffix { f | MATCH_JOIN_VERB_SUFFIX } else { f };
    let f: u32 = if m.join_adj_suffix { f | MATCH_JOIN_ADJ_SUFFIX } else { f };
    let f: u32 = if m.join_adv_suffix { f | MATCH_JOIN_ADV_SUFFIX } else { f };
    let f: u32 = if m.split_complex { f | MATCH_SPLIT_COMPLEX } else { f };
    let f: u32 = if m.z_coda { f | MATCH_Z_CODA } else { f };
    let f: u32 = if m.compatible_jamo { f | MATCH_COMPATIBLE_JAMO } else { f };
    let f: u32 = if m.split_saisiot { f | MATCH_SPLIT_SAISIOT } else { f };
    let f: u32 = if m.merge_saisiot { f | MATCH_MERGE_SAISIOT } else { f };
    f
}

impl Match {
    /// A `Match` with every toggle disabled.
    pub open spec fn spec_none() -> Match {
        Match {
            url: false,
            email: false,
            hashtag: false,
            mention: false,
            serial: false,
            emoji: false,
            normalize_coda: false,
            join_noun_prefix: false,
            join_noun_suffix: false,
            join_verb_suffix: false,
            join_adj_suffix: false,
            join_adv_suffix: false,
            split_complex: false,
            z_coda: false,
            compatible_jamo: false,
            split_saisiot: false,
            merge_saisiot: false,
        }
    }

    /// Returns a `Match` with every toggle disabled.
    pub fn new() -> (r: Match)
        ensures
            r == Match::spec_none(),
    {
        Match::none()
    }

    /// Returns a `Match` with every toggle disabled.
    pub fn none() -> (r: Match)
        ensures
            r == Match::spec_none(),
    {
        Match {
            url: false,
            email: false,
            hashtag: false,
            mention: false,
            serial: false,
            emoji: false,
            normalize_coda: false,
            join_noun_prefix: false,
            join_noun_suffix: false,
            join_verb_suffix: false,
            join_adj_suffix: false,
            join_adv_suffix: false,
            split_complex: false,
            z_coda: false,
            compatible_jamo: false,
            split_saisiot: false,
            merge_saisiot: false,
        }
    }

    /// Extract internet addresses; all other toggles keep their values.
    pub fn url(self, r: bool) -> (out: Match)
        ensures
            out == (Match { url: r, ..self }),
    {
        Match { url: r, ..self }
    }

    /// Extract e-mail addresses; all other toggles keep their values.
    pub fn email(self, r: bool) -> (out: Match)
        ensures
            out == (Match { email: r, ..self }),
    {
        Match { email: r, ..self }
    }

    /// Extract hashtags; all other toggles keep their values.
    pub fn hashtag(self, r: bool) -> (out: Match)
        ensures
            out == (Match { hashtag: r, ..self }),
    {
        Match { hashtag: r, ..self }
    }

    /// Extract mentions; all other toggles keep their values.
    pub fn mention(self, r: bool) -> (out: Match)
        ensures
            out == (Match { mention: r, ..self }),
    {
        Match { mention: r, ..self }
    }

    /// Extract serial numbers; all other toggles keep their values.
    pub fn serial(self, r: bool) -> (out: Match)
        ensures
            out == (Match { serial: r, ..self }),
    {
        Match { serial: r, ..self }
    }

    /// Extract emoji; all other toggles keep their values.
    pub fn emoji(self, r: bool) -> (out: Match)
        ensures
            out == (Match { emoji: r, ..self }),
    {
        Match { emoji: r, ..self }
    }

    /// Enables the url, email, hashtag, mention and serial toggles at once;
    /// every other toggle keeps its value.
    pub fn all(self) -> (out: Match)
        ensures
            out == (Match {
                url: true,
                email: true,
                hashtag: true,
                mention: true,
                serial: true,
                ..self
            }),
    {
        Match { url: true, email: true, hashtag: true, mention: true, serial: true, ..self }
    }

    /// Normalize a coda stuck onto a syllable; all other toggles keep their
    /// values.
    pub fn normalize_coda(self, r: bool) -> (out: Match)
        ensures
            out == (Match { normalize_coda: r, ..self }),
    {
        Match { normalize_coda: r, ..self }
    }

    /// Join noun prefixes; all other toggles keep their values.
    pub fn join_noun_prefix(self, r: bool) -> (out: Match)
        ensures
            out == (Match { join_noun_prefix: r, ..self }),
    {
        Match { join_noun_prefix: r, ..self }
    }

    /// Join noun suffixes; all other toggles keep their values.
    pub fn join_noun_suffix(self, r: bool) -> (out: Match)
        ensures
            out == (Match { join_noun_suffix: r, ..self }),
    {
        Match { join_noun_suffix: r, ..self }
    }

    /// Join verb-derivation suffixes; all other toggles keep their values.
    pub fn join_verb_suffix(self, r: bool) -> (out: Match)
        ensures
            out == (Match { join_verb_suffix: r, ..self }),
    {
        Match { join_verb_suffix: r, ..self }
    }

    /// Join adjective-derivation suffixes; all other toggles keep their
    /// values.
    pub fn join_adj_suffix(self, r: bool) -> (out: Match)
        ensures
            out == (Match { join_adj_suffix: r, ..self }),
    {
        Match { join_adj_suffix: r, ..self }
    }

    /// Join adverb-derivation suffixes; all other toggles keep their values.
    pub fn join_adv_suffix(self, r: bool) -> (out: Match)
        ensures
            out == (Match { join_adv_suffix: r, ..self }),
    {
        Match { join_adv_suffix: r, ..self }
    }

    /// Split every morpheme that can be divided further; all other toggles
    /// keep their values.
    pub fn split_complex(self, r: bool) -> (out: Match)
        ensures
            out == (Match { split_complex: r, ..self }),
    {
        Match { split_complex: r, ..self }
    }

    /// Separate appended codas under their own tag; all other toggles keep
    /// their values.
    pub fn z_coda(self, r: bool) -> (out: Match)
        ensures
            out == (Match { z_coda: r, ..self }),
    {
        Match { z_coda: r, ..self }
    }

    /// Convert output jamo to compatibility jamo; all other toggles keep
    /// their values.
    pub fn compatible_jamo(self, r: bool) -> (out: Match)
        ensures
            out == (Match { compatible_jamo: r, ..self }),
    {
        Match { compatible_jamo: r, ..self }
    }

    /// Split compounds containing a linking siot; all other toggles keep
    /// their values.
    pub fn split_saisiot(self, r: bool) -> (out: Match)
        ensures
            out == (Match { split_saisiot: r, ..self }),
    {
        Match { split_saisiot: r, ..self }
    }

    /// Merge nouns that appear to contain a linking siot; all other toggles
    /// keep their values.
    pub fn merge_saisiot(self, r: bool) -> (out: Match)
        ensures
            out == (Match { merge_saisiot: r, ..self }),
    {
        Match { merge_saisiot: r, ..self }
    }

    /// Enables everything `all` enables plus coda normalization; every other
    /// toggle keeps its value.
    pub fn all_with_normailize_coda(self) -> (out: Match)
        ensures
            out == (Match {
                url: true,
                email: true,
                hashtag: true,
                mention: true,
                serial: true,
                normalize_coda: true,
                ..self
            }),
    {
        let base = self.all();
        Match { normalize_coda: true, ..base }
    }

    /// Enables the verb- and adjective-derivation suffix joins; every other
    /// toggle keeps its value.
    pub fn join_v_suffix(self) -> (out: Match)
        ensures
            out == (Match { join_verb_suffix: true, join_adj_suffix: true, ..self }),
    {
        Match { join_verb_suffix: true, join_adj_suffix: true, ..self }
    }

    /// Enables every affix-joining toggle; every other toggle keeps its
    /// value.
    pub fn join_affix(self) -> (out: Match)
        ensures
            out == (Match {
                join_noun_prefix: true,
                join_noun_suffix: true,
                join_verb_suffix: true,
                join_adj_suffix: true,
                join_adv_suffix: true,
                ..self
            }),
    {
        let base = self.join_v_suffix();
        Match { join_noun_prefix: true, join_noun_suffix: true, join_adv_suffix: true, ..base }
    }

    /// Encodes the toggles into the native bitmask.
    pub fn finish(&self) -> (r: i32)
        ensures
            r == spec_match_mask(*self) as i32,
    {
        let mut flag: u32 = 0;
        if self.url {
            flag = flag | MATCH_URL;
        }
        if self.email {
            flag = flag | MATCH_EMAIL;
        }
        if self.hashtag {
            flag = flag | MATCH_HASHTAG;
        }
        if self.mention {
            flag = flag | MATCH_MENTION;
        }
        if self.serial {
            flag = flag | MATCH_SERIAL;
        }
        if self.emoji {
            flag = flag | MATCH_EMOJI;
        }
        if self.normalize_coda {
            flag = flag | MATCH_NORMALIZE_CODA;
        }
        if self.join_noun_prefix {
            flag = flag | MATCH_JOIN_NOUN_PREFIX;
        }
        if self.join_noun_suffix {
            flag = flag | MATCH_JOIN_NOUN_SUFFIX;
        }
        if self.join_verb_suffix {
            flag = flag | MATCH_JOIN_VERB_SUFFIX;
        }
        if self.join_adj_suffix {
            flag = flag | MATCH_JOIN_ADJ_SUFFIX;
        }
        if self.join_adv_suffix {
            flag = flag | MATCH_JOIN_ADV_SUFFIX;
        }
        if self.split_complex {
            flag = flag | MATCH_SPLIT_COMPLEX;
        }
        if self.z_coda {
            flag = flag | MATCH_Z_CODA;
        }
        if self.compatible_jamo {
            flag = flag | MATCH_COMPATIBLE_JAMO;
        }
        if self.split_saisiot {
            flag = flag | MATCH_SPLIT_SAISIOT;
        }
        if self.merge_saisiot {
            flag = flag | MATCH_MERGE_SAISIOT;
        }
        flag as i32
    }
}

/// The mask is exactly the sum of the enabled toggles' bit values: the
/// toggles map to pairwise-disjoint bits, so enabling exactly one toggle
/// yields a mask equal to that toggle's bit with every other bit clear.
pub proof fn lemma_match_mask_is_sum(m: Match)
    ensures
        spec_match_mask(m) == (if m.url { MATCH_URL } else { 0u32 }) + (if m.email {
            MATCH_EMAIL
        } else {
            0u32
        }) + (if m.hashtag { MATCH_HASHTAG } else { 0u32 }) + (if m.mention {
            MATCH_MENTION
        } else {
            0u32
        }) + (if m.serial { MATCH_SERIAL } else { 0u32 }) + (if m.emoji {
            MATCH_EMOJI
        } else {
            0u32
        }) + (if m.normalize_coda { MATCH_NORMALIZE_CODA } else { 0u32 }) + (if m.join_noun_prefix {
            MATCH_JOIN_NOUN_PREFIX
        } else {
            0u32
        }) + (if m.join_noun_suffix { MATCH_JOIN_NOUN_SUFFIX } else { 0u32 }) + (if m
            .join_verb_suffix {
            MATCH_JOIN_VERB_SUFFIX
        } else {
            0u32
        }) + (if m.join_adj_suffix { MATCH_JOIN_ADJ_SUFFIX } else { 0u32 }) + (if m
            .join_adv_suffix {
            MATCH_JOIN_ADV_SUFFIX
        } else {
            0u32
        }) + (if m.split_complex { MATCH_SPLIT_COMPLEX } else { 0u32 }) + (if m.z_coda {
            MATCH_Z_CODA
        } else {
            0u32
        }) + (if m.compatible_jamo { MATCH_COMPATIBLE_JAMO } else { 0u32 }) + (if m.split_saisiot {
            MATCH_SPLIT_SAISIOT
        } else {
            0u32
        }) + (if m.merge_saisiot { MATCH_MERGE_SAISIOT } else { 0u32 }),
{
    let b1: bool = m.url;
    let b2: bool = m.email;
    let b3: bool = m.hashtag;
    let b4: bool = m.mention;
    let b5: bool = m.serial;
    let b6: bool = m.emoji;
    let b7: bool = m.normalize_coda;
    let b8: bool = m.join_noun_prefix;
    let b9: bool = m.join_noun_suffix;
    let b10: bool = m.join_verb_suffix;
    let b11: bool = m.join_adj_suffix;
    let b12: bool = m.join_adv_suffix;
    let b13: bool = m.split_complex;
    let b14: bool = m.z_coda;
    let b15: bool = m.compatible_jamo;
    let b16: bool = m.split_saisiot;
    let b17: bool = m.merge_saisiot;
    let x1: u32 = if m.url { 0u32 | MATCH_URL } else { 0u32 };
    let x2: u32 = if m.email { x1 | MATCH_EMAIL } else { x1 };
    let x3: u32 = if m.hashtag { x2 | MATCH_HASHTAG } else { x2 };
    let x4: u32 = if m.mention { x3 | MATCH_MENTION } else { x3 };
    let x5: u32 = if m.serial { x4 | MATCH_SERIAL } else { x4 };
    let x6: u32 = if m.emoji { x5 | MATCH_EMOJI } else { x5 };
    let x7: u32 = if m.normalize_coda { x6 | MATCH_NORMALIZE_CODA } else { x6 };
    let x8: u32 = if m.join_noun_prefix { x7 | MATCH_JOIN_NOUN_PREFIX } else { x7 };
    let x9: u32 = if m.join_noun_suffix { x8 | MATCH_JOIN_NOUN_SUFFIX } else { x8 };
    let x10: u32 = if m.join_verb_suffix { x9 | MATCH_JOIN_VERB_SUFFIX } else { x9 };
    let x11: u32 = if m.join_adj_suffix { x10 | MATCH_JOIN_ADJ_SUFFIX } else { x10 };
    let x12: u32 = if m.join_adv_suffix { x11 | MATCH_JOIN_ADV_SUFFIX } else { x11 };
    let x13: u32 = if m.split_complex { x12 | MATCH_SPLIT_COMPLEX } else { x12 };
    let x14: u32 = if m.z_coda { x13 | MATCH_Z_CODA } else { x13 };
    let x15: u32 = if m.compatible_jamo { x14 | MATCH_COMPATIBLE_JAMO } else { x14 };
    let x16: u32 = if m.split_saisiot { x15 | MATCH_SPLIT_SAISIOT } else { x15 };
    let x17: u32 = if m.merge_saisiot { x16 | MATCH_MERGE_SAISIOT } else { x16 };
    assert(spec_match_mask(m) == x17);
    assert(x17 == (if b1 { 0x1u32 } else { 0u32 }) + (if b2 { 0x2u32 } else { 0u32 }) + (if b3 { 0x4u32 } else { 0u32 }) + (if b4 { 0x8u32 } else { 0u32 }) + (if b5 { 0x10u32 } else { 0u32 }) + (if b6 { 0x20u32 } else { 0u32 }) + (if b7 { 0x10000u32 } else { 0u32 }) + (if b8 { 0x20000u32 } else { 0u32 }) + (if b9 { 0x40000u32 } else { 0u32 }) + (if b10 { 0x80000u32 } else { 0u32 }) + (if b11 { 0x100000u32 } else { 0u32 }) + (if b12 { 0x200000u32 } else { 0u32 }) + (if b13 { 0x400000u32 } else { 0u32 }) + (if b14 { 0x800000u32 } else { 0u32 }) + (if b15 { 0x1000000u32 } else { 0u32 }) + (if b16 { 0x2000000u32 } else { 0u32 }) + (if b17 { 0x4000000u32 } else { 0u32 })) by (bit_vector)
        requires
            x1 == (if b1 { 0u32 | 0x1u32 } else { 0u32 }),
            x2 == (if b2 { x1 | 0x2u32 } else { x1 }),
            x3 == (if b3 { x2 | 0x4u32 } else { x2 }),
            x4 == (if b4 { x3 | 0x8u32 } else { x3 }),
            x5 == (if b5 { x4 | 0x10u32 } else { x4 }),
            x6 == (if b6 { x5 | 0x20u32 } else { x5 }),
            x7 == (if b7 { x6 | 0x10000u32 } else { x6 }),
            x8 == (if b8 { x7 | 0x20000u32 } else { x7 }),
            x9 == (if b9 { x8 | 0x40000u32 } else { x8 }),
            x10 == (if b10 { x9 | 0x80000u32 } else { x9 }),
            x11 == (if b11 { x10 | 0x100000u32 } else { x10 }),
            x12 == (if b12 { x11 | 0x200000u32 } else { x11 }),
            x13 == (if b13 { x12 | 0x400000u32 } else { x12 }),
            x14 == (if b14 { x13 | 0x800000u32 } else { x13 }),
            x15 == (if b15 { x14 | 0x1000000u32 } else { x14 }),
            x16 == (if b16 { x15 | 0x2000000u32 } else { x15 }),
            x17 == (if b17 { x16 | 0x4000000u32 } else { x16 }),
    ;
}

/// The mask decodes: each toggle's bit is set in the mask exactly when that
/// toggle is enabled, so the encoding loses no toggle and invents none.
#[verifier::rlimit(100)]
#[verifier::spinoff_prover]
pub proof fn lemma_match_mask_decodes(m: Match)
    ensures
        (spec_match_mask(m) & MATCH_URL != 0) <==> m.url,
        (spec_match_mask(m) & MATCH_EMAIL != 0) <==> m.email,
        (spec_match_mask(m) & MATCH_HASHTAG != 0) <==> m.hashtag,
        (spec_match_mask(m) & MATCH_MENTION != 0) <==> m.mention,
        (spec_match_mask(m) & MATCH_SERIAL != 0) <==> m.serial,
        (spec_match_mask(m) & MATCH_EMOJI != 0) <==> m.emoji,
        (spec_match_mask(m) & MATCH_NORMALIZE_CODA != 0) <==> m.normalize_coda,
        (spec_match_mask(m) & MATCH_JOIN_NOUN_PREFIX != 0) <==> m.join_noun_prefix,
        (spec_match_mask(m) & MATCH_JOIN_NOUN_SUFFIX != 0) <==> m.join_noun_suffix,
        (spec_match_mask(m) & MATCH_JOIN_VERB_SUFFIX != 0) <==> m.join_verb_suffix,
        (spec_match_mask(m) & MATCH_JOIN_ADJ_SUFFIX != 0) <==> m.join_adj_suffix,
        (spec_match_mask(m) & MATCH_JOIN_ADV_SUFFIX != 0) <==> m.join_adv_suffix,
        (spec_match_mask(m) & MATCH_SPLIT_COMPLEX != 0) <==> m.split_complex,
        (spec_match_mask(m) & MATCH_Z_CODA != 0) <==> m.z_coda,
        (spec_match_mask(m) & MATCH_COMPATIBLE_JAMO != 0) <==> m.compatible_jamo,
        (spec_match_mask(m) & MATCH_SPLIT_SAISIOT != 0) <==> m.split_saisiot,
        (spec_match_mask(m) & MATCH_MERGE_SAISIOT != 0) <==> m.merge_saisiot,
{
    let b1: bool = m.url;
    let b2: bool = m.email;
    let b3: bool = m.hashtag;
    let b4: bool = m.mention;
    let b5: bool = m.serial;
    let b6: bool = m.emoji;
    let b7: bool = m.normalize_coda;
    let b8: bool = m.join_noun_prefix;
    let b9: bool = m.join_noun_suffix;
    let b10: bool = m.join_verb_suffix;
    let b11: bool = m.join_adj_suffix;
    let b12: bool = m.join_adv_suffix;
    let b13: bool = m.split_complex;
    let b14: bool = m.z_coda;
    let b15: bool = m.compatible_jamo;
    let b16: bool = m.split_saisiot;
    let b17: bool = m.merge_saisiot;
    let x1: u32 = if m.url { 0u32 | MATCH_URL } else { 0u32 };
    let x2: u32 = if m.email { x1 | MATCH_EMAIL } else { x1 };
    let x3: u32 = if m.hashtag { x2 | MATCH_HASHTAG } else { x2 };
    let x4: u32 = if m.mention { x3 | MATCH_MENTION } else { x3 };
    let x5: u32 = if m.serial { x4 | MATCH_SERIAL } else { x4 };
    let x6: u32 = if m.emoji { x5 | MATCH_EMOJI } else { x5 };
    let x7: u32 = if m.normalize_coda { x6 | MATCH_NORMALIZE_CODA } else { x6 };
    let x8: u32 = if m.join_noun_prefix { x7 | MATCH_JOIN_NOUN_PREFIX } else { x7 };
    let x9: u32 = if m.join_noun_suffix { x8 | MATCH_JOIN_NOUN_SUFFIX } else { x8 };
    let x10: u32 = if m.join_verb_suffix { x9 | MATCH_JOIN_VERB_SUFFIX } else { x9 };
    let x11: u32 = if m.join_adj_suffix { x10 | MATCH_JOIN_ADJ_SUFFIX } else { x10 };
    let x12: u32 = if m.join_adv_suffix { x11 | MATCH_JOIN_ADV_SUFFIX } else { x11 };
    let x13: u32 = if m.split_complex { x12 | MATCH_SPLIT_COMPLEX } else { x12 };
    let x14: u32 = if m.z_coda { x13 | MATCH_Z_CODA } else { x13 };
    let x15: u32 = if m.compatible_jamo { x14 | MATCH_COMPATIBLE_JAMO } else { x14 };
    let x16: u32 = if m.split_saisiot { x15 | MATCH_SPLIT_SAISIOT } else { x15 };
    let x17: u32 = if m.merge_saisiot { x16 | MATCH_MERGE_SAISIOT } else { x16 };
    assert(spec_match_mask(m) == x17);
    assert((x17 & 0x1u32 != 0) == b1 && (x17 & 0x2u32 != 0) == b2 && (x17 & 0x4u32 != 0) == b3 && (x17 & 0x8u32 != 0) == b4 && (x17 & 0x10u32 != 0) == b5 && (x17 & 0x20u32 != 0) == b6 && (x17 & 0x10000u32 != 0) == b7 && (x17 & 0x20000u32 != 0) == b8 && (x17 & 0x40000u32 != 0) == b9 && (x17 & 0x80000u32 != 0) == b10 && (x17 & 0x100000u32 != 0) == b11 && (x17 & 0x200000u32 != 0) == b12 && (x17 & 0x400000u32 != 0) == b13 && (x17 & 0x800000u32 != 0) == b14 && (x17 & 0x1000000u32 != 0) == b15 && (x17 & 0x2000000u32 != 0) == b16 && (x17 & 0x4000000u32 != 0) == b17) by (bit_vector)
        requires
            x1 == (if b1 { 0u32 | 0x1u32 } else { 0u32 }),
            x2 == (if b2 { x1 | 0x2u32 } else { x1 }),
            x3 == (if b3 { x2 | 0x4u32 } else { x2 }),
            x4 == (if b4 { x3 | 0x8u32 } else { x3 }),
            x5 == (if b5 { x4 | 0x10u32 } else { x4 }),
            x6 == (if b6 { x5 | 0x20u32 } else { x5 }),
            x7 == (if b7 { x6 | 0x10000u32 } else { x6 }),
            x8 == (if b8 { x7 | 0x20000u32 } else { x7 }),
            x9 == (if b9 { x8 | 0x40000u32 } else { x8 }),
            x10 == (if b10 { x9 | 0x80000u32 } else { x9 }),
            x11 == (if b11 { x10 | 0x100000u32 } else { x10 }),
            x12 == (if b12 { x11 | 0x200000u32 } else { x11 }),
            x13 == (if b13 { x12 | 0x400000u32 } else { x12 }),
            x14 == (if b14 { x13 | 0x800000u32 } else { x13 }),
            x15 == (if b15 { x14 | 0x1000000u32 } else { x14 }),
            x16 == (if b16 { x15 | 0x2000000u32 } else { x15 }),
            x17 == (if b17 { x16 | 0x4000000u32 } else { x16 }),
    ;
}

} // verus!
