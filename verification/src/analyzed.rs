//! Bounds-checked projection of an analysis result.
//!
//! A native analysis call returns a ranked list of candidate parses, each a
//! list of tagged morphemes, reachable only through positional getters.  The
//! projection here holds that two-level structure as plain values together
//! with the per-candidate morpheme counts captured at construction, so every
//! later access is validated against the cached shape in constant time and
//! an out-of-range index yields an absent value rather than reaching the
//! native layer, whose behavior on bad indices is undefined.
//!
//! Flattened traversals are candidate-major, morpheme-minor: candidate `i`
//! contributes exactly `word_num(i)` consecutive entries.

use vstd::prelude::*;

use crate::pos_tag::POSTag;
use crate::pos_tag::spec_tag_name;

verus! {

/// One morpheme's token record, field-for-field as the native interface
/// reports it.  Offsets and lengths are in UTF-16 code units regardless of
/// the encoding the text was analyzed under.  The two score fields carry the
/// bit patterns of the native single-precision values, so the record stays
/// bit-exact without floating-point fields.
#[derive(Debug, Clone, Copy, PartialEq, Eq, Structural)]
pub struct Token {
    /// Start position, in UTF-16 code units.
    pub chr_position: u32,
    /// Word index within the text, counted by whitespace.
    pub word_position: u32,
    /// Sentence index.
    pub sent_position: u32,
    /// Line number.
    pub line_number: u32,
    /// Length, in UTF-16 code units.
    pub length: u16,
    /// Part-of-speech tag.
    pub tag: POSTag,
    /// Bit pattern of the morpheme's language-model score.
    pub score_bits: u32,
    /// Bit pattern of the typo-correction cost; zero bits when no typo was
    /// corrected.
    pub typo_cost_bits: u32,
    /// The pre-correction typo form id; when the typo cost is zero, the id
    /// of the pretokenized span instead.
    pub typo_form_id: u32,
    /// For paired-bracket tags, the position of the partner morpheme; the
    /// all-ones value when there is none.
    pub paired_token: u32,
    /// One-based index of the enclosing quoted or bracketed sub-sentence;
    /// zero when not inside one.
    pub sub_sent_position: u32,
    /// Sense number.
    pub sense_id: u8,
    /// Script class of the characters, from the native script table.
    pub script: u8,
}

/// One analyzed morpheme: its form in both native encodings plus its token
/// record.
#[derive(Debug)]
pub struct Morpheme {
    /// The form, UTF-8.
    pub form: String,
    /// The form, UTF-16 code units.
    pub form_w: Vec<u16>,
    /// The token record.
    pub token: Token,
}

/// The per-candidate views of a list of candidates.
pub open spec fn cand_views(v: Seq<Vec<Morpheme>>) -> Seq<Seq<Morpheme>> {
    v.map_values(|c: Vec<Morpheme>| c@)
}

/// The number of entries the first `i` rows contribute to the flattened
/// sequence.
pub open spec fn count_upto<T>(rows: Seq<Seq<T>>, i: int) -> int
    decreases i,
{
    if i <= 0 {
        0
    } else {
        count_upto(rows, i - 1) + rows[i - 1].len()
    }
}

/// The first `i` rows flattened, row-major.
pub open spec fn flat_upto<T>(rows: Seq<Seq<T>>, i: int) -> Seq<T>
    decreases i,
{
    if i <= 0 {
        Seq::empty()
    } else {
        flat_upto(rows, i - 1) + rows[i - 1]
    }
}

/// All rows flattened, row-major.
pub open spec fn flat_all<T>(rows: Seq<Seq<T>>) -> Seq<T> {
    flat_upto(rows, rows.len() as int)
}

/// The length of the flattened prefix is the sum of the row lengths.
pub proof fn lemma_flat_upto_len<T>(rows: Seq<Seq<T>>, i: int)
    requires
        0 <= i <= rows.len(),
    ensures
        flat_upto(rows, i).len() == count_upto(rows, i),
    decreases i,
{
    if i > 0 {
        lemma_flat_upto_len(rows, i - 1);
    }
}

/// Entry counts grow monotonically with the prefix length.
pub proof fn lemma_count_upto_mono<T>(rows: Seq<Seq<T>>, i1: int, i2: int)
    requires
        0 <= i1 <= i2 <= rows.len(),
    ensures
        count_upto(rows, i1) <= count_upto(rows, i2),
    decreases i2,
{
    if i1 < i2 {
        lemma_count_upto_mono(rows, i1, i2 - 1);
    }
}

/// Where each row entry lands in the flattened prefix: row `i` starts at
/// offset `count_upto(rows, i)` and its entries follow in order.
pub proof fn lemma_flat_entry<T>(rows: Seq<Seq<T>>, k: int, i: int, j: int)
    requires
        0 <= i < k <= rows.len(),
        0 <= j < rows[i].len(),
    ensures
        count_upto(rows, i) + j < flat_upto(rows, k).len(),
        flat_upto(rows, k)[count_upto(rows, i) + j] == rows[i][j],
    decreases k,
{
    lemma_flat_upto_len(rows, k);
    lemma_flat_upto_len(rows, k - 1);
    assert(flat_upto(rows, k) == flat_upto(rows, k - 1) + rows[k - 1]);
    if i == k - 1 {
        lemma_count_upto_mono(rows, 0, i);
        assert((flat_upto(rows, k - 1) + rows[k - 1])[count_upto(rows, i) + j] == rows[k - 1][(
        count_upto(rows, i) + j) - flat_upto(rows, k - 1).len()]);
    } else {
        lemma_flat_entry(rows, k - 1, i, j);
        lemma_count_upto_mono(rows, 0, i);
        assert((flat_upto(rows, k - 1) + rows[k - 1])[count_upto(rows, i) + j] == flat_upto(
            rows,
            k - 1,
        )[count_upto(rows, i) + j]);
    }
}

/// The law of the flattened projection: its length is the sum of the
/// per-row counts, each row contributes exactly its own length, and the
/// entries appear row-major: row `i` occupies the consecutive index range
/// starting at `count_upto(rows, i)`, in row order.
pub proof fn lemma_flat_order<T>(rows: Seq<Seq<T>>)
    ensures
        flat_all(rows).len() == count_upto(rows, rows.len() as int),
        forall|i: int| 0 <= i < rows.len() ==> count_upto(rows, i + 1) == count_upto(rows, i)
            + #[trigger] rows[i].len(),
        forall|i: int, j: int| 0 <= i < rows.len() && 0 <= j < rows[i].len() ==> flat_all(rows)[
            count_upto(rows, i) + j
        ] == #[trigger] rows[i][j],
{
    lemma_flat_upto_len(rows, rows.len() as int);
    assert forall|i: int, j: int| 0 <= i < rows.len() && 0 <= j < rows[i].len() implies flat_all(
        rows,
    )[count_upto(rows, i) + j] == #[trigger] rows[i][j] by {
        lemma_flat_entry(rows, rows.len() as int, i, j);
    }
}

/// The views of a flattened form-and-token pair list.
pub open spec fn pair_views(s: Seq<(String, Token)>) -> Seq<(Seq<char>, Token)> {
    s.map_values(|p: (String, Token)| (p.0@, p.1))
}

/// The views of a flattened wide-form-and-token pair list.
pub open spec fn pair_views_w(s: Seq<(Vec<u16>, Token)>) -> Seq<(Seq<u16>, Token)> {
    s.map_values(|p: (Vec<u16>, Token)| (p.0@, p.1))
}

/// Appending a pair appends its view.
pub proof fn lemma_pair_views_push(s: Seq<(String, Token)>, p: (String, Token))
    ensures
        pair_views(s.push(p)) =~= pair_views(s).push((p.0@, p.1)),
{
}

/// Appending a wide pair appends its view.
pub proof fn lemma_pair_views_w_push(s: Seq<(Vec<u16>, Token)>, p: (Vec<u16>, Token))
    ensures
        pair_views_w(s.push(p)) =~= pair_views_w(s).push((p.0@, p.1)),
{
}

/// Copies a sequence of UTF-16 code units.
fn copy_units(src: &Vec<u16>) -> (r: Vec<u16>)
    ensures
        r@ == src@,
{
    let mut out: Vec<u16> = Vec::new();
    let mut k: usize = 0;
    while k < src.len()
        invariant
            k <= src@.len(),
            out@ == src@.take(k as int),
        decreases src@.len() - k,
    {
        out.push(src[k]);
        proof {
            assert(out@ =~= src@.take(k as int + 1));
        }
        k = k + 1;
    }
    proof {
        assert(src@.take(src@.len() as int) =~= src@);
    }
    out
}

/// The result of one analysis call: a ranked candidate list, each candidate
/// a morpheme list, with the per-candidate counts cached at construction.
pub struct Analyzed {
    candidates: Vec<Vec<Morpheme>>,
    size: usize,
    words: Vec<usize>,
}

impl Analyzed {
    /// The candidate parses this result projects.
    pub closed spec fn spec_candidates(self) -> Seq<Seq<Morpheme>> {
        cand_views(self.candidates@)
    }

    #[verifier::type_invariant]
    closed spec fn inv(self) -> bool {
        &&& self.size == self.candidates@.len()
        &&& self.words@.len() == self.candidates@.len()
        &&& forall|i: int| 0 <= i < self.candidates@.len() ==> self.words@[i]
            == #[trigger] self.candidates@[i]@.len()
    }

    /// The number of candidates.
    pub open spec fn spec_size(self) -> nat {
        self.spec_candidates().len()
    }

    /// The number of morphemes in candidate `i`.
    pub open spec fn spec_word_num(self, i: int) -> nat {
        self.spec_candidates()[i].len()
    }

    /// True when `(i, j)` addresses a morpheme of this result.
    pub open spec fn spec_valid(self, i: int, j: int) -> bool {
        0 <= i < self.spec_size() && 0 <= j < self.spec_word_num(i)
    }

    /// The morpheme at `(i, j)`.
    pub open spec fn spec_morph(self, i: int, j: int) -> Morpheme {
        self.spec_candidates()[i][j]
    }

    /// The per-candidate form-and-token pairs, with the form in UTF-8.
    pub open spec fn spec_pairs(self) -> Seq<Seq<(Seq<char>, Token)>> {
        self.spec_candidates().map_values(
            |c: Seq<Morpheme>| c.map_values(|m: Morpheme| (m.form@, m.token)),
        )
    }

    /// The per-candidate form-and-token pairs, with the form in UTF-16.
    pub open spec fn spec_pairs_w(self) -> Seq<Seq<(Seq<u16>, Token)>> {
        self.spec_candidates().map_values(
            |c: Seq<Morpheme>| c.map_values(|m: Morpheme| (m.form_w@, m.token)),
        )
    }

    /// The per-candidate token records.
    pub open spec fn spec_tokens(self) -> Seq<Seq<Token>> {
        self.spec_candidates().map_values(
            |c: Seq<Morpheme>| c.map_values(|m: Morpheme| m.token),
        )
    }

    /// Wraps the projected candidate list, capturing each candidate's
    /// morpheme count once so later bounds checks need no further native
    /// round trips.
    pub fn new(candidates: Vec<Vec<Morpheme>>) -> (r: Analyzed)
        ensures
            r.spec_candidates() == cand_views(candidates@),
    {
        let size = candidates.len();
        let mut words: Vec<usize> = Vec::new();
        let mut i: usize = 0;
        while i < size
            invariant
                i <= size,
                size == candidates@.len(),
                words@.len() == i,
                forall|k: int| 0 <= k < i ==> words@[k] == #[trigger] candidates@[k]@.len(),
            decreases size - i,
        {
            let n = candidates[i].len();
            words.push(n);
            i = i + 1;
        }
        Analyzed { candidates, size, words }
    }

    /// The number of candidates in this result.
    pub fn size(&self) -> (r: usize)
        ensures
            r == self.spec_size(),
    {
        proof {
            use_type_invariant(&*self);
        }
        self.size
    }

    /// The number of morphemes in candidate `index`, or nothing when no such
    /// candidate exists.
    pub fn word_num(&self, index: usize) -> (r: Option<usize>)
        ensures
            index < self.spec_size() ==> r == Some(self.spec_word_num(index as int) as usize),
            index >= self.spec_size() ==> r is None,
    {
        proof {
            use_type_invariant(&*self);
        }
        if index < self.words.len() {
            Some(self.words[index])
        } else {
            None
        }
    }

    /// Validates an index pair against the cached shape: with a morpheme
    /// index, both coordinates must be in range; without one, only the
    /// candidate index is checked.
    pub fn check_index(&self, index: usize, word_num: Option<usize>) -> (r: bool)
        ensures
            r == match word_num {
                Some(j) => self.spec_valid(index as int, j as int),
                None => index < self.spec_size(),
            },
    {
        proof {
            use_type_invariant(&*self);
        }
        match word_num {
            Some(j) => index < self.size && j < self.words[index],
            None => index < self.size,
        }
    }

    /// The UTF-8 form of morpheme `(index, word_num)`, or nothing when the
    /// indices fall outside the cached shape.
    pub fn form(&self, index: usize, word_num: usize) -> (r: Option<String>)
        ensures
            self.spec_valid(index as int, word_num as int) ==> (r matches Some(s) && s@
                == self.spec_morph(index as int, word_num as int).form@),
            !self.spec_valid(index as int, word_num as int) ==> r is None,
    {
        proof {
            use_type_invariant(&*self);
        }
        if index < self.size && word_num < self.words[index] {
            Some(self.candidates[index][word_num].form.clone())
        } else {
            None
        }
    }

    /// The UTF-16 form of morpheme `(index, word_num)`, or nothing when the
    /// indices fall outside the cached shape.
    pub fn form_w(&self, index: usize, word_num: usize) -> (r: Option<Vec<u16>>)
        ensures
            self.spec_valid(index as int, word_num as int) ==> (r matches Some(s) && s@
                == self.spec_morph(index as int, word_num as int).form_w@),
            !self.spec_valid(index as int, word_num as int) ==> r is None,
    {
        proof {
            use_type_invariant(&*self);
        }
        if index < self.size && word_num < self.words[index] {
            Some(copy_units(&self.candidates[index][word_num].form_w))
        } else {
            None
        }
    }

    /// The tag name of morpheme `(index, word_num)`, or nothing when the
    /// indices fall outside the cached shape.
    pub fn tag(&self, index: usize, word_num: usize) -> (r: Option<String>)
        ensures
            self.spec_valid(index as int, word_num as int) ==> (r matches Some(s) && s@
                == spec_tag_name(self.spec_morph(index as int, word_num as int).token.tag.0)),
            !self.spec_valid(index as int, word_num as int) ==> r is None,
    {
        proof {
            use_type_invariant(&*self);
        }
        if index < self.size && word_num < self.words[index] {
            let name = self.candidates[index][word_num].token.tag.as_str();
            Some(String::from_str(name))
        } else {
            None
        }
    }

    /// The token record of morpheme `(index, word_num)`, or nothing when the
    /// indices fall outside the cached shape.
    pub fn token(&self, index: usize, word_num: usize) -> (r: Option<Token>)
        ensures
            self.spec_valid(index as int, word_num as int) ==> r == Some(
                self.spec_morph(index as int, word_num as int).token,
            ),
            !self.spec_valid(index as int, word_num as int) ==> r is None,
    {
        proof {
            use_type_invariant(&*self);
        }
        if index < self.size && word_num < self.words[index] {
            Some(self.candidates[index][word_num].token)
        } else {
            None
        }
    }

    /// The language-model score bit pattern of morpheme `(index, word_num)`,
    /// or nothing when the indices fall outside the cached shape.
    pub fn score_bits(&self, index: usize, word_num: usize) -> (r: Option<u32>)
        ensures
            self.spec_valid(index as int, word_num as int) ==> r == Some(
                self.spec_morph(index as int, word_num as int).token.score_bits,
            ),
            !self.spec_valid(index as int, word_num as int) ==> r is None,
    {
        proof {
            use_type_invariant(&*self);
        }
        if index < self.size && word_num < self.words[index] {
            Some(self.candidates[index][word_num].token.score_bits)
        } else {
            None
        }
    }

    /// The typo-correction cost bit pattern of morpheme `(index, word_num)`,
    /// or nothing when the indices fall outside the cached shape.
    pub fn typo_cost_bits(&self, index: usize, word_num: usize) -> (r: Option<u32>)
        ensures
            self.spec_valid(index as int, word_num as int) ==> r == Some(
                self.spec_morph(index as int, word_num as int).token.typo_cost_bits,
            ),
            !self.spec_valid(index as int, word_num as int) ==> r is None,
    {
        proof {
            use_type_invariant(&*self);
        }
        if index < self.size && word_num < self.words[index] {
            Some(self.candidates[index][word_num].token.typo_cost_bits)
        } else {
            None
        }
    }

    /// The length of morpheme `(index, word_num)` in UTF-16 code units, or
    /// nothing when the indices fall outside the cached shape.
    pub fn length(&self, index: usize, word_num: usize) -> (r: Option<usize>)
        ensures
            self.spec_valid(index as int, word_num as int) ==> r == Some(
                self.spec_morph(index as int, word_num as int).token.length as usize,
            ),
            !self.spec_valid(index as int, word_num as int) ==> r is None,
    {
        proof {
            use_type_invariant(&*self);
        }
        if index < self.size && word_num < self.words[index] {
            Some(self.candidates[index][word_num].token.length as usize)
        } else {
            None
        }
    }

    /// The word index of morpheme `(index, word_num)`, or nothing when the
    /// indices fall outside the cached shape.
    pub fn word_position(&self, index: usize, word_num: usize) -> (r: Option<usize>)
        ensures
            self.spec_valid(index as int, word_num as int) ==> r == Some(
                self.spec_morph(index as int, word_num as int).token.word_position as usize,
            ),
            !self.spec_valid(index as int, word_num as int) ==> r is None,
    {
        proof {
            use_type_invariant(&*self);
        }
        if index < self.size && word_num < self.words[index] {
            Some(self.candidates[index][word_num].token.word_position as usize)
        } else {
            None
        }
    }

    /// The sentence index of morpheme `(index, word_num)`, or nothing when
    /// the indices fall outside the cached shape.
    pub fn sent_position(&self, index: usize, word_num: usize) -> (r: Option<usize>)
        ensures
            self.spec_valid(index as int, word_num as int) ==> r == Some(
                self.spec_morph(index as int, word_num as int).token.sent_position as usize,
            ),
            !self.spec_valid(index as int, word_num as int) ==> r is None,
    {
        proof {
            use_type_invariant(&*self);
        }
        if index < self.size && word_num < self.words[index] {
            Some(self.candidates[index][word_num].token.sent_position as usize)
        } else {
            None
        }
    }

    /// Every form-and-token pair, flattened candidate-major, morpheme-minor.
    pub fn to_vec(&self) -> (r: Vec<(String, Token)>)
        ensures
            pair_views(r@) == flat_all(self.spec_pairs()),
    {
        proof {
            use_type_invariant(&*self);
        }
        let rows = Ghost(self.spec_pairs());
        let mut out: Vec<(String, Token)> = Vec::new();
        let mut i: usize = 0;
        while i < self.size
            invariant
                i <= self.size,
                self.inv(),
                rows@ == self.spec_pairs(),
                pair_views(out@) == flat_upto(rows@, i as int),
            decreases self.size - i,
        {
            let n = self.words[i];
            let mut j: usize = 0;
            while j < n
                invariant
                    j <= n,
                    i < self.size,
                    self.inv(),
                    n == self.spec_word_num(i as int),
                    rows@ == self.spec_pairs(),
                    pair_views(out@) == flat_upto(rows@, i as int) + rows@[i as int].take(j as int),
                decreases n - j,
            {
                let m = &self.candidates[i][j];
                let pushed = (m.form.clone(), m.token);
                let ghost prev = out@;
                proof {
                    let mv = self.spec_candidates()[i as int][j as int];
                    assert(rows@[i as int] == self.spec_candidates()[i as int].map_values(
                        |mm: Morpheme| (mm.form@, mm.token),
                    ));
                    assert(rows@[i as int][j as int] == (mv.form@, mv.token));
                    assert((pushed.0@, pushed.1) == rows@[i as int][j as int]);
                }
                out.push(pushed);
                proof {
                    lemma_pair_views_push(prev, (out@[prev.len() as int].0, out@[
                        prev.len() as int
                    ].1));
                    assert(pair_views(prev).push(rows@[i as int][j as int]) =~= flat_upto(
                        rows@,
                        i as int,
                    ) + rows@[i as int].take(j as int + 1));
                    assert(pair_views(out@) =~= flat_upto(rows@, i as int) + rows@[i as int].take(
                        j as int + 1,
                    ));
                }
                j = j + 1;
            }
            proof {
                assert(rows@[i as int].take(n as int) =~= rows@[i as int]);
                assert(pair_views(out@) =~= flat_upto(rows@, i as int + 1));
            }
            i = i + 1;
        }
        out
    }

    /// Every wide-form-and-token pair, flattened candidate-major,
    /// morpheme-minor.
    pub fn to_vec_w(&self) -> (r: Vec<(Vec<u16>, Token)>)
        ensures
            pair_views_w(r@) == flat_all(self.spec_pairs_w()),
    {
        proof {
            use_type_invariant(&*self);
        }
        let rows = Ghost(self.spec_pairs_w());
        let mut out: Vec<(Vec<u16>, Token)> = Vec::new();
        let mut i: usize = 0;
        while i < self.size
            invariant
                i <= self.size,
                self.inv(),
                rows@ == self.spec_pairs_w(),
                pair_views_w(out@) == flat_upto(rows@, i as int),
            decreases self.size - i,
        {
            let n = self.words[i];
            let mut j: usize = 0;
            while j < n
                invariant
                    j <= n,
                    i < self.size,
                    self.inv(),
                    n == self.spec_word_num(i as int),
                    rows@ == self.spec_pairs_w(),
                    pair_views_w(out@) == flat_upto(rows@, i as int) + rows@[i as int].take(
                        j as int,
                    ),
                decreases n - j,
            {
                let m = &self.candidates[i][j];
                let pushed = (copy_units(&m.form_w), m.token);
                let ghost prev = out@;
                proof {
                    let mv = self.spec_candidates()[i as int][j as int];
                    assert(rows@[i as int] == self.spec_candidates()[i as int].map_values(
                        |mm: Morpheme| (mm.form_w@, mm.token),
                    ));
                    assert(rows@[i as int][j as int] == (mv.form_w@, mv.token));
                    assert((pushed.0@, pushed.1) == rows@[i as int][j as int]);
                }
                out.push(pushed);
                proof {
                    lemma_pair_views_w_push(prev, (out@[prev.len() as int].0, out@[
                        prev.len() as int
                    ].1));
                    assert(pair_views_w(prev).push(rows@[i as int][j as int]) =~= flat_upto(
                        rows@,
                        i as int,
                    ) + rows@[i as int].take(j as int + 1));
                    assert(pair_views_w(out@) =~= flat_upto(rows@, i as int) + rows@[
                        i as int
                    ].take(j as int + 1));
                }
                j = j + 1;
            }
            proof {
                assert(rows@[i as int].take(n as int) =~= rows@[i as int]);
                assert(pair_views_w(out@) =~= flat_upto(rows@, i as int + 1));
            }
            i = i + 1;
        }
        out
    }

    /// Every token record, flattened candidate-major, morpheme-minor.
    pub fn to_vec_t(&self) -> (r: Vec<Token>)
        ensures
            r@ == flat_all(self.spec_tokens()),
    {
        proof {
            use_type_invariant(&*self);
        }
        let rows = Ghost(self.spec_tokens());
        let mut out: Vec<Token> = Vec::new();
        let mut i: usize = 0;
        while i < self.size
            invariant
                i <= self.size,
                self.inv(),
                rows@ == self.spec_tokens(),
                out@ == flat_upto(rows@, i as int),
            decreases self.size - i,
        {
            let n = self.words[i];
            let mut j: usize = 0;
            while j < n
                invariant
                    j <= n,
                    i < self.size,
                    self.inv(),
                    n == self.spec_word_num(i as int),
                    rows@ == self.spec_tokens(),
                    out@ == flat_upto(rows@, i as int) + rows@[i as int].take(j as int),
                decreases n - j,
            {
                out.push(self.candidates[i][j].token);
                proof {
                    assert(out@ =~= flat_upto(rows@, i as int) + rows@[i as int].take(j as int + 1));
                }
                j = j + 1;
            }
            proof {
                assert(rows@[i as int].take(n as int) =~= rows@[i as int]);
                assert(out@ =~= flat_upto(rows@, i as int + 1));
            }
            i = i + 1;
        }
        out
    }

    /// A cursor over the flattened form-and-token pairs, starting at the
    /// first entry.
    pub fn iter(&self) -> (r: Iter<'_>)
        ensures
            r.wf(),
            r.source() == *self,
            r.pos() == 0,
    {
        proof {
            use_type_invariant(&*self);
        }
        Iter { analyzed: self, i: 0, j: 0 }
    }

    /// A cursor over the flattened wide-form-and-token pairs, starting at
    /// the first entry.
    pub fn iter_w(&self) -> (r: IterW<'_>)
        ensures
            r.wf(),
            r.source() == *self,
            r.pos() == 0,
    {
        proof {
            use_type_invariant(&*self);
        }
        IterW { analyzed: self, i: 0, j: 0 }
    }

    /// A cursor over the flattened token records, starting at the first
    /// entry.
    pub fn iter_t(&self) -> (r: IterT<'_>)
        ensures
            r.wf(),
            r.source() == *self,
            r.pos() == 0,
    {
        proof {
            use_type_invariant(&*self);
        }
        IterT { analyzed: self, i: 0, j: 0 }
    }
}


/// The flattened projection law for one analysis result: the pair sequence
/// has one row per candidate, row `i` holds exactly `word_num(i)` entries,
/// and the flattened order is candidate-major, morpheme-minor: candidate
/// `i`'s morphemes occupy the consecutive index range starting at its
/// offset, each entry the morpheme's form and token.
pub proof fn lemma_analyzed_flat_order(a: Analyzed)
    ensures
        a.spec_pairs().len() == a.spec_size(),
        forall|i: int| 0 <= i < a.spec_size() ==> (#[trigger] a.spec_pairs()[i]).len()
            == a.spec_word_num(i),
        flat_all(a.spec_pairs()).len() == count_upto(a.spec_pairs(), a.spec_size() as int),
        forall|i: int| 0 <= i < a.spec_size() ==> count_upto(a.spec_pairs(), i + 1) == count_upto(
            a.spec_pairs(),
            i,
        ) + #[trigger] a.spec_word_num(i),
        forall|i: int, j: int| a.spec_valid(i, j) ==> flat_all(a.spec_pairs())[count_upto(
            a.spec_pairs(),
            i,
        ) + j] == ((#[trigger] a.spec_morph(i, j)).form@, a.spec_morph(i, j).token),
{
    lemma_flat_order(a.spec_pairs());
    assert forall|i: int| 0 <= i < a.spec_size() implies (#[trigger] a.spec_pairs()[i]).len()
        == a.spec_word_num(i) by {
        assert(a.spec_pairs()[i] == a.spec_candidates()[i].map_values(
            |m: Morpheme| (m.form@, m.token),
        ));
    }
    assert forall|i: int, j: int| a.spec_valid(i, j) implies flat_all(a.spec_pairs())[count_upto(
        a.spec_pairs(),
        i,
    ) + j] == ((#[trigger] a.spec_morph(i, j)).form@, a.spec_morph(i, j).token) by {
        assert(a.spec_pairs()[i] == a.spec_candidates()[i].map_values(
            |m: Morpheme| (m.form@, m.token),
        ));
        assert(a.spec_pairs()[i][j] == (a.spec_morph(i, j).form@, a.spec_morph(i, j).token));
    }
}

/// A forward-only cursor over the flattened form-and-token pairs of one
/// analysis result.
pub struct Iter<'a> {
    analyzed: &'a Analyzed,
    i: usize,
    j: usize,
}

/// A forward-only cursor over the flattened wide-form-and-token pairs of
/// one analysis result.
pub struct IterW<'a> {
    analyzed: &'a Analyzed,
    i: usize,
    j: usize,
}

/// A forward-only cursor over the flattened token records of one analysis
/// result.
pub struct IterT<'a> {
    analyzed: &'a Analyzed,
    i: usize,
    j: usize,
}

impl<'a> Iter<'a> {
    /// The result this cursor walks.
    pub closed spec fn source(self) -> Analyzed {
        *self.analyzed
    }

    /// The cursor addresses a real position: within the current candidate,
    /// or exactly at the end of the candidate list.
    pub closed spec fn wf(self) -> bool {
        &&& self.i <= self.source().spec_size()
        &&& self.i < self.source().spec_size() ==> self.j <= self.source().spec_word_num(
            self.i as int,
        )
        &&& self.i == self.source().spec_size() ==> self.j == 0
    }

    /// How many flattened entries precede the cursor.
    pub closed spec fn pos(self) -> int {
        count_upto(self.source().spec_pairs(), self.i as int) + self.j
    }

    /// Yields the next flattened form-and-token pair, in candidate-major,
    /// morpheme-minor order, or nothing once every pair has been yielded.
    pub fn next(&mut self) -> (r: Option<(String, Token)>)
        requires
            old(self).wf(),
        ensures
            final(self).wf(),
            final(self).source() == old(self).source(),
            ({
                let rows = old(self).source().spec_pairs();
                let total = flat_all(rows).len();
                if old(self).pos() < total {
                    &&& r matches Some(p) && (p.0@, p.1) == flat_all(rows)[old(self).pos()]
                    &&& final(self).pos() == old(self).pos() + 1
                } else {
                    &&& r is None
                    &&& final(self).pos() == old(self).pos()
                }
            }),
    {
        proof {
            use_type_invariant(&*self.analyzed);
            lemma_flat_order(self.analyzed.spec_pairs());
        }
        let a = self.analyzed;
        let ghost rows = a.spec_pairs();
        while self.i < a.size && self.j == a.words[self.i]
            invariant
                self.analyzed == a,
                a.inv(),
                rows == a.spec_pairs(),
                self.wf(),
                self.pos() == old(self).pos(),
            decreases a.size - self.i,
        {
            self.i = self.i + 1;
            self.j = 0;
        }
        if self.i < a.size {
            proof {
                lemma_flat_entry(rows, rows.len() as int, self.i as int, self.j as int);
                lemma_count_upto_mono(rows, self.i as int + 1, rows.len() as int);
            }
            let m = &a.candidates[self.i][self.j];
            let item = (m.form.clone(), m.token);
            self.j = self.j + 1;
            Some(item)
        } else {
            proof {
                lemma_flat_upto_len(rows, rows.len() as int);
            }
            None
        }
    }
}

impl<'a> IterW<'a> {
    /// The result this cursor walks.
    pub closed spec fn source(self) -> Analyzed {
        *self.analyzed
    }

    /// The cursor addresses a real position: within the current candidate,
    /// or exactly at the end of the candidate list.
    pub closed spec fn wf(self) -> bool {
        &&& self.i <= self.source().spec_size()
        &&& self.i < self.source().spec_size() ==> self.j <= self.source().spec_word_num(
            self.i as int,
        )
        &&& self.i == self.source().spec_size() ==> self.j == 0
    }

    /// How many flattened entries precede the cursor.
    pub closed spec fn pos(self) -> int {
        count_upto(self.source().spec_pairs_w(), self.i as int) + self.j
    }

    /// Yields the next flattened wide-form-and-token pair, in
    /// candidate-major, morpheme-minor order, or nothing once every pair has
    /// been yielded.
    pub fn next(&mut self) -> (r: Option<(Vec<u16>, Token)>)
        requires
            old(self).wf(),
        ensures
            final(self).wf(),
            final(self).source() == old(self).source(),
            ({
                let rows = old(self).source().spec_pairs_w();
                let total = flat_all(rows).len();
                if old(self).pos() < total {
                    &&& r matches Some(p) && (p.0@, p.1) == flat_all(rows)[old(self).pos()]
                    &&& final(self).pos() == old(self).pos() + 1
                } else {
                    &&& r is None
                    &&& final(self).pos() == old(self).pos()
                }
            }),
    {
        proof {
            use_type_invariant(&*self.analyzed);
            lemma_flat_order(self.analyzed.spec_pairs_w());
        }
        let a = self.analyzed;
        let ghost rows = a.spec_pairs_w();
        while self.i < a.size && self.j == a.words[self.i]
            invariant
                self.analyzed == a,
                a.inv(),
                rows == a.spec_pairs_w(),
                self.wf(),
                self.pos() == old(self).pos(),
            decreases a.size - self.i,
        {
            self.i = self.i + 1;
            self.j = 0;
        }
        if self.i < a.size {
            proof {
                lemma_flat_entry(rows, rows.len() as int, self.i as int, self.j as int);
                lemma_count_upto_mono(rows, self.i as int + 1, rows.len() as int);
            }
            let m = &a.candidates[self.i][self.j];
            let item = (copy_units(&m.form_w), m.token);
            self.j = self.j + 1;
            Some(item)
        } else {
            proof {
                lemma_flat_upto_len(rows, rows.len() as int);
            }
            None
        }
    }
}

impl<'a> IterT<'a> {
    /// The result this cursor walks.
    pub closed spec fn source(self) -> Analyzed {
        *self.analyzed
    }

    /// The cursor addresses a real position: within the current candidate,
    /// or exactly at the end of the candidate list.
    pub closed spec fn wf(self) -> bool {
        &&& self.i <= self.source().spec_size()
        &&& self.i < self.source().spec_size() ==> self.j <= self.source().spec_word_num(
            self.i as int,
        )
        &&& self.i == self.source().spec_size() ==> self.j == 0
    }

    /// How many flattened entries precede the cursor.
    pub closed spec fn pos(self) -> int {
        count_upto(self.source().spec_tokens(), self.i as int) + self.j
    }

    /// Yields the next flattened token record, in candidate-major,
    /// morpheme-minor order, or nothing once every record has been yielded.
    pub fn next(&mut self) -> (r: Option<Token>)
        requires
            old(self).wf(),
        ensures
            final(self).wf(),
            final(self).source() == old(self).source(),
            ({
                let rows = old(self).source().spec_tokens();
                let total = flat_all(rows).len();
                if old(self).pos() < total {
                    &&& r == Some(flat_all(rows)[old(self).pos()])
                    &&& final(self).pos() == old(self).pos() + 1
                } else {
                    &&& r is None
                    &&& final(self).pos() == old(self).pos()
                }
            }),
    {
        proof {
            use_type_invariant(&*self.analyzed);
            lemma_flat_order(self.analyzed.spec_tokens());
        }
        let a = self.analyzed;
        let ghost rows = a.spec_tokens();
        while self.i < a.size && self.j == a.words[self.i]
            invariant
                self.analyzed == a,
                a.inv(),
                rows == a.spec_tokens(),
                self.wf(),
                self.pos() == old(self).pos(),
            decreases a.size - self.i,
        {
            self.i = self.i + 1;
            self.j = 0;
        }
        if self.i < a.size {
            proof {
                lemma_flat_entry(rows, rows.len() as int, self.i as int, self.j as int);
                lemma_count_upto_mono(rows, self.i as int + 1, rows.len() as int);
            }
            let item = a.candidates[self.i][self.j].token;
            self.j = self.j + 1;
            Some(item)
        } else {
            proof {
                lemma_flat_upto_len(rows, rows.len() as int);
            }
            None
        }
    }
}

} // verus!
