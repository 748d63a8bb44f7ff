//! Bounds-checked projection of a word-extraction result.
//!
//! A native extraction call returns a flat list of discovered words,
//! reachable only through positional getters.  The projection here holds
//! that list as plain values together with the total size captured at
//! construction, so every access is validated against the cached size and an
//! out-of-range index yields an absent value rather than reaching the native
//! layer.

use vstd::prelude::*;

verus! {

/// One discovered word as handed back to callers.  The two score fields
/// carry the bit patterns of the native single-precision values.
#[derive(Debug, Clone)]
pub struct Word<S> {
    /// The word's form.
    pub form: S,
    /// Bit pattern of the word's score.
    pub score_bits: u32,
    /// Bit pattern of the word's part-of-speech score.
    pub pos_score_bits: u32,
    /// How often the word occurred in the corpus.
    pub freq: usize,
}

/// One discovered word with its form in both native encodings.
#[derive(Debug)]
pub struct ExtractedWord {
    /// The form, UTF-8.
    pub form: String,
    /// The form, UTF-16 code units.
    pub form_w: Vec<u16>,
    /// Bit pattern of the word's score.
    pub score_bits: u32,
    /// Bit pattern of the word's part-of-speech score.
    pub pos_score_bits: u32,
    /// How often the word occurred in the corpus.
    pub freq: usize,
}

/// Copies a sequence of UTF-16 code units.
fn copy_units(src: &Vec<u16>) -> (r: Vec<u16>)
    ensures
        r@ == src@,
{
    let mut out: Vec<u16> = Vec::new();
    let mut k: usize = 0;
    while k < src.len()
        invariant
            k <= src@.len(),
            out@ == src@.take(k as int),
        decreases src@.len() - k,
    {
        out.push(src[k]);
        proof {
            assert(out@ =~= src@.take(k as int + 1));
        }
        k = k + 1;
    }
    proof {
        assert(src@.take(src@.len() as int) =~= src@);
    }
    out
}

/// The result of one extraction call: the discovered word list, with the
/// total count cached at construction.
pub struct Extracted {
    words: Vec<ExtractedWord>,
    size: usize,
}

impl Extracted {
    /// The discovered words this result projects.
    pub closed spec fn spec_words(self) -> Seq<ExtractedWord> {
        self.words@
    }

    #[verifier::type_invariant]
    closed spec fn inv(self) -> bool {
        self.size == self.words@.len()
    }

    /// The number of discovered words.
    pub open spec fn spec_size(self) -> nat {
        self.spec_words().len()
    }

    /// Wraps the projected word list, capturing its size once so later
    /// bounds checks need no further native round trips.
    pub fn new(words: Vec<ExtractedWord>) -> (r: Extracted)
        ensures
            r.spec_words() == words@,
    {
        let size = words.len();
        Extracted { words, size }
    }

    /// Validates an index against the cached size.
    pub fn check_index(&self, index: usize) -> (r: bool)
        ensures
            r == (index < self.spec_size()),
    {
        proof {
            use_type_invariant(&*self);
        }
        index < self.size
    }

    /// The number of discovered words in this result.
    pub fn size(&self) -> (r: usize)
        ensures
            r == self.spec_size(),
    {
        proof {
            use_type_invariant(&*self);
        }
        self.size
    }

    /// The UTF-8 form of word `index`, or nothing when no such word exists.
    pub fn form(&self, index: usize) -> (r: Option<String>)
        ensures
            index < self.spec_size() ==> (r matches Some(s) && s@ == self.spec_words()[
                index as int
            ].form@),
            index >= self.spec_size() ==> r is None,
    {
        proof {
            use_type_invariant(&*self);
        }
        if index < self.size {
            Some(self.words[index].form.clone())
        } else {
            None
        }
    }

    /// The UTF-16 form of word `index`, or nothing when no such word
    /// exists.
    pub fn form_w(&self, index: usize) -> (r: Option<Vec<u16>>)
        ensures
            index < self.spec_size() ==> (r matches Some(s) && s@ == self.spec_words()[
                index as int
            ].form_w@),
            index >= self.spec_size() ==> r is None,
    {
        proof {
            use_type_invariant(&*self);
        }
        if index < self.size {
            Some(copy_units(&self.words[index].form_w))
        } else {
            None
        }
    }

    /// The score bit pattern of word `index`, or nothing when no such word
    /// exists.
    pub fn score_bits(&self, index: usize) -> (r: Option<u32>)
        ensures
            index < self.spec_size() ==> r == Some(
                self.spec_words()[index as int].score_bits,
            ),
            index >= self.spec_size() ==> r is None,
    {
        proof {
            use_type_invariant(&*self);
        }
        if index < self.size {
            Some(self.words[index].score_bits)
        } else {
            None
        }
    }

    /// The part-of-speech score bit pattern of word `index`, or nothing when
    /// no such word exists.
    pub fn pos_score_bits(&self, index: usize) -> (r: Option<u32>)
        ensures
            index < self.spec_size() ==> r == Some(
                self.spec_words()[index as int].pos_score_bits,
            ),
            index >= self.spec_size() ==> r is None,
    {
        proof {
            use_type_invariant(&*self);
        }
        if index < self.size {
            Some(self.words[index].pos_score_bits)
        } else {
            None
        }
    }

    /// The corpus frequency of word `index`, or nothing when no such word
    /// exists.
    pub fn freq(&self, index: usize) -> (r: Option<usize>)
        ensures
            index < self.spec_size() ==> r == Some(self.spec_words()[index as int].freq),
            index >= self.spec_size() ==> r is None,
    {
        proof {
            use_type_invariant(&*self);
        }
        if index < self.size {
            Some(self.words[index].freq)
        } else {
            None
        }
    }

    /// Every discovered word with its UTF-8 form, in result order.
    pub fn to_vec(&self) -> (r: Vec<Word<String>>)
        ensures
            r@.len() == self.spec_size(),
            forall|k: int| 0 <= k < self.spec_size() ==> {
                &&& (#[trigger] r@[k]).form@ == self.spec_words()[k].form@
                &&& r@[k].score_bits == self.spec_words()[k].score_bits
                &&& r@[k].pos_score_bits == self.spec_words()[k].pos_score_bits
                &&& r@[k].freq == self.spec_words()[k].freq
            },
    {
        proof {
            use_type_invariant(&*self);
        }
        let mut out: Vec<Word<String>> = Vec::new();
        let mut i: usize = 0;
        while i < self.size
            invariant
                i <= self.size,
                self.inv(),
                out@.len() == i,
                forall|k: int| 0 <= k < i ==> {
                    &&& (#[trigger] out@[k]).form@ == self.spec_words()[k].form@
                    &&& out@[k].score_bits == self.spec_words()[k].score_bits
                    &&& out@[k].pos_score_bits == self.spec_words()[k].pos_score_bits
                    &&& out@[k].freq == self.spec_words()[k].freq
                },
            decreases self.size - i,
        {
            let w = &self.words[i];
            out.push(
                Word {
                    form: w.form.clone(),
                    score_bits: w.score_bits,
                    pos_score_bits: w.pos_score_bits,
                    freq: w.freq,
                },
            );
            i = i + 1;
        }
        out
    }

    /// Every discovered word with its UTF-16 form, in result order.
    pub fn to_vec_w(&self) -> (r: Vec<Word<Vec<u16>>>)
        ensures
            r@.len() == self.spec_size(),
            forall|k: int| 0 <= k < self.spec_size() ==> {
                &&& (#[trigger] r@[k]).form@ == self.spec_words()[k].form_w@
                &&& r@[k].score_bits == self.spec_words()[k].score_bits
                &&& r@[k].pos_score_bits == self.spec_words()[k].pos_score_bits
                &&& r@[k].freq == self.spec_words()[k].freq
            },
    {
        proof {
            use_type_invariant(&*self);
        }
        let mut out: Vec<Word<Vec<u16>>> = Vec::new();
        let mut i: usize = 0;
        while i < self.size
            invariant
                i <= self.size,
                self.inv(),
                out@.len() == i,
                forall|k: int| 0 <= k < i ==> {
                    &&& (#[trigger] out@[k]).form@ == self.spec_words()[k].form_w@
                    &&& out@[k].score_bits == self.spec_words()[k].score_bits
                    &&& out@[k].pos_score_bits == self.spec_words()[k].pos_score_bits
                    &&& out@[k].freq == self.spec_words()[k].freq
                },
            decreases self.size - i,
        {
            let w = &self.words[i];
            out.push(
                Word {
                    form: copy_units(&w.form_w),
                    score_bits: w.score_bits,
                    pos_score_bits: w.pos_score_bits,
                    freq: w.freq,
                },
            );
            i = i + 1;
        }
        out
    }

    /// A cursor over the discovered words with UTF-8 forms, starting at the
    /// first word.
    pub fn iter(&self) -> (r: Iter<'_>)
        ensures
            r.source() == *self,
            r.pos() == 0,
    {
        Iter { extracted: self, i: 0 }
    }

    /// A cursor over the discovered words with UTF-16 forms, starting at the
    /// first word.
    pub fn iter_w(&self) -> (r: IterW<'_>)
        ensures
            r.source() == *self,
            r.pos() == 0,
    {
        IterW { extracted: self, i: 0 }
    }
}

/// A forward-only cursor over the discovered words of one extraction
/// result, yielding UTF-8 forms.
pub struct Iter<'a> {
    extracted: &'a Extracted,
    i: usize,
}

/// A forward-only cursor over the discovered words of one extraction
/// result, yielding UTF-16 forms.
pub struct IterW<'a> {
    extracted: &'a Extracted,
    i: usize,
}

impl<'a> Iter<'a> {
    /// The result this cursor walks.
    pub closed spec fn source(self) -> Extracted {
        *self.extracted
    }

    /// How many words precede the cursor.
    pub closed spec fn pos(self) -> int {
        self.i as int
    }

    /// Yields the next discovered word, in result order, or nothing once
    /// every word has been yielded.
    pub fn next(&mut self) -> (r: Option<Word<String>>)
        ensures
            final(self).source() == old(self).source(),
            ({
                let words = old(self).source().spec_words();
                if old(self).pos() < words.len() {
                    &&& r matches Some(w) && {
                        &&& w.form@ == words[old(self).pos()].form@
                        &&& w.score_bits == words[old(self).pos()].score_bits
                        &&& w.pos_score_bits == words[old(self).pos()].pos_score_bits
                        &&& w.freq == words[old(self).pos()].freq
                    }
                    &&& final(self).pos() == old(self).pos() + 1
                } else {
                    &&& r is None
                    &&& final(self).pos() == old(self).pos()
                }
            }),
    {
        proof {
            use_type_invariant(&*self.extracted);
        }
        if self.i < self.extracted.size {
            let w = &self.extracted.words[self.i];
            let item = Word {
                form: w.form.clone(),
                score_bits: w.score_bits,
                pos_score_bits: w.pos_score_bits,
                freq: w.freq,
            };
            self.i = self.i + 1;
            Some(item)
        } else {
            None
        }
    }
}

impl<'a> IterW<'a> {
    /// The result this cursor walks.
    pub closed spec fn source(self) -> Extracted {
        *self.extracted
    }

    /// How many words precede the cursor.
    pub closed spec fn pos(self) -> int {
        self.i as int
    }

    /// Yields the next discovered word, in result order, or nothing once
    /// every word has been yielded.
    pub fn next(&mut self) -> (r: Option<Word<Vec<u16>>>)
        ensures
            final(self).source() == old(self).source(),
            ({
                let words = old(self).source().spec_words();
                if old(self).pos() < words.len() {
                    &&& r matches Some(w) && {
                        &&& w.form@ == words[old(self).pos()].form_w@
                        &&& w.score_bits == words[old(self).pos()].score_bits
                        &&& w.pos_score_bits == words[old(self).pos()].pos_score_bits
                        &&& w.freq == words[old(self).pos()].freq
                    }
                    &&& final(self).pos() == old(self).pos() + 1
                } else {
                    &&& r is None
                    &&& final(self).pos() == old(self).pos()
                }
            }),
    {
        proof {
            use_type_invariant(&*self.extracted);
        }
        if self.i < self.extracted.size {
            let w = &self.extracted.words[self.i];
            let item = Word {
                form: copy_units(&w.form_w),
                score_bits: w.score_bits,
                pos_score_bits: w.pos_score_bits,
                freq: w.freq,
            };
            self.i = self.i + 1;
            Some(item)
        } else {
            None
        }
    }
}

} // verus!
