//! The two-phase callback buffer protocol.
//!
//! When the native engine wants a string from a host callback, it calls the
//! trampoline twice: first with no output buffer, asking only for the
//! required length; then with a buffer of exactly that many units, asking
//! for the content.  Both calls must agree: the fill phase writes exactly
//! the units whose count the query phase reported.  The functions here are
//! the marshaling decisions of one trampoline call, over plain values; the
//! byte-string protocol counts UTF-8 bytes, the wide protocol UTF-16 code
//! units.
//!
//! A corpus reader is driven through the same trampoline once per corpus
//! index, in ascending order; `ReaderSession` is the host side of that
//! schedule.

use vstd::prelude::*;

verus! {

/// What one trampoline call answers for callback output `content`: with no
/// buffer, the required length and no data; with a buffer, the same length
/// and the content itself.
pub open spec fn spec_reply<T>(content: Seq<T>, buffer: Option<Seq<T>>) -> (nat, Option<Seq<T>>) {
    match buffer {
        None => (content.len(), None),
        Some(_) => (content.len(), Some(content)),
    }
}

/// Two-phase round trip: the null-buffer query answers length `L`, and a
/// following fill call with a buffer of exactly `L` units answers the same
/// `L` and hands back data identical to the callback output, unit for unit.
pub proof fn lemma_two_phase_roundtrip<T>(content: Seq<T>, buffer: Seq<T>)
    requires
        buffer.len() == spec_reply(content, None).0,
    ensures
        spec_reply(content, Some(buffer)).0 == spec_reply(content, None).0,
        spec_reply(content, Some(buffer)).1 == Some(content),
        content.len() == buffer.len(),
{
}

/// The query phase for a byte-string callback: no buffer was supplied, so
/// only the required length is answered.
pub fn reply_length(content: &Vec<u8>) -> (r: usize)
    ensures
        r == spec_reply(content@, None).0,
{
    content.len()
}

/// The fill phase for a byte-string callback: the pre-sized buffer is
/// overwritten with exactly the callback output, and the same length is
/// answered again.
pub fn reply_fill(content: &Vec<u8>, buffer: &mut Vec<u8>) -> (r: usize)
    requires
        old(buffer)@.len() == content@.len(),
    ensures
        r == spec_reply(content@, Some(old(buffer)@)).0,
        Some(final(buffer)@) == spec_reply(content@, Some(old(buffer)@)).1,
{
    let mut k: usize = 0;
    while k < content.len()
        invariant
            k <= content@.len(),
            buffer@.len() == content@.len(),
            forall|x: int| 0 <= x < k ==> buffer@[x] == content@[x],
        decreases content@.len() - k,
    {
        buffer.set(k, content[k]);
        k = k + 1;
    }
    proof {
        assert(buffer@ =~= content@);
    }
    content.len()
}

/// The query phase for a wide-string callback: no buffer was supplied, so
/// only the required length, in UTF-16 code units, is answered.
pub fn reply_length_w(content: &Vec<u16>) -> (r: usize)
    ensures
        r == spec_reply(content@, None).0,
{
    content.len()
}

/// The fill phase for a wide-string callback: the pre-sized buffer is
/// overwritten with exactly the callback output, and the same length is
/// answered again.
pub fn reply_fill_w(content: &Vec<u16>, buffer: &mut Vec<u16>) -> (r: usize)
    requires
        old(buffer)@.len() == content@.len(),
    ensures
        r == spec_reply(content@, Some(old(buffer)@)).0,
        Some(final(buffer)@) == spec_reply(content@, Some(old(buffer)@)).1,
{
    let mut k: usize = 0;
    while k < content.len()
        invariant
            k <= content@.len(),
            buffer@.len() == content@.len(),
            forall|x: int| 0 <= x < k ==> buffer@[x] == content@[x],
        decreases content@.len() - k,
    {
        buffer.set(k, content[k]);
        k = k + 1;
    }
    proof {
        assert(buffer@ =~= content@);
    }
    content.len()
}

/// The host side of a corpus-extraction run: a fixed list of corpus items,
/// handed out once per index, in ascending order, synchronously.
pub struct ReaderSession {
    corpus: Vec<String>,
    next: usize,
}

impl ReaderSession {
    /// The corpus items this session serves.
    pub closed spec fn spec_corpus(self) -> Seq<Seq<char>> {
        self.corpus@.map_values(|s: String| s@)
    }

    /// The next index the session expects to serve.
    pub closed spec fn spec_next(self) -> int {
        self.next as int
    }

    #[verifier::type_invariant]
    closed spec fn inv(self) -> bool {
        self.next <= self.corpus@.len()
    }

    /// A session over `corpus`, expecting the first request at index zero.
    pub fn new(corpus: Vec<String>) -> (r: ReaderSession)
        ensures
            r.spec_corpus() == corpus@.map_values(|s: String| s@),
            r.spec_next() == 0,
    {
        ReaderSession { corpus, next: 0 }
    }

    /// Serves the request for corpus item `idx`.  Exactly the next index in
    /// ascending order succeeds, once: a repeated, skipped or out-of-range
    /// index yields nothing and leaves the session unchanged.
    pub fn read_at(&mut self, idx: usize) -> (r: Option<String>)
        ensures
            final(self).spec_corpus() == old(self).spec_corpus(),
            idx == old(self).spec_next() && idx < old(self).spec_corpus().len() ==> {
                &&& (r matches Some(s) && s@ == old(self).spec_corpus()[idx as int])
                &&& final(self).spec_next() == old(self).spec_next() + 1
            },
            !(idx == old(self).spec_next() && idx < old(self).spec_corpus().len()) ==> {
                &&& r is None
                &&& final(self).spec_next() == old(self).spec_next()
            },
    {
        proof {
            use_type_invariant(&*self);
        }
        if idx == self.next && idx < self.corpus.len() {
            let item = self.corpus[idx].clone();
            self.next = self.next + 1;
            Some(item)
        } else {
            None
        }
    }
}

} // verus!
