//! Marshaling of pre-analyzed word registrations.
//!
//! A pre-analyzed word is a form together with the morpheme sequence it must
//! analyze to.  Callers supply the morphemes either as plain form-and-tag
//! pairs, or positioned, with explicit start and end character offsets per
//! morpheme.  The native call takes three parallel lists: the morpheme
//! forms, their tag names, and, for the positioned variant, the offsets
//! interleaved start-first.  The splitting of the caller's choice into those
//! lists is decided here.

use vstd::prelude::*;

use crate::pos_tag::POSTag;
use crate::pos_tag::spec_tag_name;

verus! {

#[verifier::external_type_specification]
#[verifier::external_body]
#[verifier::reject_recursive_types(L)]
#[verifier::reject_recursive_types(R)]
pub struct ExEither<L, R>(either::Either<L, R>);

/// Whether a pre-analyzed payload is the unpositioned variant.
pub uninterp spec fn either_is_left(
    e: either::Either<Vec<(String, u8)>, Vec<(String, u8, usize, usize)>>,
) -> bool;

/// The form-and-tag pairs an unpositioned payload holds.
pub uninterp spec fn either_left_of(
    e: either::Either<Vec<(String, u8)>, Vec<(String, u8, usize, usize)>>,
) -> Seq<(Seq<char>, u8)>;

/// The positioned morphemes a positioned payload holds: form, tag code,
/// start offset, end offset.
pub uninterp spec fn either_right_of(
    e: either::Either<Vec<(String, u8)>, Vec<(String, u8, usize, usize)>>,
) -> Seq<(Seq<char>, u8, usize, usize)>;

/// The views of an unpositioned morpheme list.
pub open spec fn pair_list_views(s: Seq<(String, u8)>) -> Seq<(Seq<char>, u8)> {
    s.map_values(|p: (String, u8)| (p.0@, p.1))
}

/// The views of a positioned morpheme list.
pub open spec fn positioned_list_views(s: Seq<(String, u8, usize, usize)>) -> Seq<
    (Seq<char>, u8, usize, usize),
> {
    s.map_values(|p: (String, u8, usize, usize)| (p.0@, p.1, p.2, p.3))
}

/// Relies on `either::Either` being an enum with exactly the variants
/// `Left` and `Right`: the match moves out whichever payload the value
/// holds, unchanged.
#[verifier::external_body]
fn either_split(e: either::Either<Vec<(String, u8)>, Vec<(String, u8, usize, usize)>>) -> (r:
    Result<Vec<(String, u8)>, Vec<(String, u8, usize, usize)>>)
    ensures
        (r is Ok) == either_is_left(e),
        r matches Ok(v) ==> pair_list_views(v@) == either_left_of(e),
        r matches Err(v) ==> positioned_list_views(v@) == either_right_of(e),
{
    match e {
        either::Either::Left(l) => Ok(l),
        either::Either::Right(r) => Err(r),
    }
}

/// Splits a pre-analyzed payload into the three parallel lists the native
/// registration call takes: the morpheme forms, their tag names, and, for
/// the positioned variant only, the character offsets interleaved as start,
/// end, start, end, in morpheme order.
pub fn split_pre_analyzed(
    analyzed: either::Either<Vec<(String, u8)>, Vec<(String, u8, usize, usize)>>,
) -> (r: (Vec<String>, Vec<String>, Option<Vec<usize>>))
    ensures
        either_is_left(analyzed) ==> {
            let parts = either_left_of(analyzed);
            &&& r.0@.len() == parts.len()
            &&& r.1@.len() == parts.len()
            &&& forall|k: int| 0 <= k < parts.len() ==> (#[trigger] r.0@[k])@ == parts[k].0
            &&& forall|k: int| 0 <= k < parts.len() ==> (#[trigger] r.1@[k])@ == spec_tag_name(
                parts[k].1,
            )
            &&& r.2 is None
        },
        !either_is_left(analyzed) ==> {
            let parts = either_right_of(analyzed);
            &&& r.0@.len() == parts.len()
            &&& r.1@.len() == parts.len()
            &&& forall|k: int| 0 <= k < parts.len() ==> (#[trigger] r.0@[k])@ == parts[k].0
            &&& forall|k: int| 0 <= k < parts.len() ==> (#[trigger] r.1@[k])@ == spec_tag_name(
                parts[k].1,
            )
            &&& (r.2 matches Some(p) && {
                &&& p@.len() == 2 * parts.len()
                &&& forall|k: int| 0 <= k < parts.len() ==> {
                    &&& p@[2 * k] == (#[trigger] parts[k]).2
                    &&& p@[2 * k + 1] == parts[k].3
                }
            })
        },
{
    match either_split(analyzed) {
        Ok(morphs) => {
            let ghost parts = either_left_of(analyzed);
            let mut forms: Vec<String> = Vec::new();
            let mut tags: Vec<String> = Vec::new();
            let mut k: usize = 0;
            while k < morphs.len()
                invariant
                    k <= morphs@.len(),
                    pair_list_views(morphs@) == parts,
                    forms@.len() == k,
                    tags@.len() == k,
                    forall|x: int| 0 <= x < k ==> (#[trigger] forms@[x])@ == parts[x].0,
                    forall|x: int| 0 <= x < k ==> (#[trigger] tags@[x])@ == spec_tag_name(
                        parts[x].1,
                    ),
                decreases morphs@.len() - k,
            {
                proof {
                    assert(parts[k as int] == (morphs@[k as int].0@, morphs@[k as int].1));
                }
                let m = &morphs[k];
                forms.push(m.0.clone());
                tags.push(String::from_str(POSTag(m.1).as_str()));
                k = k + 1;
            }
            (forms, tags, None)
        },
        Err(morphs) => {
            let ghost parts = either_right_of(analyzed);
            let mut forms: Vec<String> = Vec::new();
            let mut tags: Vec<String> = Vec::new();
            let mut positions: Vec<usize> = Vec::new();
            let mut k: usize = 0;
            while k < morphs.len()
                invariant
                    k <= morphs@.len(),
                    positioned_list_views(morphs@) == parts,
                    forms@.len() == k,
                    tags@.len() == k,
                    positions@.len() == 2 * k,
                    forall|x: int| 0 <= x < k ==> (#[trigger] forms@[x])@ == parts[x].0,
                    forall|x: int| 0 <= x < k ==> (#[trigger] tags@[x])@ == spec_tag_name(
                        parts[x].1,
                    ),
                    forall|x: int| 0 <= x < k ==> {
                        &&& positions@[2 * x] == (#[trigger] parts[x]).2
                        &&& positions@[2 * x + 1] == parts[x].3
                    },
                decreases morphs@.len() - k,
            {
                proof {
                    assert(parts[k as int] == (
                        morphs@[k as int].0@,
                        morphs@[k as int].1,
                        morphs@[k as int].2,
                        morphs@[k as int].3,
                    ));
                }
                let m = &morphs[k];
                forms.push(m.0.clone());
                tags.push(String::from_str(POSTag(m.1).as_str()));
                positions.push(m.2);
                positions.push(m.3);
                k = k + 1;
            }
            (forms, tags, Some(positions))
        },
    }
}

} // verus!
