//! Erased actor states: a uniform runtime representation for states of
//! different concrete types, so that they can be stored, compared and hashed
//! side by side. A state erases to a tag naming its concrete type plus its
//! fields encoded as bytes; two states of different concrete types never
//! share a tag.

use core::cmp::Ordering;

use vstd::prelude::*;

verus! {

/// The erased form of an actor state.
#[derive(Debug, PartialEq, Eq, PartialOrd, Ord, Hash)]
pub struct ErasedState {
    pub type_tag: u64,
    pub values: Vec<u8>,
}

impl View for ErasedState {
    type V = (u64, Seq<u8>);

    open spec fn view(&self) -> (u64, Seq<u8>) {
        (self.type_tag, self.values@)
    }
}

impl Clone for ErasedState {
    fn clone(&self) -> (res: Self)
        ensures
            res@ == self@,
    {
        ErasedState { type_tag: self.type_tag, values: clone_bytes(&self.values) }
    }
}

/// A state that can present itself in erased form.
pub trait Erasable {
    /// The tag of the state's concrete type; no two concrete types share one.
    spec fn tag_spec(&self) -> u64;

    /// The state's fields, encoded as bytes.
    spec fn values_spec(&self) -> Seq<u8>;

    /// The erased form of this state.
    fn as_erased(&self) -> (e: ErasedState)
        ensures
            e@ == (self.tag_spec(), self.values_spec()),
    ;
}

/// An element-wise copy of a byte vector.
pub fn clone_bytes(values: &Vec<u8>) -> (res: Vec<u8>)
    ensures
        res@ == values@,
{
    let mut res: Vec<u8> = Vec::new();
    let mut i: usize = 0;
    while i < values.len()
        invariant
            i <= values@.len(),
            res@ == values@.take(i as int),
        decreases values@.len() - i,
    {
        proof {
            assert(values@.take(i + 1) =~= values@.take(i as int).push(values@[i as int]));
        }
        res.push(values[i]);
        i += 1;
    }
    proof {
        assert(values@.take(values@.len() as int) =~= values@);
    }
    res
}

/// Lexicographic three-way comparison of byte sequences: negative, zero or
/// positive as `a` sorts before, equal to, or after `b`.
pub open spec fn lex_cmp_bytes(a: Seq<u8>, b: Seq<u8>) -> int
    decreases a.len(),
{
    if a.len() == 0 && b.len() == 0 {
        0
    } else if a.len() == 0 {
        -1
    } else if b.len() == 0 {
        1
    } else if a[0] < b[0] {
        -1
    } else if a[0] > b[0] {
        1
    } else {
        lex_cmp_bytes(a.skip(1), b.skip(1))
    }
}

/// Byte sequences compare equal exactly when they are equal.
pub proof fn lemma_lex_cmp_bytes_eq(a: Seq<u8>, b: Seq<u8>)
    ensures
        lex_cmp_bytes(a, b) == 0 <==> a == b,
    decreases a.len(),
{
    if a.len() == 0 && b.len() == 0 {
        assert(a =~= b);
    } else if a.len() == 0 || b.len() == 0 {
        assert(a.len() != b.len());
    } else {
        lemma_lex_cmp_bytes_eq(a.skip(1), b.skip(1));
        if a[0] == b[0] {
            if a.skip(1) == b.skip(1) {
                assert(a =~= b) by {
                    assert(a.len() == b.len());
                    assert(forall|i: int|
                        0 < i < a.len() ==> #[trigger] a[i] == a.skip(1)[i - 1] && b[i] == b.skip(
                            1,
                        )[i - 1]);
                }
            }
            if a == b {
                assert(a.skip(1) =~= b.skip(1));
            }
        } else {
            assert(a[0] != b[0]);
        }
    }
}

/// Maps a three-way comparison to an `Ordering`.
pub open spec fn ordering_of(c: int) -> Ordering {
    if c < 0 {
        Ordering::Less
    } else if c == 0 {
        Ordering::Equal
    } else {
        Ordering::Greater
    }
}

/// Three-way comparison of erased states: first by type tag, then by the
/// encoded fields, lexicographically.
pub open spec fn erased_cmp_spec(a: (u64, Seq<u8>), b: (u64, Seq<u8>)) -> Ordering {
    if a.0 < b.0 {
        Ordering::Less
    } else if a.0 > b.0 {
        Ordering::Greater
    } else {
        ordering_of(lex_cmp_bytes(a.1, b.1))
    }
}

/// Partial comparison of erased states: states of different concrete types
/// are incomparable, states of one type compare by their encoded fields.
pub open spec fn erased_partial_cmp_spec(a: (u64, Seq<u8>), b: (u64, Seq<u8>)) -> Option<
    Ordering,
> {
    if a.0 != b.0 {
        None
    } else {
        Some(ordering_of(lex_cmp_bytes(a.1, b.1)))
    }
}

/// Three-way comparison of byte vectors.
pub fn compare_bytes(a: &Vec<u8>, b: &Vec<u8>) -> (r: Ordering)
    ensures
        r == ordering_of(lex_cmp_bytes(a@, b@)),
{
    let mut i: usize = 0;
    proof {
        assert(a@.skip(0) =~= a@);
        assert(b@.skip(0) =~= b@);
    }
    while i < a.len() && i < b.len()
        invariant
            i <= a@.len(),
            i <= b@.len(),
            lex_cmp_bytes(a@, b@) == lex_cmp_bytes(a@.skip(i as int), b@.skip(i as int)),
        decreases a@.len() - i,
    {
        if a[i] < b[i] {
            return Ordering::Less;
        }
        if a[i] > b[i] {
            return Ordering::Greater;
        }
        proof {
            assert(a@.skip(i as int).skip(1) =~= a@.skip(i + 1));
            assert(b@.skip(i as int).skip(1) =~= b@.skip(i + 1));
        }
        i += 1;
    }
    if a.len() == b.len() {
        Ordering::Equal
    } else if a.len() < b.len() {
        Ordering::Less
    } else {
        Ordering::Greater
    }
}

/// Equality of erased states: same type tag and equal encoded fields.
pub fn erased_eq(a: &ErasedState, b: &ErasedState) -> (r: bool)
    ensures
        r == (a@ == b@),
{
    if a.type_tag != b.type_tag {
        return false;
    }
    proof {
        lemma_lex_cmp_bytes_eq(a.values@, b.values@);
    }
    match compare_bytes(&a.values, &b.values) {
        Ordering::Equal => true,
        _ => false,
    }
}

/// Runtime three-way comparison of erased states, as `erased_cmp_spec`.
pub fn erased_cmp(a: &ErasedState, b: &ErasedState) -> (r: Ordering)
    ensures
        r == erased_cmp_spec(a@, b@),
{
    if a.type_tag < b.type_tag {
        Ordering::Less
    } else if a.type_tag > b.type_tag {
        Ordering::Greater
    } else {
        compare_bytes(&a.values, &b.values)
    }
}

/// Runtime partial comparison of erased states, as `erased_partial_cmp_spec`.
pub fn erased_partial_cmp(a: &ErasedState, b: &ErasedState) -> (r: Option<Ordering>)
    ensures
        r == erased_partial_cmp_spec(a@, b@),
{
    if a.type_tag != b.type_tag {
        None
    } else {
        Some(compare_bytes(&a.values, &b.values))
    }
}

} // verus!
