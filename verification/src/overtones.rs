//! Slots of an overtone set.
//!
//! An overtone set is a fixed array of optional entries. The waveform built
//! from it is the sum of the occupied entries divided by their number, so the
//! number of occupied slots is the normalisation divisor.
use vstd::prelude::*;

verus! {

/// Capacity of an overtone set.
pub const OVERTONE_SLOTS: usize = 10;

/// How many entries of `slots` are occupied.
pub open spec fn present_count<T>(slots: Seq<Option<T>>) -> nat
    decreases slots.len(),
{
    if slots.len() == 0 {
        0
    } else {
        present_count(slots.drop_last()) + if slots.last() is Some {
            1nat
        } else {
            0nat
        }
    }
}

/// The count never exceeds the number of slots.
pub proof fn lemma_present_count_bounded<T>(slots: Seq<Option<T>>)
    ensures
        present_count(slots) <= slots.len(),
    decreases slots.len(),
{
    if slots.len() > 0 {
        lemma_present_count_bounded(slots.drop_last());
    }
}

/// The count is zero exactly when every slot is empty: only an empty set
/// leaves the average of its overtones without a divisor.
pub proof fn lemma_present_count_zero<T>(slots: Seq<Option<T>>)
    ensures
        present_count(slots) == 0 <==> forall|i: int| 0 <= i < slots.len() ==> slots[i] is None,
    decreases slots.len(),
{
    if slots.len() > 0 {
        let front = slots.drop_last();
        lemma_present_count_zero(front);
        if present_count(slots) == 0 {
            assert forall|i: int| 0 <= i < slots.len() implies slots[i] is None by {
                if i < front.len() {
                    assert(front[i] is None);
                }
            }
        } else {
            if present_count(front) != 0 {
                let i = choose|i: int| 0 <= i < front.len() && !(front[i] is None);
                assert(!(slots[i] is None));
            }
        }
    }
}

/// Counts the occupied slots of an overtone set.
///
/// The result is the divisor by which the summed overtones are averaged. It
/// is zero exactly when the set is empty, the one case in which the average
/// is not a finite number.
pub fn count_present<T>(overtones: &[Option<T>; OVERTONE_SLOTS]) -> (n: usize)
    ensures
        n == present_count(overtones@),
        n <= OVERTONE_SLOTS,
        n == 0 <==> forall|i: int| 0 <= i < OVERTONE_SLOTS ==> overtones@[i] is None,
{
    let mut n: usize = 0;
    let mut i: usize = 0;
    while i < OVERTONE_SLOTS
        invariant
            i <= OVERTONE_SLOTS,
            n == present_count(overtones@.take(i as int)),
            n <= i,
        decreases OVERTONE_SLOTS - i,
    {
        proof {
            assert(overtones@.take(i + 1).drop_last() =~= overtones@.take(i as int));
        }
        if overtones[i].is_some() {
            n += 1;
        }
        i += 1;
    }
    proof {
        assert(overtones@.take(OVERTONE_SLOTS as int) =~= overtones@);
        lemma_present_count_bounded(overtones@);
        lemma_present_count_zero(overtones@);
    }
    n
}

} // verus!
