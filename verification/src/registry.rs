//! The bounded list of the indices of the running loans.

use vstd::prelude::*;
use crate::types::LoanIndex;

verus! {

/// The sequence after an append under the bound `max`: the item at the end
/// where there is room, else the sequence as it was.
pub open spec fn appended(items: Seq<LoanIndex>, max: u32, index: LoanIndex) -> Seq<LoanIndex> {
    if items.len() < max {
        items.push(index)
    } else {
        items
    }
}

/// `BoundedVec::try_push` on a vector bounded by `MAX`, which the items are
/// moved into by `BoundedVec::truncate_from` and out of by `into_inner`: it
/// appends the item where fewer than `MAX` are held, and else hands the item
/// back and leaves the vector as it was.
#[verifier::external_body]
pub(crate) fn bounded_try_push<const MAX: u32>(items: &mut Vec<LoanIndex>, index: LoanIndex) -> (r:
    Result<(), LoanIndex>)
    requires
        old(items)@.len() <= MAX,
    ensures
        final(items)@ == appended(old(items)@, MAX, index),
        r == (if old(items)@.len() < MAX { Ok::<(), LoanIndex>(()) } else { Err::<(), LoanIndex>(index) }),
{
    let mut bounded = bounded_collections::BoundedVec::<LoanIndex, bounded_collections::ConstU32<MAX>>::truncate_from(
        std::mem::take(items),
    );
    let r = bounded.try_push(index);
    *items = bounded.into_inner();
    r
}

/// `BoundedVec::remove` on a vector bounded by `MAX`: takes out the item at
/// `position` and moves the later ones up.
#[verifier::external_body]
pub(crate) fn bounded_remove<const MAX: u32>(items: &mut Vec<LoanIndex>, position: usize) -> (r: LoanIndex)
    requires
        old(items)@.len() <= MAX,
        position < old(items)@.len(),
    ensures
        final(items)@ == old(items)@.remove(position as int),
        r == old(items)@[position as int],
{
    let mut bounded = bounded_collections::BoundedVec::<LoanIndex, bounded_collections::ConstU32<MAX>>::truncate_from(
        std::mem::take(items),
    );
    let r = bounded.remove(position);
    *items = bounded.into_inner();
    r
}

/// Where `index` first stands in `items`, if anywhere.
pub fn position(items: &Vec<LoanIndex>, index: LoanIndex) -> (at: Option<usize>)
    ensures
        match at {
            Some(i) => i < items@.len() && items@[i as int] == index && forall|j: int|
                0 <= j < i ==> items@[j] != index,
            None => !items@.contains(index),
        },
{
    let mut i: usize = 0;
    while i < items.len()
        invariant
            i <= items@.len(),
            forall|j: int| 0 <= j < i ==> items@[j] != index,
        decreases items@.len() - i,
    {
        if items[i] == index {
            return Some(i);
        }
        i += 1;
    }
    None
}

/// Adds `index` at the end of the registry unless it already holds `MAX` items.
pub fn try_append<const MAX: u32>(items: &mut Vec<LoanIndex>, index: LoanIndex) -> (ok: bool)
    requires
        old(items)@.len() <= MAX,
    ensures
        ok == (old(items)@.len() < MAX),
        final(items)@ == appended(old(items)@, MAX, index),
        final(items)@.len() <= MAX,
{
    match bounded_try_push::<MAX>(items, index) {
        Ok(_) => true,
        Err(_) => false,
    }
}

/// The sequence without the first occurrence of `index`.
pub open spec fn without(items: Seq<LoanIndex>, index: LoanIndex) -> Seq<LoanIndex>
    decreases items.len(),
{
    if items.len() == 0 {
        items
    } else if items[0] == index {
        items.drop_first()
    } else {
        seq![items[0]] + without(items.drop_first(), index)
    }
}

proof fn lemma_without_at(items: Seq<LoanIndex>, index: LoanIndex, i: int)
    requires
        0 <= i < items.len(),
        items[i] == index,
        forall|j: int| 0 <= j < i ==> items[j] != index,
    ensures
        without(items, index) == items.remove(i),
    decreases i,
{
    if i == 0 {
        assert(items.remove(0) =~= items.drop_first());
    } else {
        let rest = items.drop_first();
        assert(forall|j: int| 0 <= j < i - 1 ==> rest[j] == items[j + 1]);
        lemma_without_at(rest, index, i - 1);
        assert(items.remove(i) =~= seq![items[0]] + rest.remove(i - 1));
    }
}

proof fn lemma_without_absent(items: Seq<LoanIndex>, index: LoanIndex)
    requires
        !items.contains(index),
    ensures
        without(items, index) == items,
    decreases items.len(),
{
    if items.len() > 0 {
        let rest = items.drop_first();
        assert(items[0] != index);
        assert forall|j: int| 0 <= j < rest.len() implies rest[j] != index by {
            assert(rest[j] == items[j + 1]);
        }
        assert(!rest.contains(index));
        lemma_without_absent(rest, index);
        assert(seq![items[0]] + rest =~= items);
    }
}

/// Taking an index out of a registry without repetitions leaves exactly the
/// other indices, still without repetitions, and one item fewer if it was there.
pub proof fn lemma_without_distinct(items: Seq<LoanIndex>, index: LoanIndex)
    requires
        items.no_duplicates(),
    ensures
        without(items, index).no_duplicates(),
        forall|x: LoanIndex| #[trigger]
            without(items, index).contains(x) <==> (items.contains(x) && x != index),
        without(items, index).len() == items.len() - (if items.contains(index) { 1int } else { 0int }),
{
    if items.contains(index) {
        let i = choose|i: int| 0 <= i < items.len() && items[i] == index;
        lemma_without_at(items, index, i);
        let out = items.remove(i);
        assert forall|x: LoanIndex| #[trigger] out.contains(x) <==> (items.contains(x) && x != index) by {
            if out.contains(x) {
                let j = choose|j: int| 0 <= j < out.len() && out[j] == x;
                if j < i {
                    assert(items[j] == x);
                } else {
                    assert(items[j + 1] == x);
                }
            }
            if items.contains(x) && x != index {
                let j = choose|j: int| 0 <= j < items.len() && items[j] == x;
                if j < i {
                    assert(out[j] == x);
                } else {
                    assert(out[j - 1] == x);
                }
            }
        }
    } else {
        lemma_without_absent(items, index);
    }
}

/// Takes the first occurrence of `index` out of the registry. A registry that
/// does not hold it is left as it is, and the answer is `false`.
pub fn remove<const MAX: u32>(items: &mut Vec<LoanIndex>, index: LoanIndex) -> (found: bool)
    requires
        old(items)@.len() <= MAX,
    ensures
        found == old(items)@.contains(index),
        final(items)@ == without(old(items)@, index),
        final(items)@.len() <= MAX,
{
    match position(items, index) {
        Some(i) => {
            proof {
                lemma_without_at(items@, index, i as int);
            }
            bounded_remove::<MAX>(items, i);
            true
        },
        None => {
            proof {
                lemma_without_absent(items@, index);
            }
            false
        },
    }
}

} // verus!
