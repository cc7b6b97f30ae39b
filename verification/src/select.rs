//! Sequences: the views of their items, and the positions that carry a mark.
use vstd::prelude::*;

verus! {

/// The views of the items of a sequence, in the same order.
pub open spec fn views<T: View>(items: Seq<T>) -> Seq<T::V> {
    items.map_values(|item: T| item@)
}

/// The positions at which `marks` is true, in increasing order.
pub open spec fn marked(marks: Seq<bool>) -> Seq<int>
    decreases marks.len(),
{
    if marks.len() == 0 {
        Seq::empty()
    } else {
        let earlier = marked(marks.drop_last());
        if marks.last() {
            earlier.push(marks.len() - 1)
        } else {
            earlier
        }
    }
}

/// `marked` lists exactly the positions that carry a mark, each once and in
/// increasing order.
pub proof fn lemma_marked(marks: Seq<bool>)
    ensures
        marked(marks).len() <= marks.len(),
        forall|k: int|
            0 <= k < marked(marks).len() ==> 0 <= #[trigger] marked(marks)[k] < marks.len()
                && marks[marked(marks)[k]],
        forall|i: int| 0 <= i < marks.len() && marks[i] ==> marked(marks).contains(i),
        forall|a: int, b: int|
            0 <= a < b < marked(marks).len() ==> marked(marks)[a] < marked(marks)[b],
    decreases marks.len(),
{
    if marks.len() > 0 {
        let shorter = marks.drop_last();
        let earlier = marked(shorter);
        lemma_marked(shorter);
        let all = marked(marks);
        assert forall|i: int| 0 <= i < marks.len() && marks[i] implies all.contains(i) by {
            if i < marks.len() - 1 {
                assert(shorter[i]);
                let k = choose|k: int| 0 <= k < earlier.len() && earlier[k] == i;
                assert(all[k] == i);
            } else {
                assert(all[all.len() - 1] == i);
            }
        }
    }
}

/// A mark at the end adds the last position; no mark adds nothing.
pub proof fn lemma_marked_push(marks: Seq<bool>, mark: bool)
    ensures
        marked(marks.push(mark)) == if mark {
            marked(marks).push(marks.len() as int)
        } else {
            marked(marks)
        },
{
    assert(marks.push(mark).drop_last() =~= marks);
}

/// Where nothing carries a mark, `marked` lists nothing.
pub proof fn lemma_marked_none(marks: Seq<bool>)
    requires
        forall|i: int| 0 <= i < marks.len() ==> !marks[i],
    ensures
        marked(marks).len() == 0,
{
    lemma_marked(marks);
    if marked(marks).len() > 0 {
        assert(marks[marked(marks)[0]]);
    }
}

} // verus!
