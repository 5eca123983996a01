//! Records that are found by their identifier.

use vstd::prelude::*;
use crate::text::{same, to_chars};

verus! {

/// A record with an identifier.
pub trait Identified {
    /// The identifier.
    spec fn ident(&self) -> Seq<char>;

    /// The identifier.
    fn id_text(&self) -> (r: &str)
        ensures
            r@ == self.ident(),
    ;
}

/// The index of the first record at or after `from` whose identifier is
/// `id`, or the number of records where there is none.
pub open spec fn index_by_id<T: Identified>(items: Seq<T>, id: Seq<char>, from: int) -> int
    decreases items.len() - from,
{
    if from < 0 || from >= items.len() {
        items.len() as int
    } else if items[from].ident() == id {
        from
    } else {
        index_by_id(items, id, from + 1)
    }
}

/// Whether some record has the identifier `id`.
pub open spec fn has_id<T: Identified>(items: Seq<T>, id: Seq<char>) -> bool {
    exists|i: int| 0 <= i < items.len() && (#[trigger] items[i]).ident() == id
}

/// `index_by_id` points to a record with the identifier, with none before
/// it from `from` on; or past the end, and then there is none.
pub proof fn lemma_index_by_id<T: Identified>(items: Seq<T>, id: Seq<char>, from: int)
    requires
        0 <= from <= items.len(),
    ensures
        from <= index_by_id(items, id, from) <= items.len(),
        index_by_id(items, id, from) < items.len() ==> items[index_by_id(items, id, from)].ident()
            == id,
        forall|j: int|
            from <= j < index_by_id(items, id, from) ==> (#[trigger] items[j]).ident() != id,
        from == 0 ==> (index_by_id(items, id, from) < items.len() <==> has_id(items, id)),
    decreases items.len() - from,
{
    if from < items.len() && items[from].ident() != id {
        lemma_index_by_id(items, id, from + 1);
    }
    if from == 0 {
        let found = index_by_id(items, id, 0);
        if found < items.len() {
            assert(items[found].ident() == id);
        }
    }
}

/// The index of the first record whose identifier is `id`.
pub fn find_by_id<T: Identified>(items: &Vec<T>, id: &str) -> (r: Option<usize>)
    ensures
        match r {
            Some(i) => i < items@.len() && index_by_id(items@, id@, 0) == i && items@[i as int].ident()
                == id@,
            None => index_by_id(items@, id@, 0) == items@.len() && !has_id(items@, id@),
        },
{
    let wanted = to_chars(id);
    let mut i: usize = 0;
    proof {
        lemma_index_by_id(items@, id@, 0);
    }
    while i < items.len()
        invariant
            i <= items.len(),
            wanted@ == id@,
            index_by_id(items@, id@, 0) == index_by_id(items@, id@, i as int),
        decreases items.len() - i,
    {
        let held = to_chars(items[i].id_text());
        if same(&held, &wanted) {
            return Some(i);
        }
        i += 1;
    }
    None
}

/// The records whose identifier is not `id`, in their order.
pub open spec fn without_id<T: Identified>(items: Seq<T>, id: Seq<char>) -> Seq<T>
    decreases items.len(),
{
    if items.len() == 0 {
        Seq::empty()
    } else if items.last().ident() == id {
        without_id(items.drop_last(), id)
    } else {
        without_id(items.drop_last(), id).push(items.last())
    }
}

/// Leaving out the records of an identifier leaves none of it, and leaves
/// all of them where there was none.
pub proof fn lemma_without_id<T: Identified>(items: Seq<T>, id: Seq<char>)
    ensures
        !has_id(without_id(items, id), id),
        without_id(items, id).len() <= items.len(),
        without_id(items, id).len() == items.len() <==> !has_id(items, id),
        !has_id(items, id) ==> without_id(items, id) == items,
    decreases items.len(),
{
    if items.len() > 0 {
        let front = items.drop_last();
        lemma_without_id(front, id);
        let kept = without_id(items, id);
        if has_id(kept, id) {
            let i = choose|i: int| 0 <= i < kept.len() && (#[trigger] kept[i]).ident() == id;
            if i < without_id(front, id).len() {
                assert(without_id(front, id)[i].ident() == id);
            }
        }
        if has_id(front, id) {
            let i = choose|i: int| 0 <= i < front.len() && (#[trigger] front[i]).ident() == id;
            assert(items[i].ident() == id);
        }
        if has_id(items, id) && items.last().ident() != id {
            let i = choose|i: int| 0 <= i < items.len() && (#[trigger] items[i]).ident() == id;
            assert(front[i].ident() == id);
        }
        if !has_id(items, id) {
            assert(items.last().ident() != id);
            assert(without_id(items, id) =~= items);
        }
    } else {
        assert(without_id(items, id) =~= items);
    }
}

/// Removes the records whose identifier is `id`; tells whether there was one.
pub fn remove_by_id<T: Identified>(items: &mut Vec<T>, id: &str) -> (r: bool)
    ensures
        final(items)@ == without_id(old(items)@, id@),
        r == has_id(old(items)@, id@),
        !has_id(final(items)@, id@),
{
    let wanted = to_chars(id);
    let mut kept: Vec<T> = Vec::new();
    let mut found = false;
    let ghost all = items@;
    proof {
        lemma_without_id(all, id@);
    }
    // The records are taken from the end and put back in their order.
    let mut reversed: Vec<T> = Vec::new();
    while items.len() > 0
        invariant
            items@.len() + reversed@.len() == all.len(),
            items@ == all.take(items@.len() as int),
            forall|j: int|
                0 <= j < reversed@.len() ==> #[trigger] reversed@[j] == all[all.len() - 1 - j],
        decreases items@.len(),
    {
        let last = items.pop().unwrap();
        reversed.push(last);
        proof {
            assert(items@ =~= all.take(items@.len() as int));
        }
    }
    while reversed.len() > 0
        invariant
            wanted@ == id@,
            reversed@.len() <= all.len(),
            forall|j: int|
                0 <= j < reversed@.len() ==> #[trigger] reversed@[j] == all[all.len() - 1 - j],
            kept@ == without_id(all.take(all.len() - reversed@.len()), id@),
            found == has_id(all.take(all.len() - reversed@.len()), id@),
        decreases reversed@.len(),
    {
        let ghost done = all.take(all.len() - reversed@.len());
        let item = reversed.pop().unwrap();
        let ghost next = all.take(all.len() - reversed@.len());
        proof {
            assert(item == all[all.len() - 1 - reversed@.len()]);
            assert(next.drop_last() =~= done);
            assert(next.last() == item);
            if has_id(done, id@) {
                let i = choose|i: int| 0 <= i < done.len() && (#[trigger] done[i]).ident() == id@;
                assert(next[i].ident() == id@);
            }
            if has_id(next, id@) && item.ident() != id@ {
                let i = choose|i: int| 0 <= i < next.len() && (#[trigger] next[i]).ident() == id@;
                assert(done[i].ident() == id@);
            }
        }
        let held = to_chars(item.id_text());
        if same(&held, &wanted) {
            found = true;
        } else {
            kept.push(item);
        }
    }
    proof {
        assert(all.take(all.len() as int) =~= all);
    }
    *items = kept;
    found
}

} // verus!
