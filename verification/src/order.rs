//! The order in which the overview is shown: ascending by count, and among
//! equal counts as the catalogue has them.

use vstd::prelude::*;
use crate::select::lemma_filter_push;
use crate::project::{ItemView, ProjectListItem, item_views};

verus! {

/// `sorted` with `item` put behind the last line whose count is not greater.
pub open spec fn insert_by_tasks(sorted: Seq<ItemView>, item: ItemView) -> Seq<ItemView>
    decreases sorted.len(),
{
    if sorted.len() == 0 || sorted.last().tasks <= item.tasks {
        sorted.push(item)
    } else {
        insert_by_tasks(sorted.drop_last(), item).push(sorted.last())
    }
}

/// The lines of `items` in ascending order of their counts, lines of equal
/// count in the order in which `items` has them.
pub open spec fn sorted_by_tasks(items: Seq<ItemView>) -> Seq<ItemView>
    decreases items.len(),
{
    if items.len() == 0 {
        items
    } else {
        insert_by_tasks(sorted_by_tasks(items.drop_last()), items.last())
    }
}

/// No line has a greater count than one behind it.
pub open spec fn ascending(items: Seq<ItemView>) -> bool {
    forall|i: int, j: int| 0 <= i <= j < items.len() ==> items[i].tasks <= items[j].tasks
}

/// The lines whose count is `count`, for `Seq::filter`.
pub open spec fn with_count(count: int) -> spec_fn(ItemView) -> bool {
    |item: ItemView| item.tasks == count
}

proof fn lemma_insert_at(sorted: Seq<ItemView>, item: ItemView, at: int)
    requires
        0 <= at <= sorted.len(),
        forall|j: int| at <= j < sorted.len() ==> sorted[j].tasks > item.tasks,
        at > 0 ==> sorted[at - 1].tasks <= item.tasks,
    ensures
        insert_by_tasks(sorted, item) == sorted.insert(at, item),
    decreases sorted.len(),
{
    if at < sorted.len() {
        lemma_insert_at(sorted.drop_last(), item, at);
    }
}

proof fn lemma_insert_bounded(sorted: Seq<ItemView>, item: ItemView, bound: int)
    requires
        forall|i: int| 0 <= i < sorted.len() ==> sorted[i].tasks <= bound,
        item.tasks <= bound,
    ensures
        insert_by_tasks(sorted, item).len() == sorted.len() + 1,
        forall|i: int|
            0 <= i < sorted.len() + 1 ==> (#[trigger] insert_by_tasks(sorted, item)[i]).tasks
                <= bound,
    decreases sorted.len(),
{
    if !(sorted.len() == 0 || sorted.last().tasks <= item.tasks) {
        lemma_insert_bounded(sorted.drop_last(), item, bound);
    }
}

proof fn lemma_insert_ascending(sorted: Seq<ItemView>, item: ItemView)
    requires
        ascending(sorted),
    ensures
        ascending(insert_by_tasks(sorted, item)),
        insert_by_tasks(sorted, item).len() == sorted.len() + 1,
    decreases sorted.len(),
{
    if !(sorted.len() == 0 || sorted.last().tasks <= item.tasks) {
        let rest = sorted.drop_last();
        lemma_insert_ascending(rest, item);
        lemma_insert_bounded(rest, item, sorted.last().tasks);
    }
}

proof fn lemma_insert_keeps_counts(sorted: Seq<ItemView>, item: ItemView, count: int)
    ensures
        insert_by_tasks(sorted, item).filter(with_count(count)) == sorted.push(item).filter(
            with_count(count),
        ),
    decreases sorted.len(),
{
    if !(sorted.len() == 0 || sorted.last().tasks <= item.tasks) {
        let rest = sorted.drop_last();
        let last = sorted.last();
        let pred = with_count(count);
        lemma_insert_keeps_counts(rest, item, count);
        lemma_filter_push(insert_by_tasks(rest, item), last, pred);
        lemma_filter_push(rest, item, pred);
        lemma_filter_push(rest, last, pred);
        lemma_filter_push(sorted, item, pred);
        assert(rest.push(last) =~= sorted);
    }
}

/// The sorted overview has every line of the overview, and its counts ascend.
pub proof fn lemma_sorted_ascends(items: Seq<ItemView>)
    ensures
        sorted_by_tasks(items).len() == items.len(),
        ascending(sorted_by_tasks(items)),
    decreases items.len(),
{
    if items.len() > 0 {
        lemma_sorted_ascends(items.drop_last());
        lemma_insert_ascending(sorted_by_tasks(items.drop_last()), items.last());
    }
}

/// The sort is stable: for each count, the lines with that count stand in
/// the sorted overview exactly as they stand in the overview, none lost, none
/// added, in the same order.
pub proof fn lemma_sort_is_stable(items: Seq<ItemView>, count: int)
    ensures
        sorted_by_tasks(items).filter(with_count(count)) == items.filter(with_count(count)),
    decreases items.len(),
{
    if items.len() > 0 {
        let rest = items.drop_last();
        let pred = with_count(count);
        lemma_sort_is_stable(rest, count);
        lemma_insert_keeps_counts(sorted_by_tasks(rest), items.last(), count);
        lemma_filter_push(sorted_by_tasks(rest), items.last(), pred);
        lemma_filter_push(rest, items.last(), pred);
        assert(rest.push(items.last()) =~= items);
    }
}

proof fn lemma_none_with_count(items: Seq<ItemView>, count: int)
    requires
        forall|i: int| 0 <= i < items.len() ==> items[i].tasks != count,
    ensures
        items.filter(with_count(count)).len() == 0,
    decreases items.len(),
{
    reveal(Seq::filter);
    if items.len() > 0 {
        lemma_none_with_count(items.drop_last(), count);
    }
}

proof fn lemma_last_count_is_shared(a: Seq<ItemView>, b: Seq<ItemView>)
    requires
        ascending(a),
        a.len() > 0,
        b.len() > 0,
        a.filter(with_count(b.last().tasks)) == b.filter(with_count(b.last().tasks)),
    ensures
        b.last().tasks <= a.last().tasks,
{
    let n = b.last().tasks;
    if n > a.last().tasks {
        lemma_none_with_count(a, n);
        lemma_filter_push(b.drop_last(), b.last(), with_count(n));
        assert(b.drop_last().push(b.last()) =~= b);
    }
}

proof fn lemma_ascending_is_determined(a: Seq<ItemView>, b: Seq<ItemView>)
    requires
        ascending(a),
        ascending(b),
        forall|count: int| a.filter(with_count(count)) == b.filter(with_count(count)),
    ensures
        a == b,
    decreases a.len() + b.len(),
{
    reveal(Seq::filter);
    if a.len() == 0 {
        if b.len() > 0 {
            lemma_filter_push(b.drop_last(), b.last(), with_count(b.last().tasks));
        }
    } else if b.len() == 0 {
        lemma_filter_push(a.drop_last(), a.last(), with_count(a.last().tasks));
    } else {
        let m = a.last().tasks;
        lemma_last_count_is_shared(a, b);
        lemma_last_count_is_shared(b, a);
        let front = a.drop_last();
        let other = b.drop_last();
        assert(front.push(a.last()) =~= a);
        assert forall|count: int| front.filter(with_count(count)) == other.filter(
            with_count(count),
        ) by {
            lemma_filter_push(front, a.last(), with_count(count));
            lemma_filter_push(other, b.last(), with_count(count));
            if count == m {
                assert(front.filter(with_count(count)) =~= a.filter(with_count(count)).drop_last());
            }
        }
        lemma_filter_push(front, a.last(), with_count(m));
        lemma_filter_push(other, b.last(), with_count(m));
        assert(a.last() == a.filter(with_count(m)).last());
        lemma_ascending_is_determined(front, other);
    }
}

/// No other order is ascending and stable: a sequence whose counts ascend
/// and which has, for each count, the lines with that count exactly as
/// `items` has them is the sorted overview.
pub proof fn lemma_sort_is_unique(items: Seq<ItemView>, other: Seq<ItemView>)
    requires
        ascending(other),
        forall|count: int| other.filter(with_count(count)) == items.filter(with_count(count)),
    ensures
        other == sorted_by_tasks(items),
{
    lemma_sorted_ascends(items);
    assert forall|count: int|
        sorted_by_tasks(items).filter(with_count(count)) == other.filter(with_count(count)) by {
        lemma_sort_is_stable(items, count);
    }
    lemma_ascending_is_determined(sorted_by_tasks(items), other);
}

/// Sorts the overview by ascending count. Lines of equal count keep the
/// order they had.
pub fn sort_by_tasks(items: &mut Vec<ProjectListItem>)
    ensures
        item_views(final(items)@) == sorted_by_tasks(item_views(old(items)@)),
{
    let mut sorted: Vec<ProjectListItem> = Vec::new();
    let mut i: usize = 0;
    let ghost views = item_views(items@);
    while i < items.len()
        invariant
            i <= items.len(),
            views == item_views(items@),
            item_views(sorted@) == sorted_by_tasks(views.subrange(0, i as int)),
            sorted@.len() == i,
        decreases items.len() - i,
    {
        let item = ProjectListItem {
            index: items[i].index,
            name: items[i].name.clone(),
            tasks: items[i].tasks,
        };
        let mut at: usize = sorted.len();
        while at > 0 && sorted[at - 1].tasks > item.tasks
            invariant
                at <= sorted.len(),
                forall|j: int| at <= j < sorted.len() ==> sorted@[j].tasks > item.tasks,
            decreases at,
        {
            at -= 1;
        }
        proof {
            lemma_insert_at(item_views(sorted@), item@, at as int);
            assert(views.subrange(0, i + 1).drop_last() =~= views.subrange(0, i as int));
        }
        sorted.insert(at, item);
        i += 1;
    }
    assert(views.subrange(0, i as int) =~= views);
    *items = sorted;
}

} // verus!
