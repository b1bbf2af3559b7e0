use crate::domain::sums::{
    lemma_sum_by_any_order, lemma_sum_by_bounds, lemma_sum_by_take_next, sum_by,
};
use vstd::prelude::*;

verus! {

/// One line of a tally: a label and the total under it, in minor units.
#[derive(Debug, Clone)]
pub struct TallyEntry {
    pub label: String,
    pub total: i128,
}

/// Totals of amounts by label. It stands for a finite map from labels to
/// totals, its view; labels are told apart by their exact text.
#[derive(Debug)]
pub struct Tally {
    entries: Vec<TallyEntry>,
}

/// The labels of `entries`, line by line.
pub open spec fn labels_of(entries: Seq<TallyEntry>) -> Seq<Seq<char>> {
    Seq::new(entries.len(), |i: int| entries[i].label@)
}

/// `entries` lists `totals`: each line is a label of `totals` with its
/// total, no label has two lines, and no label of `totals` is left out.
pub open spec fn lists(entries: Seq<TallyEntry>, totals: Map<Seq<char>, int>) -> bool {
    &&& labels_of(entries).no_duplicates()
    &&& forall|i: int|
        0 <= i < entries.len() ==> totals.contains_key(#[trigger] labels_of(entries)[i])
            && totals[labels_of(entries)[i]] == entries[i].total
    &&& forall|label: Seq<char>| #[trigger]
        totals.contains_key(label) ==> labels_of(entries).contains(label)
}

/// Whether an item bears `label`.
pub open spec fn bears<T>(label_of: spec_fn(T) -> Seq<char>, label: Seq<char>) -> spec_fn(T) -> bool {
    |item: T| label_of(item) == label
}

/// The total of `items` under `label`: the sum of the amounts of the items
/// that bear it.
pub open spec fn label_total<T>(
    items: Seq<T>,
    label_of: spec_fn(T) -> Seq<char>,
    amount_of: spec_fn(T) -> int,
    label: Seq<char>,
) -> int {
    sum_by(items.filter(bears(label_of, label)), amount_of)
}

/// Whether one of `items` bears `label`.
pub open spec fn has_label<T>(items: Seq<T>, label_of: spec_fn(T) -> Seq<char>, label: Seq<char>)
    -> bool {
    exists|i: int| 0 <= i < items.len() && label_of(#[trigger] items[i]) == label
}

/// The totals of `items` by label: the labels are those that the items
/// bear, and the total under a label is the sum of the amounts of the items
/// that bear it.
pub open spec fn totals_by_label<T>(
    items: Seq<T>,
    label_of: spec_fn(T) -> Seq<char>,
    amount_of: spec_fn(T) -> int,
) -> Map<Seq<char>, int> {
    Map::new(
        |label: Seq<char>| has_label(items, label_of, label),
        |label: Seq<char>| label_total(items, label_of, amount_of, label),
    )
}

/// What `item` adds to the total under `label`: its amount where it bears
/// that label, and 0 where it bears another.
spec fn share_of<T>(
    label_of: spec_fn(T) -> Seq<char>,
    amount_of: spec_fn(T) -> int,
    label: Seq<char>,
) -> spec_fn(T) -> int {
    |item: T|
        if label_of(item) == label {
            amount_of(item)
        } else {
            0
        }
}

/// The total under a label is also the sum, over all items, of what each
/// adds to it.
proof fn lemma_label_total_by_shares<T>(
    items: Seq<T>,
    label_of: spec_fn(T) -> Seq<char>,
    amount_of: spec_fn(T) -> int,
    label: Seq<char>,
)
    ensures
        label_total(items, label_of, amount_of, label) == sum_by(
            items,
            share_of(label_of, amount_of, label),
        ),
    decreases items.len(),
{
    reveal(Seq::filter);
    if items.len() > 0 {
        let rest = items.drop_last();
        lemma_label_total_by_shares(rest, label_of, amount_of, label);
        if label_of(items.last()) == label {
            let kept = rest.filter(bears(label_of, label));
            assert(kept.push(items.last()).drop_last() =~= kept);
        }
    }
}

/// Where every amount lies between `lo` and `hi`, and 0 does too, the total
/// under a label lies between `len * lo` and `len * hi`.
pub proof fn lemma_label_total_bounds<T>(
    items: Seq<T>,
    label_of: spec_fn(T) -> Seq<char>,
    amount_of: spec_fn(T) -> int,
    label: Seq<char>,
    lo: int,
    hi: int,
)
    requires
        lo <= 0 <= hi,
        forall|i: int| 0 <= i < items.len() ==> lo <= #[trigger] amount_of(items[i]) <= hi,
    ensures
        items.len() * lo <= label_total(items, label_of, amount_of, label) <= items.len() * hi,
{
    let share = share_of(label_of, amount_of, label);
    lemma_sum_by_bounds(items, share, lo, hi);
    lemma_label_total_by_shares(items, label_of, amount_of, label);
}

/// A label that no item bears has a total of 0.
pub proof fn lemma_absent_label_totals_zero<T>(
    items: Seq<T>,
    label_of: spec_fn(T) -> Seq<char>,
    amount_of: spec_fn(T) -> int,
    label: Seq<char>,
)
    requires
        !has_label(items, label_of, label),
    ensures
        label_total(items, label_of, amount_of, label) == 0,
{
    let share = share_of(label_of, amount_of, label);
    lemma_sum_by_bounds(items, share, 0, 0);
    lemma_label_total_by_shares(items, label_of, amount_of, label);
}

/// The totals of the first `i + 1` items are those of the first `i`, with
/// the amount of item `i` added under its label.
pub proof fn lemma_totals_take_next<T>(
    items: Seq<T>,
    i: int,
    label_of: spec_fn(T) -> Seq<char>,
    amount_of: spec_fn(T) -> int,
)
    requires
        0 <= i < items.len(),
    ensures
        totals_by_label(items.take(i + 1), label_of, amount_of) == totals_by_label(
            items.take(i),
            label_of,
            amount_of,
        ).insert(
            label_of(items[i]),
            label_total(items.take(i), label_of, amount_of, label_of(items[i])) + amount_of(
                items[i],
            ),
        ),
{
    let seen = items.take(i);
    let next = items.take(i + 1);
    let new_label = label_of(items[i]);
    assert forall|label: Seq<char>|
        has_label(next, label_of, label) <==> (has_label(seen, label_of, label) || label
            == new_label) by {
        if has_label(seen, label_of, label) {
            let k = choose|k: int| 0 <= k < seen.len() && label_of(#[trigger] seen[k]) == label;
            assert(next[k] == seen[k]);
        }
        if label == new_label {
            assert(next[i] == items[i]);
        }
        if has_label(next, label_of, label) && label != new_label {
            let k = choose|k: int| 0 <= k < next.len() && label_of(#[trigger] next[k]) == label;
            assert(seen[k] == next[k]);
        }
    }
    assert forall|label: Seq<char>|
        label_total(next, label_of, amount_of, label) == label_total(
            seen,
            label_of,
            amount_of,
            label,
        ) + if label == new_label {
            amount_of(items[i])
        } else {
            0
        } by {
        lemma_sum_by_take_next(items, i, share_of(label_of, amount_of, label));
        lemma_label_total_by_shares(seen, label_of, amount_of, label);
        lemma_label_total_by_shares(next, label_of, amount_of, label);
    }
}

/// The totals by label do not depend on the order of the items: two
/// sequences that hold the same items the same number of times have the
/// same labels and the same total under each.
pub proof fn lemma_totals_any_order<T>(
    items: Seq<T>,
    reordered: Seq<T>,
    label_of: spec_fn(T) -> Seq<char>,
    amount_of: spec_fn(T) -> int,
)
    requires
        items.to_multiset() == reordered.to_multiset(),
    ensures
        totals_by_label(items, label_of, amount_of) == totals_by_label(
            reordered,
            label_of,
            amount_of,
        ),
{
    items.to_multiset_ensures();
    reordered.to_multiset_ensures();
    assert forall|label: Seq<char>|
        has_label(items, label_of, label) <==> has_label(reordered, label_of, label) by {
        if has_label(items, label_of, label) {
            let i = choose|i: int| 0 <= i < items.len() && label_of(#[trigger] items[i]) == label;
            assert(reordered.to_multiset().count(items[i]) > 0);
            let j = choose|j: int| 0 <= j < reordered.len() && reordered[j] == items[i];
            assert(label_of(reordered[j]) == label);
        }
        if has_label(reordered, label_of, label) {
            let j = choose|j: int|
                0 <= j < reordered.len() && label_of(#[trigger] reordered[j]) == label;
            assert(items.to_multiset().count(reordered[j]) > 0);
            let i = choose|i: int| 0 <= i < items.len() && items[i] == reordered[j];
            assert(label_of(items[i]) == label);
        }
    }
    assert forall|label: Seq<char>|
        label_total(items, label_of, amount_of, label) == label_total(
            reordered,
            label_of,
            amount_of,
            label,
        ) by {
        lemma_sum_by_any_order(items, reordered, share_of(label_of, amount_of, label));
        lemma_label_total_by_shares(items, label_of, amount_of, label);
        lemma_label_total_by_shares(reordered, label_of, amount_of, label);
    }
}

/// The map that `entries` stand for.
spec fn map_of(entries: Seq<TallyEntry>) -> Map<Seq<char>, int> {
    Map::new(
        |label: Seq<char>| labels_of(entries).contains(label),
        |label: Seq<char>| entries[labels_of(entries).index_of(label)].total as int,
    )
}

/// Where no label has two lines, the lines list the map that they stand for.
proof fn lemma_map_of(entries: Seq<TallyEntry>)
    requires
        labels_of(entries).no_duplicates(),
    ensures
        lists(entries, map_of(entries)),
{
}

impl View for Tally {
    type V = Map<Seq<char>, int>;

    closed spec fn view(&self) -> Map<Seq<char>, int> {
        map_of(self.entries@)
    }
}

impl Tally {
    #[verifier::type_invariant]
    spec fn no_label_twice(&self) -> bool {
        labels_of(self.entries@).no_duplicates()
    }

    /// The total under `label`; 0 where the tally has no such label.
    pub open spec fn total_under(&self, label: Seq<char>) -> int {
        if self@.contains_key(label) {
            self@[label]
        } else {
            0
        }
    }

    /// The tally without any label.
    pub fn new() -> (tally: Tally)
        ensures
            tally@ == Map::<Seq<char>, int>::empty(),
    {
        Tally { entries: Vec::new() }
    }

    /// The total under `label`, if the tally has that label.
    pub fn get(&self, label: &str) -> (total: Option<i128>)
        ensures
            match total {
                Some(total) => self@.contains_key(label@) && self@[label@] == total,
                None => !self@.contains_key(label@),
            },
    {
        proof {
            use_type_invariant(self);
            lemma_map_of(self.entries@);
        }
        let ghost labels = labels_of(self.entries@);
        let wanted = label.to_string();
        let mut i: usize = 0;
        while i < self.entries.len()
            invariant
                0 <= i <= self.entries.len(),
                labels == labels_of(self.entries@),
                lists(self.entries@, self@),
                wanted@ == label@,
                forall|j: int| 0 <= j < i ==> labels[j] != label@,
            decreases self.entries.len() - i,
        {
            if self.entries[i].label == wanted {
                assert(labels[i as int] == label@);
                return Some(self.entries[i].total);
            }
            i = i + 1;
        }
        None
    }

    /// The number of labels.
    pub fn len(&self) -> (len: usize)
        ensures
            self@.dom().finite(),
            len == self@.len(),
    {
        proof {
            use_type_invariant(self);
            let labels = labels_of(self.entries@);
            labels.unique_seq_to_set();
            vstd::seq_lib::seq_to_set_is_finite(labels);
        }
        self.entries.len()
    }

    /// The lines of the tally, one for each label, in no order that a caller
    /// may count on.
    pub fn entries(&self) -> (entries: &Vec<TallyEntry>)
        ensures
            lists(entries@, self@),
    {
        proof {
            use_type_invariant(self);
            lemma_map_of(self.entries@);
        }
        &self.entries
    }

    /// Adds `amount` to the total under `label`, which starts at 0 where the
    /// tally did not have the label.
    pub fn add(&mut self, label: &str, amount: i64)
        requires
            i128::MIN <= old(self).total_under(label@) + amount <= i128::MAX,
        ensures
            final(self)@ == old(self)@.insert(label@, old(self).total_under(label@) + amount),
    {
        proof {
            use_type_invariant(&*self);
            lemma_map_of(self.entries@);
        }
        let mut entries: Vec<TallyEntry> = Vec::new();
        std::mem::swap(&mut entries, &mut self.entries);
        let ghost before = entries@;
        let ghost labels = labels_of(before);
        let added = label.to_string();
        let mut i: usize = 0;
        while i < entries.len()
            invariant
                0 <= i <= entries.len(),
                entries@ == before,
                labels == labels_of(before),
                lists(before, map_of(before)),
                old(self)@ == map_of(before),
                i128::MIN <= old(self).total_under(label@) + amount <= i128::MAX,
                added@ == label@,
                forall|j: int| 0 <= j < i ==> labels[j] != label@,
            decreases entries.len() - i,
        {
            if entries[i].label == added {
                assert(labels[i as int] == label@);
                let total = entries[i].total + amount as i128;
                entries.set(i, TallyEntry { label: added, total });
                assert(labels_of(entries@) =~= labels);
                self.entries = entries;
                return ;
            }
            i = i + 1;
        }
        entries.push(TallyEntry { label: added, total: amount as i128 });
        proof {
            let after = entries@;
            assert(labels_of(after) =~= labels.push(label@));
            assert(map_of(after) =~= map_of(before).insert(label@, amount as int)) by {
                assert forall|l: Seq<char>| labels_of(after).contains(l) <==> (labels.contains(l)
                    || l == label@) by {
                    if labels.contains(l) {
                        let q = labels.index_of(l);
                        assert(labels_of(after)[q] == l);
                    }
                    if l == label@ {
                        assert(labels_of(after)[before.len() as int] == l);
                    }
                }
            }
        }
        self.entries = entries;
    }
}

} // verus!
