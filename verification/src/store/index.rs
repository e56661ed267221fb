//! The hand-kept key indexes, for hosts that cannot list a namespace.
//!
//! An index is a list of keys without repetition. Each function says what the
//! list becomes, and whether it has to be written back.

use vstd::prelude::*;

use crate::messages::fields::views;
use crate::store::keys::{has_prefix, unprefixed};

verus! {

/// What the host can do. A capability is only honored when the method it needs
/// is there, so a misdeclared host degrades instead of failing.
#[derive(Debug, Clone, Copy, PartialEq, Eq, Structural)]
pub struct HostCapabilities {
    /// The host can list a namespace.
    pub enumerate: bool,
    /// The host can delete by prefix.
    pub prefix_delete: bool,
}

impl HostCapabilities {
    /// What a host declares, as far as it has the methods.
    pub fn new(
        cap_enumerate: bool,
        has_list_keys: bool,
        cap_prefix_delete: bool,
        has_delete_prefix: bool,
    ) -> (c: Self)
        ensures
            c == (HostCapabilities {
                enumerate: cap_enumerate && has_list_keys,
                prefix_delete: cap_prefix_delete && has_delete_prefix,
            }),
    {
        HostCapabilities {
            enumerate: cap_enumerate && has_list_keys,
            prefix_delete: cap_prefix_delete && has_delete_prefix,
        }
    }

    /// Whether indexes have to be kept: only where the host cannot list.
    pub fn needs_self_index(&self) -> (b: bool)
        ensures
            b == !self.enumerate,
    {
        !self.enumerate
    }

    /// Whether a user has signal state, as far as that is known without
    /// looking: a host that cannot list cannot prove that there is none, so
    /// there the answer is yes.
    pub fn assumed_signal_state(&self) -> (known: Option<bool>)
        ensures
            known == if self.enumerate {
                None
            } else {
                Some(true)
            },
    {
        if self.enumerate {
            None
        } else {
            Some(true)
        }
    }
}

/// What becomes of a stored index.
#[derive(Debug, Clone, PartialEq, Eq)]
pub enum IndexWrite {
    /// It stays as it is stored.
    Keep,
    /// Nothing is left: the record goes.
    Delete,
    /// It is written anew.
    Rewrite(Vec<String>),
}

/// [`IndexWrite`] as values.
pub enum IndexWriteView {
    Keep,
    Delete,
    Rewrite(Seq<Seq<char>>),
}

impl View for IndexWrite {
    type V = IndexWriteView;

    open spec fn view(&self) -> IndexWriteView {
        match *self {
            IndexWrite::Keep => IndexWriteView::Keep,
            IndexWrite::Delete => IndexWriteView::Delete,
            IndexWrite::Rewrite(v) => IndexWriteView::Rewrite(views(v@)),
        }
    }
}

/// A list with an item behind it, unless it holds the item already.
pub open spec fn with_item<T>(list: Seq<T>, item: T) -> Seq<T> {
    if list.contains(item) {
        list
    } else {
        list.push(item)
    }
}

/// A list with every item of another behind it that it does not hold yet.
pub open spec fn with_items<T>(list: Seq<T>, items: Seq<T>) -> Seq<T>
    decreases items.len(),
{
    if items.len() == 0 {
        list
    } else {
        with_item(with_items(list, items.drop_last()), items.last())
    }
}

/// A list without the item at a place, whose last item takes that place.
pub open spec fn swap_removed<T>(list: Seq<T>, i: int) -> Seq<T> {
    list.update(i, list.last()).drop_last()
}

/// Whether a list of keys holds a key.
pub fn contains_key(list: &Vec<String>, key: &String) -> (b: bool)
    ensures
        b == views(list@).contains(key@),
{
    let mut i: usize = 0;
    while i < list.len()
        invariant
            i <= list.len(),
            forall|j: int| 0 <= j < i ==> (#[trigger] list@[j])@ != key@,
        decreases list.len() - i,
    {
        if list[i] == *key {
            assert(views(list@)[i as int] == key@);
            return true;
        }
        i += 1;
    }
    assert forall|j: int| 0 <= j < views(list@).len() implies views(list@)[j] != key@ by {
        assert(views(list@)[j] == list@[j]@);
    }
    false
}

/// Adds a key to an index, and says whether it was new.
pub fn add_key(list: &mut Vec<String>, key: &String) -> (added: bool)
    ensures
        views(final(list)@) == with_item(views(old(list)@), key@),
        added == !views(old(list)@).contains(key@),
{
    if contains_key(list, key) {
        return false;
    }
    let copy = key.clone();
    list.push(copy);
    assert(views(list@) =~= views(old(list)@).push(key@));
    true
}

/// Adds a batch of keys to an index, each once, and says whether any was new.
pub fn add_keys(list: &mut Vec<String>, keys: &Vec<String>) -> (added: bool)
    ensures
        views(final(list)@) == with_items(views(old(list)@), views(keys@)),
        added == (views(final(list)@).len() != views(old(list)@).len()),
        views(final(list)@).len() >= views(old(list)@).len(),
{
    let ghost all = views(keys@);
    let mut added = false;
    let mut i: usize = 0;
    assert(all.take(0) =~= Seq::empty());
    while i < keys.len()
        invariant
            i <= keys.len(),
            all == views(keys@),
            views(list@) == with_items(views(old(list)@), all.take(i as int)),
            added == (views(list@).len() != views(old(list)@).len()),
            views(list@).len() >= views(old(list)@).len(),
        decreases keys.len() - i,
    {
        proof {
            assert(all.take(i + 1).drop_last() =~= all.take(i as int));
            assert(all.take(i + 1).last() == keys@[i as int]@);
        }
        if add_key(list, &keys[i]) {
            added = true;
        }
        i += 1;
    }
    assert(all.take(i as int) =~= all);
    added
}

/// Adding keys never drops one, and every key added is there.
pub proof fn with_items_holds<T>(list: Seq<T>, items: Seq<T>, x: T)
    ensures
        with_items(list, items).contains(x) <==> list.contains(x) || items.contains(x),
    decreases items.len(),
{
    if items.len() > 0 {
        let before = items.drop_last();
        let mid = with_items(list, before);
        with_items_holds(list, before, x);
        assert(items.contains(x) <==> before.contains(x) || items.last() == x) by {
            if items.contains(x) {
                let i = choose|i: int| 0 <= i < items.len() && items[i] == x;
                if i < before.len() {
                    assert(before[i] == x);
                }
            }
            if before.contains(x) {
                let i = choose|i: int| 0 <= i < before.len() && before[i] == x;
                assert(items[i] == x);
            }
            if items.last() == x {
                assert(items[items.len() - 1] == x);
            }
        }
        if !mid.contains(items.last()) {
            let out = mid.push(items.last());
            assert(out.contains(x) <==> mid.contains(x) || items.last() == x) by {
                if mid.contains(x) {
                    let i = choose|i: int| 0 <= i < mid.len() && mid[i] == x;
                    assert(out[i] == x);
                }
                if items.last() == x {
                    assert(out[out.len() - 1] == x);
                }
                if out.contains(x) {
                    let i = choose|i: int| 0 <= i < out.len() && out[i] == x;
                    if i < mid.len() {
                        assert(mid[i] == x);
                    }
                }
            }
        }
    }
}

/// An index that held no key twice holds none twice after keys were added,
/// whatever the batch repeats.
pub proof fn with_items_keeps_unique<T>(list: Seq<T>, items: Seq<T>)
    requires
        list.no_duplicates(),
    ensures
        with_items(list, items).no_duplicates(),
    decreases items.len(),
{
    if items.len() > 0 {
        let mid = with_items(list, items.drop_last());
        with_items_keeps_unique(list, items.drop_last());
        if !mid.contains(items.last()) {
            let out = mid.push(items.last());
            assert forall|i: int, j: int| 0 <= i < out.len() && 0 <= j < out.len() && i
                != j implies out[i] != out[j] by {
                if i == mid.len() {
                    assert(mid.contains(mid[j]));
                } else if j == mid.len() {
                    assert(mid.contains(mid[i]));
                }
            }
        }
    }
}

/// The keys of a list that are not among some others.
pub fn without_keys(list: &Vec<String>, removing: &Vec<String>) -> (out: Vec<String>)
    ensures
        views(out@) == views(list@).filter(|k: Seq<char>| !views(removing@).contains(k)),
{
    reveal(Seq::filter);
    let ghost all = views(list@);
    let ghost keep = |k: Seq<char>| !views(removing@).contains(k);
    let mut out: Vec<String> = Vec::new();
    let mut i: usize = 0;
    proof {
        assert(all.take(0) =~= Seq::empty());
        assert(views(out@) =~= Seq::empty());
        assert(all.take(0).filter(keep) =~= Seq::empty());
    }
    while i < list.len()
        invariant
            i <= list.len(),
            all == views(list@),
            keep == (|k: Seq<char>| !views(removing@).contains(k)),
            views(out@) == all.take(i as int).filter(keep),
        decreases list.len() - i,
    {
        reveal(Seq::filter);
        let ghost before = out@;
        proof {
            assert(all.take(i + 1).drop_last() =~= all.take(i as int));
            assert(all.take(i + 1).last() == list@[i as int]@);
        }
        if !contains_key(removing, &list[i]) {
            let key = list[i].clone();
            out.push(key);
            assert(views(out@) =~= views(before).push(key@));
        }
        i += 1;
    }
    assert(all.take(i as int) =~= all);
    out
}

/// What becomes of an index when keys are deleted: it is written only where
/// something changes.
pub fn remove_keys(list: &Vec<String>, removing: &Vec<String>) -> (w: IndexWrite)
    ensures
        ({
            let left = views(list@).filter(|k: Seq<char>| !views(removing@).contains(k));
            w@ == if left.len() == views(list@).len() {
                IndexWriteView::Keep
            } else {
                IndexWriteView::Rewrite(left)
            }
        }),
{
    let left = without_keys(list, removing);
    assert(views(left@).len() == left@.len());
    if left.len() == list.len() {
        IndexWrite::Keep
    } else {
        IndexWrite::Rewrite(left)
    }
}

/// The keys of a list that begin with a prefix.
pub fn keys_with_prefix(list: &Vec<String>, prefix: &str) -> (out: Vec<String>)
    ensures
        views(out@) == views(list@).filter(|k: Seq<char>| unprefixed(k, prefix@) is Some),
{
    split_by_prefix(list, prefix).0
}

fn split_by_prefix(list: &Vec<String>, prefix: &str) -> (out: (Vec<String>, Vec<String>))
    ensures
        views(out.0@) == views(list@).filter(|k: Seq<char>| unprefixed(k, prefix@) is Some),
        views(out.1@) == views(list@).filter(|k: Seq<char>| unprefixed(k, prefix@) is None),
{
    reveal(Seq::filter);
    let ghost all = views(list@);
    let ghost yes = |k: Seq<char>| unprefixed(k, prefix@) is Some;
    let ghost no = |k: Seq<char>| unprefixed(k, prefix@) is None;
    let mut with: Vec<String> = Vec::new();
    let mut without: Vec<String> = Vec::new();
    let mut i: usize = 0;
    proof {
        assert(all.take(0) =~= Seq::empty());
        assert(views(with@) =~= Seq::empty());
        assert(views(without@) =~= Seq::empty());
        assert(all.take(0).filter(yes) =~= Seq::empty());
        assert(all.take(0).filter(no) =~= Seq::empty());
    }
    while i < list.len()
        invariant
            i <= list.len(),
            all == views(list@),
            yes == (|k: Seq<char>| unprefixed(k, prefix@) is Some),
            no == (|k: Seq<char>| unprefixed(k, prefix@) is None),
            views(with@) == all.take(i as int).filter(yes),
            views(without@) == all.take(i as int).filter(no),
        decreases list.len() - i,
    {
        reveal(Seq::filter);
        let ghost a = with@;
        let ghost b = without@;
        proof {
            assert(all.take(i + 1).drop_last() =~= all.take(i as int));
            assert(all.take(i + 1).last() == list@[i as int]@);
        }
        let key = list[i].clone();
        if has_prefix(key.as_str(), prefix) {
            with.push(key);
            assert(views(with@) =~= views(a).push(key@));
        } else {
            without.push(key);
            assert(views(without@) =~= views(b).push(key@));
        }
        i += 1;
    }
    assert(all.take(i as int) =~= all);
    (with, without)
}

/// What becomes of an index when every key with a prefix is cleared: the
/// record goes when nothing is left of it, and is written only where something
/// changes.
pub fn clear_prefix(list: &Vec<String>, prefix: &str) -> (w: IndexWrite)
    ensures
        ({
            let left = views(list@).filter(|k: Seq<char>| unprefixed(k, prefix@) is None);
            w@ == if left.len() == views(list@).len() {
                IndexWriteView::Keep
            } else if left.len() == 0 {
                IndexWriteView::Delete
            } else {
                IndexWriteView::Rewrite(left)
            }
        }),
{
    let (_, left) = split_by_prefix(list, prefix);
    assert(views(left@).len() == left@.len());
    if left.len() == list.len() {
        IndexWrite::Keep
    } else if left.len() == 0 {
        IndexWrite::Delete
    } else {
        IndexWrite::Rewrite(left)
    }
}

/// The first place of a key in a list.
pub open spec fn first_place(list: Seq<Seq<char>>, key: Seq<char>) -> Option<int>
    decreases list.len(),
{
    if list.len() == 0 {
        None
    } else {
        match first_place(list.drop_last(), key) {
            Some(i) => Some(i),
            None => if list.last() == key {
                Some(list.len() - 1)
            } else {
                None
            },
        }
    }
}

/// Drops a key from an unordered list, and says whether it was there.
pub fn drop_key(list: &mut Vec<String>, key: &String) -> (dropped: bool)
    ensures
        match first_place(views(old(list)@), key@) {
            Some(i) => dropped && views(final(list)@) == swap_removed(views(old(list)@), i),
            None => !dropped && views(final(list)@) == views(old(list)@),
        },
{
    let ghost all = views(list@);
    let mut i: usize = 0;
    assert(all.take(0) =~= Seq::empty());
    while i < list.len()
        invariant
            i <= list.len(),
            *list == *old(list),
            all == views(list@),
            first_place(all.take(i as int), key@) is None,
        decreases list.len() - i,
    {
        proof {
            assert(all.take(i + 1).drop_last() =~= all.take(i as int));
            assert(all.take(i + 1).last() == list@[i as int]@);
        }
        if list[i] == *key {
            proof {
                assert(first_place(all.take(i + 1), key@) == Some(i as int));
                first_place_stays(all, key@, i + 1);
            }
            list.swap_remove(i);
            assert(views(list@) =~= swap_removed(all, i as int));
            return true;
        }
        i += 1;
    }
    assert(all.take(i as int) =~= all);
    false
}

proof fn first_place_stays(list: Seq<Seq<char>>, key: Seq<char>, n: int)
    requires
        0 <= n <= list.len(),
        first_place(list.take(n), key) is Some,
    ensures
        first_place(list, key) == first_place(list.take(n), key),
    decreases list.len() - n,
{
    if n < list.len() {
        assert(list.take(n + 1).drop_last() =~= list.take(n));
        first_place_stays(list, key, n + 1);
    } else {
        assert(list.take(n) =~= list);
    }
}

/// Adds a number to a list, and says whether it was new.
pub fn add_id(list: &mut Vec<u32>, id: u32) -> (added: bool)
    ensures
        final(list)@ == with_item(old(list)@, id),
        added == !old(list)@.contains(id),
{
    let mut i: usize = 0;
    while i < list.len()
        invariant
            i <= list.len(),
            *list == *old(list),
            forall|j: int| 0 <= j < i ==> list@[j] != id,
        decreases list.len() - i,
    {
        if list[i] == id {
            assert(list@[i as int] == id);
            return false;
        }
        i += 1;
    }
    list.push(id);
    true
}

/// A list of numbers without one of them.
pub fn without_id(list: &Vec<u32>, id: u32) -> (out: Vec<u32>)
    ensures
        out@ == list@.filter(|n: u32| n != id),
{
    reveal(Seq::filter);
    let ghost keep = |n: u32| n != id;
    let mut out: Vec<u32> = Vec::new();
    let mut i: usize = 0;
    assert(list@.take(0).filter(keep) =~= Seq::empty());
    while i < list.len()
        invariant
            i <= list.len(),
            keep == (|n: u32| n != id),
            out@ == list@.take(i as int).filter(keep),
        decreases list.len() - i,
    {
        reveal(Seq::filter);
        assert(list@.take(i + 1).drop_last() =~= list@.take(i as int));
        if list[i] != id {
            out.push(list[i]);
        }
        i += 1;
    }
    assert(list@.take(i as int) =~= list@);
    out
}

/// What looking at one indexed sent message found.
#[derive(Debug, Clone, Copy, PartialEq, Eq, Structural)]
pub enum SentRow {
    /// Its time is over: the row is deleted.
    Expired,
    /// It carries no stamp: the row is deleted.
    Corrupt,
    /// There is no row.
    Gone,
    /// It stays, or could not be read.
    Kept,
}

impl SentRow {
    /// Whether the row itself is deleted.
    pub open spec fn is_deleted(self) -> bool {
        self == SentRow::Expired || self == SentRow::Corrupt
    }

    /// Whether the row itself is deleted.
    pub fn deletes(&self) -> (b: bool)
        ensures
            b == self.is_deleted(),
    {
        matches!(self, SentRow::Expired | SentRow::Corrupt)
    }
}

/// How many rows were deleted because their time was over.
pub open spec fn expired_count(rows: Seq<SentRow>) -> int
    decreases rows.len(),
{
    if rows.len() == 0 {
        0
    } else {
        expired_count(rows.drop_last()) + if rows.last() == SentRow::Expired {
            1int
        } else {
            0int
        }
    }
}

/// The index once the rows from `n` down to the first were dealt with: every
/// one that is not kept is taken out, and the last key takes its place.
pub open spec fn pruned(keys: Seq<Seq<char>>, rows: Seq<SentRow>, n: int) -> Seq<Seq<char>>
    decreases n,
{
    if n <= 0 {
        keys
    } else {
        pruned(
            if rows[n - 1] == SentRow::Kept {
                keys
            } else {
                swap_removed(keys, n - 1)
            },
            rows,
            n - 1,
        )
    }
}

/// Takes every key out of the sent-message index whose row is not kept, and
/// counts the rows whose time was over.
pub fn prune_sent_keys(keys: &mut Vec<String>, rows: &Vec<SentRow>) -> (deleted: u32)
    requires
        old(keys)@.len() == rows@.len(),
        rows@.len() <= u32::MAX,
    ensures
        views(final(keys)@) == pruned(views(old(keys)@), rows@, rows@.len() as int),
        deleted == expired_count(rows@),
{
    let mut deleted: u32 = 0;
    let mut k: usize = 0;
    assert(rows@.take(0) =~= Seq::empty());
    while k < rows.len()
        invariant
            k <= rows.len(),
            rows@.len() <= u32::MAX,
            deleted == expired_count(rows@.take(k as int)),
            deleted <= k,
        decreases rows.len() - k,
    {
        assert(rows@.take(k + 1).drop_last() =~= rows@.take(k as int));
        if rows[k] == SentRow::Expired {
            deleted += 1;
        }
        k += 1;
    }
    assert(rows@.take(k as int) =~= rows@);
    let mut i: usize = rows.len();
    while i > 0
        invariant
            i <= rows@.len(),
            i <= keys@.len(),
            pruned(views(keys@), rows@, i as int) == pruned(
                views(old(keys)@),
                rows@,
                rows@.len() as int,
            ),
        decreases i,
    {
        let ghost before = keys@;
        i -= 1;
        if rows[i] != SentRow::Kept {
            keys.swap_remove(i);
            assert(views(keys@) =~= swap_removed(views(before), i as int));
        }
    }
    deleted
}

/// What stays in a pruned index is exactly what was kept, with its
/// repetitions; only the order may change.
pub proof fn pruning_keeps_the_kept(keys: Seq<Seq<char>>, rows: Seq<SentRow>, n: int)
    requires
        0 <= n <= rows.len(),
        n <= keys.len(),
    ensures
        pruned(keys, rows, n).to_multiset() == keys.to_multiset().sub(
            gone_keys(keys, rows, n).to_multiset(),
        ),
        gone_keys(keys, rows, n).to_multiset().subset_of(keys.to_multiset()),
    decreases n,
{
    broadcast use vstd::seq_lib::group_to_multiset_ensures;

    if n > 0 {
        let gone = gone_keys(keys, rows, n - 1);
        if rows[n - 1] == SentRow::Kept {
            pruning_keeps_the_kept(keys, rows, n - 1);
        } else {
            let next = swap_removed(keys, n - 1);
            swap_removed_multiset(keys, n - 1);
            pruning_keeps_the_kept(next, rows, n - 1);
            same_gone_keys(keys, next, rows, n - 1);
            let m = keys.to_multiset();
            let g = gone.to_multiset();
            assert(gone.push(keys[n - 1]).to_multiset() =~= g.insert(keys[n - 1]));
            assert(m.remove(keys[n - 1]).sub(g) =~= m.sub(g.insert(keys[n - 1])));
            assert(g.insert(keys[n - 1]).subset_of(m)) by {
                assert forall|k: Seq<char>| g.insert(keys[n - 1]).count(k) <= m.count(k) by {
                    assert(g.count(k) <= m.remove(keys[n - 1]).count(k));
                    assert(m.contains(keys[n - 1]));
                }
            }
        }
    } else {
        assert(gone_keys(keys, rows, n).to_multiset() =~= vstd::multiset::Multiset::empty());
        assert(keys.to_multiset().sub(vstd::multiset::Multiset::empty()) =~= keys.to_multiset());
    }
}

/// The keys below `n` whose rows are not kept, in order.
pub open spec fn gone_keys(keys: Seq<Seq<char>>, rows: Seq<SentRow>, n: int) -> Seq<Seq<char>>
    decreases n,
{
    if n <= 0 {
        Seq::empty()
    } else if rows[n - 1] == SentRow::Kept {
        gone_keys(keys, rows, n - 1)
    } else {
        gone_keys(keys, rows, n - 1).push(keys[n - 1])
    }
}

proof fn same_gone_keys(a: Seq<Seq<char>>, b: Seq<Seq<char>>, rows: Seq<SentRow>, n: int)
    requires
        0 <= n <= a.len(),
        n <= b.len(),
        forall|i: int| 0 <= i < n ==> a[i] == b[i],
    ensures
        gone_keys(a, rows, n) == gone_keys(b, rows, n),
    decreases n,
{
    if n > 0 {
        same_gone_keys(a, b, rows, n - 1);
    }
}

proof fn swap_removed_multiset(keys: Seq<Seq<char>>, i: int)
    requires
        0 <= i < keys.len(),
    ensures
        swap_removed(keys, i).to_multiset() == keys.to_multiset().remove(keys[i]),
{
    broadcast use vstd::seq_lib::group_to_multiset_ensures;

    let last = keys.last();
    let front = keys.drop_last();
    assert(keys =~= front.push(last));
    if i == keys.len() - 1 {
        assert(swap_removed(keys, i) =~= front);
        assert(front.push(last).to_multiset() =~= front.to_multiset().insert(last));
        assert(front.to_multiset().insert(last).remove(last) =~= front.to_multiset());
    } else {
        assert(swap_removed(keys, i) =~= front.update(i, last));
        vstd::seq_lib::to_multiset_update(front, i, last);
        assert(front.update(i, last).to_multiset() =~= front.to_multiset().insert(last).remove(
            front[i],
        ));
    }
}

} // verus!
