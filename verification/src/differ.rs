//! Byte-level comparison of two snapshots of the monitor's settings table.

use vstd::prelude::*;
use vstd::string::*;
use crate::text::{decimal, spec_decimal};

verus! {

/// One byte that differs between two snapshots.
#[derive(Clone, Copy, Debug, PartialEq, Eq, Structural)]
pub struct DiffEntry {
    pub page: u8,
    pub offset: u8,
    pub old_value: u8,
    pub new_value: u8,
}

/// What the comparison of one page looks at, offset by offset: an entry for
/// every byte, changed or not.
pub open spec fn page_entries(page: u8, before: Seq<u8>, after: Seq<u8>) -> Seq<DiffEntry> {
    Seq::new(
        36,
        |i: int| DiffEntry { page, offset: i as u8, old_value: before[i], new_value: after[i] },
    )
}

/// Whether an entry records a change.
pub open spec fn is_change(entry: DiffEntry) -> bool {
    entry.old_value != entry.new_value
}

/// The test that keeps the entries that record a change.
pub open spec fn changed() -> spec_fn(DiffEntry) -> bool {
    |entry: DiffEntry| is_change(entry)
}

/// The changes of one page, by ascending offset.
pub open spec fn page_changes(page: u8, before: Seq<u8>, after: Seq<u8>) -> Seq<DiffEntry> {
    page_entries(page, before, after).filter(changed())
}

/// The changes between two snapshots: those of the first page, then those of
/// the second.
pub open spec fn spec_diff(before: (Seq<u8>, Seq<u8>), after: (Seq<u8>, Seq<u8>)) -> Seq<
    DiffEntry,
> {
    page_changes(0, before.0, after.0) + page_changes(1, before.1, after.1)
}

/// The page of a snapshot with the given number.
pub open spec fn page_of(snapshot: (Seq<u8>, Seq<u8>), page: u8) -> Seq<u8> {
    if page == 0 {
        snapshot.0
    } else {
        snapshot.1
    }
}

/// The entry that records the bytes of the two snapshots at one offset of one
/// page.
pub open spec fn entry_at(
    before: (Seq<u8>, Seq<u8>),
    after: (Seq<u8>, Seq<u8>),
    page: u8,
    offset: u8,
) -> DiffEntry {
    DiffEntry {
        page,
        offset,
        old_value: page_of(before, page)[offset as int],
        new_value: page_of(after, page)[offset as int],
    }
}

/// Whether `first` stands before `second` in the order of page, then offset.
pub open spec fn precedes(first: DiffEntry, second: DiffEntry) -> bool {
    first.page < second.page || (first.page == second.page && first.offset < second.offset)
}

/// Whether `entries` reports exactly the bytes in which two snapshots
/// differ: every entry names an offset of a page at which they differ, with
/// the byte of each; every such offset has its entry; and the entries come
/// in strictly ascending order of page, then offset.
pub open spec fn reports_exactly(
    entries: Seq<DiffEntry>,
    before: (Seq<u8>, Seq<u8>),
    after: (Seq<u8>, Seq<u8>),
) -> bool {
    &&& forall|k: int|
        0 <= k < entries.len() ==> {
            let entry = #[trigger] entries[k];
            &&& entry.page <= 1
            &&& entry.offset < 36
            &&& entry.old_value == page_of(before, entry.page)[entry.offset as int]
            &&& entry.new_value == page_of(after, entry.page)[entry.offset as int]
            &&& entry.old_value != entry.new_value
        }
    &&& forall|page: u8, offset: u8|
        page <= 1 && offset < 36 && page_of(before, page)[offset as int] != page_of(
            after,
            page,
        )[offset as int] ==> entries.contains(#[trigger] entry_at(before, after, page, offset))
    &&& forall|j: int, k: int|
        0 <= j < k < entries.len() ==> precedes(#[trigger] entries[j], #[trigger] entries[k])
}

/// What holds of the changes of one page.
proof fn lemma_page_changes(page: u8, before: Seq<u8>, after: Seq<u8>)
    ensures
        forall|k: int|
            0 <= k < page_changes(page, before, after).len() ==> {
                let entry = #[trigger] page_changes(page, before, after)[k];
                &&& entry.page == page
                &&& entry.offset < 36
                &&& entry.old_value == before[entry.offset as int]
                &&& entry.new_value == after[entry.offset as int]
                &&& entry.old_value != entry.new_value
            },
        forall|i: int|
            0 <= i < 36 && before[i] != after[i] ==> page_changes(page, before, after).contains(
                #[trigger] page_entries(page, before, after)[i],
            ),
        forall|j: int, k: int|
            0 <= j < k < page_changes(page, before, after).len() ==> (#[trigger] page_changes(
                page,
                before,
                after,
            )[j]).offset < (#[trigger] page_changes(page, before, after)[k]).offset,
{
    let all = page_entries(page, before, after);
    let pred = changed();
    let changes = all.filter(pred);
    assert forall|k: int| 0 <= k < changes.len() implies {
        let entry = #[trigger] changes[k];
        &&& entry.page == page
        &&& entry.offset < 36
        &&& entry.old_value == before[entry.offset as int]
        &&& entry.new_value == after[entry.offset as int]
        &&& entry.old_value != entry.new_value
    } by {
        all.lemma_filter_pred(pred, k);
        all.lemma_filter_contains_rev(pred, changes[k]);
        let i = choose|i: int| 0 <= i < all.len() && all[i] == changes[k];
        assert(all[i].offset == i);
    }
    assert forall|i: int| 0 <= i < 36 && before[i] != after[i] implies changes.contains(
        #[trigger] all[i],
    ) by {
        all.lemma_filter_contains(pred, i);
    }
    lemma_filtered_prefix_ascends(page, before, after, 36);
    assert(all.take(36) =~= all);
}

/// The changes among the first `upto` bytes of a page come by strictly
/// ascending offset, and all of their offsets are below `upto`.
proof fn lemma_filtered_prefix_ascends(page: u8, before: Seq<u8>, after: Seq<u8>, upto: int)
    requires
        0 <= upto <= 36,
    ensures
        ({
            let part = page_entries(page, before, after).take(upto).filter(changed());
            &&& forall|k: int| 0 <= k < part.len() ==> (#[trigger] part[k]).offset < upto
            &&& forall|j: int, k: int|
                0 <= j < k < part.len() ==> (#[trigger] part[j]).offset < (
                #[trigger] part[k]).offset
        }),
    decreases upto,
{
    let all = page_entries(page, before, after);
    let pred = changed();
    reveal(Seq::filter);
    if upto > 0 {
        lemma_filtered_prefix_ascends(page, before, after, upto - 1);
        let shorter = all.take(upto - 1).filter(pred);
        let part = all.take(upto).filter(pred);
        assert(all.take(upto).drop_last() =~= all.take(upto - 1));
        assert(all.take(upto).last() == all[upto - 1]);
        assert(all[upto - 1].offset == upto - 1);
        assert(part == if pred(all[upto - 1]) {
            shorter.push(all[upto - 1])
        } else {
            shorter
        });
    } else {
        assert(all.take(0).len() == 0);
    }
}

/// Comparing a snapshot with itself finds no change.
pub proof fn lemma_diff_identical(snapshot: (Seq<u8>, Seq<u8>))
    ensures
        spec_diff(snapshot, snapshot) == Seq::<DiffEntry>::empty(),
{
    lemma_page_changes(0, snapshot.0, snapshot.0);
    lemma_page_changes(1, snapshot.1, snapshot.1);
    let first = page_changes(0, snapshot.0, snapshot.0);
    let second = page_changes(1, snapshot.1, snapshot.1);
    if first.len() > 0 {
        assert(first[0].old_value != first[0].new_value);
    }
    if second.len() > 0 {
        assert(second[0].old_value != second[0].new_value);
    }
    assert(spec_diff(snapshot, snapshot) =~= Seq::<DiffEntry>::empty());
}

/// The changes between two snapshots are exactly the bytes in which they
/// differ, each reported once: every entry names an offset of a page at
/// which the snapshots differ, every such offset has its entry, the entries
/// come in strictly ascending order of page, then offset, and none comes
/// twice.
pub proof fn lemma_diff_exact(before: (Seq<u8>, Seq<u8>), after: (Seq<u8>, Seq<u8>))
    ensures
        reports_exactly(spec_diff(before, after), before, after),
        spec_diff(before, after).no_duplicates(),
{
    lemma_page_changes(0, before.0, after.0);
    lemma_page_changes(1, before.1, after.1);
    let first = page_changes(0, before.0, after.0);
    let second = page_changes(1, before.1, after.1);
    let all = spec_diff(before, after);
    assert forall|k: int| 0 <= k < all.len() implies {
        let entry = #[trigger] all[k];
        &&& entry.page <= 1
        &&& entry.offset < 36
        &&& entry.old_value == page_of(before, entry.page)[entry.offset as int]
        &&& entry.new_value == page_of(after, entry.page)[entry.offset as int]
        &&& entry.old_value != entry.new_value
    } by {
        if k < first.len() {
            assert(all[k] == first[k]);
        } else {
            assert(all[k] == second[k - first.len()]);
        }
    }
    assert forall|page: u8, offset: u8|
        page <= 1 && offset < 36 && page_of(before, page)[offset as int] != page_of(
            after,
            page,
        )[offset as int] implies all.contains(#[trigger] entry_at(before, after, page, offset)) by {
        let entry = entry_at(before, after, page, offset);
        if page == 0 {
            assert(page_entries(0, before.0, after.0)[offset as int] == entry);
            assert(first.contains(entry));
            let k = choose|k: int| 0 <= k < first.len() && first[k] == entry;
            assert(all[k] == entry);
        } else {
            assert(page_entries(1, before.1, after.1)[offset as int] == entry);
            assert(second.contains(entry));
            let k = choose|k: int| 0 <= k < second.len() && second[k] == entry;
            assert(all[first.len() + k] == entry);
        }
    }
    assert forall|j: int, k: int| 0 <= j < k < all.len() implies precedes(
        #[trigger] all[j],
        #[trigger] all[k],
    ) by {
        if k < first.len() {
            assert(all[j] == first[j] && all[k] == first[k]);
        } else if j < first.len() {
            assert(all[j] == first[j] && all[k] == second[k - first.len()]);
        } else {
            assert(all[j] == second[j - first.len()] && all[k] == second[k - first.len()]);
        }
    }
    assert forall|j: int, k: int| 0 <= j < all.len() && 0 <= k < all.len() && j != k implies all[j]
        != all[k] by {
        if j < k {
            assert(precedes(all[j], all[k]));
        } else {
            assert(precedes(all[k], all[j]));
        }
    }
}

/// Appends the changes of one page to `entries`.
fn push_page_changes(entries: &mut Vec<DiffEntry>, page: u8, before: &[u8; 36], after: &[u8; 36])
    ensures
        final(entries)@ == old(entries)@ + page_changes(page, before@, after@),
{
    let ghost all = page_entries(page, before@, after@);
    let ghost pred = changed();
    let ghost start = entries@;
    let mut offset: u8 = 0;
    proof {
        reveal(Seq::filter);
        assert(all.take(0).filter(pred) =~= Seq::<DiffEntry>::empty());
    }
    while offset < 36
        invariant
            offset <= 36,
            all == page_entries(page, before@, after@),
            pred == changed(),
            entries@ == start + all.take(offset as int).filter(pred),
        decreases 36 - offset,
    {
        let old_value = before[offset as usize];
        let new_value = after[offset as usize];
        proof {
            reveal(Seq::filter);
            let next = all.take(offset + 1);
            assert(next.drop_last() =~= all.take(offset as int));
            assert(next.last() == all[offset as int]);
        }
        if old_value != new_value {
            entries.push(DiffEntry { page, offset, old_value, new_value });
        }
        offset = offset + 1;
    }
    proof {
        assert(all.take(36) =~= all);
    }
}

/// Compares two snapshots byte by byte and reports every byte that differs,
/// in ascending order of page, then offset.
pub fn diff(before: &([u8; 36], [u8; 36]), after: &([u8; 36], [u8; 36])) -> (entries: Vec<
    DiffEntry,
>)
    ensures
        entries@ == spec_diff((before.0@, before.1@), (after.0@, after.1@)),
        reports_exactly(entries@, (before.0@, before.1@), (after.0@, after.1@)),
        entries@.no_duplicates(),
        before.0@ == after.0@ && before.1@ == after.1@ ==> entries@.len() == 0,
{
    let mut entries: Vec<DiffEntry> = Vec::new();
    push_page_changes(&mut entries, 0, &before.0, &after.0);
    push_page_changes(&mut entries, 1, &before.1, &after.1);
    proof {
        lemma_diff_exact((before.0@, before.1@), (after.0@, after.1@));
        if before.0@ == after.0@ && before.1@ == after.1@ {
            lemma_diff_identical((before.0@, before.1@));
        }
    }
    entries
}

/// The line that reports one change: page, offset, the byte before and the
/// byte after.
pub open spec fn spec_describe(entry: DiffEntry) -> Seq<char> {
    spec_decimal(entry.page as nat) + " : "@ + spec_decimal(entry.offset as nat)
        + " CHANGED FROM "@ + spec_decimal(entry.old_value as nat) + " TO "@ + spec_decimal(
        entry.new_value as nat,
    )
}

impl DiffEntry {
    /// Words the change as one line of a report.
    pub fn describe(&self) -> (line: String)
        ensures
            line@ == spec_describe(*self),
    {
        let mut line = decimal(self.page);
        line.append(" : ");
        let offset = decimal(self.offset);
        line.append(offset.as_str());
        line.append(" CHANGED FROM ");
        let old_value = decimal(self.old_value);
        line.append(old_value.as_str());
        line.append(" TO ");
        let new_value = decimal(self.new_value);
        line.append(new_value.as_str());
        line
    }
}

/// Compares two snapshots and words every change as one line, in the order
/// of the comparison.
pub fn compare_monitor_output(
    bufbefore: &([u8; 36], [u8; 36]),
    bufafter: &([u8; 36], [u8; 36]),
) -> (lines: Vec<String>)
    ensures
        lines@.len() == spec_diff((bufbefore.0@, bufbefore.1@), (bufafter.0@, bufafter.1@)).len(),
        forall|k: int|
            0 <= k < lines@.len() ==> (#[trigger] lines@[k])@ == spec_describe(
                spec_diff((bufbefore.0@, bufbefore.1@), (bufafter.0@, bufafter.1@))[k],
            ),
{
    let entries = diff(bufbefore, bufafter);
    let mut lines: Vec<String> = Vec::new();
    let mut k: usize = 0;
    while k < entries.len()
        invariant
            k <= entries@.len(),
            lines@.len() == k,
            forall|j: int| 0 <= j < k ==> (#[trigger] lines@[j])@ == spec_describe(entries@[j]),
        decreases entries@.len() - k,
    {
        lines.push(entries[k].describe());
        k = k + 1;
    }
    lines
}

} // verus!
