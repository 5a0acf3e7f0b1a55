//! Which of the devices on the bus is the monitor.

use vstd::prelude::*;

verus! {

/// Vendor identifier under which the monitor's USB hub reports itself.
pub const VID: u16 = 0x2109;

/// Product identifier under which the monitor's USB hub reports itself.
pub const PID: u16 = 0x8883;

/// Whether a device reported the wanted pair of identifiers. A device whose
/// descriptor could not be read reports nothing and never matches.
pub open spec fn is_wanted(reported: Option<(u16, u16)>, vid: u16, pid: u16) -> bool {
    reported == Some((vid, pid))
}

/// The test that keeps the positions at which a wanted device stands.
pub open spec fn wanted_at(devices: Seq<Option<(u16, u16)>>, vid: u16, pid: u16) -> spec_fn(
    usize,
) -> bool {
    |position: usize| is_wanted(devices[position as int], vid, pid)
}

/// The positions of `devices`, in order.
pub open spec fn positions(devices: Seq<Option<(u16, u16)>>) -> Seq<usize> {
    Seq::new(devices.len(), |i: int| i as usize)
}

/// The positions at which a wanted device stands, in the order of the bus.
pub open spec fn spec_candidates(devices: Seq<Option<(u16, u16)>>, vid: u16, pid: u16) -> Seq<
    usize,
> {
    positions(devices).filter(wanted_at(devices, vid, pid))
}

/// Picks from the devices on the bus, each given by the vendor and product
/// identifier it reported, those to try to open: the positions of all that
/// reported `vid` and `pid`, in the order of the bus.
pub fn open_device(devices: &Vec<Option<(u16, u16)>>, vid: u16, pid: u16) -> (candidates: Vec<
    usize,
>)
    ensures
        candidates@ == spec_candidates(devices@, vid, pid),
{
    let ghost all = positions(devices@);
    let ghost pred = wanted_at(devices@, vid, pid);
    let mut candidates: Vec<usize> = Vec::new();
    let mut position: usize = 0;
    proof {
        reveal(Seq::filter);
        assert(all.take(0).filter(pred) =~= Seq::<usize>::empty());
    }
    while position < devices.len()
        invariant
            position <= devices@.len(),
            all == positions(devices@),
            pred == wanted_at(devices@, vid, pid),
            candidates@ == all.take(position as int).filter(pred),
        decreases devices@.len() - position,
    {
        proof {
            reveal(Seq::filter);
            let next = all.take(position + 1);
            assert(next.drop_last() =~= all.take(position as int));
            assert(next.last() == position);
        }
        let wanted = match devices[position] {
            Some((vendor, product)) => vendor == vid && product == pid,
            None => false,
        };
        if wanted {
            candidates.push(position);
        }
        position = position + 1;
    }
    proof {
        assert(all.take(devices@.len() as int) =~= all);
    }
    candidates
}

/// The candidates are exactly the positions of the wanted devices, each
/// once, in ascending order.
pub proof fn lemma_candidates_exact(devices: Seq<Option<(u16, u16)>>, vid: u16, pid: u16)
    requires
        devices.len() <= usize::MAX,
    ensures
        forall|k: int|
            0 <= k < spec_candidates(devices, vid, pid).len() ==> {
                let position = #[trigger] spec_candidates(devices, vid, pid)[k];
                position < devices.len() && is_wanted(devices[position as int], vid, pid)
            },
        forall|i: int|
            0 <= i < devices.len() && is_wanted(#[trigger] devices[i], vid, pid)
                ==> spec_candidates(devices, vid, pid).contains(i as usize),
        forall|j: int, k: int|
            0 <= j < k < spec_candidates(devices, vid, pid).len() ==> #[trigger] spec_candidates(
                devices,
                vid,
                pid,
            )[j] < #[trigger] spec_candidates(devices, vid, pid)[k],
{
    let all = positions(devices);
    let pred = wanted_at(devices, vid, pid);
    let found = all.filter(pred);
    assert forall|k: int| 0 <= k < found.len() implies {
        let position = #[trigger] found[k];
        position < devices.len() && is_wanted(devices[position as int], vid, pid)
    } by {
        all.lemma_filter_pred(pred, k);
        all.lemma_filter_contains_rev(pred, found[k]);
        let i = choose|i: int| 0 <= i < all.len() && all[i] == found[k];
        assert(all[i] == i);
    }
    assert forall|i: int|
        0 <= i < devices.len() && is_wanted(#[trigger] devices[i], vid, pid) implies found.contains(
        i as usize,
    ) by {
        assert(all[i] == i as usize);
        assert(pred(all[i]));
        all.lemma_filter_contains(pred, i);
    }
    lemma_candidates_ascend(devices, vid, pid, devices.len() as int);
    assert(all.take(devices.len() as int) =~= all);
}

/// The candidates among the first `upto` devices come in strictly ascending
/// order and are all below `upto`.
proof fn lemma_candidates_ascend(devices: Seq<Option<(u16, u16)>>, vid: u16, pid: u16, upto: int)
    requires
        0 <= upto <= devices.len() <= usize::MAX,
    ensures
        ({
            let part = positions(devices).take(upto).filter(wanted_at(devices, vid, pid));
            &&& forall|k: int| 0 <= k < part.len() ==> #[trigger] part[k] < upto
            &&& forall|j: int, k: int|
                0 <= j < k < part.len() ==> #[trigger] part[j] < #[trigger] part[k]
        }),
    decreases upto,
{
    let all = positions(devices);
    let pred = wanted_at(devices, vid, pid);
    reveal(Seq::filter);
    if upto > 0 {
        lemma_candidates_ascend(devices, vid, pid, upto - 1);
        let shorter = all.take(upto - 1).filter(pred);
        let part = all.take(upto).filter(pred);
        assert(all.take(upto).drop_last() =~= all.take(upto - 1));
        assert(all.take(upto).last() == all[upto - 1]);
        assert(all[upto - 1] == upto - 1);
        assert(part == if pred(all[upto - 1]) {
            shorter.push(all[upto - 1])
        } else {
            shorter
        });
    } else {
        assert(all.take(0).len() == 0);
    }
}

} // verus!
