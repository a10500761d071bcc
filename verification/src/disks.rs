//! Sorting the partitions of a machine by the disk they lie on.

use crate::modules::views;
use crate::text::str_eq;
use vstd::prelude::*;

verus! {

/// The disks that a list of partitions lies on, and for each partition its disk.
#[derive(Debug, PartialEq, Eq)]
pub struct DiskPlan {
    /// The devices, each once, in the order in which the partitions name them first.
    pub names: Vec<String>,
    /// For each partition, the place of its device among `names`.
    pub ids: Vec<usize>,
}

/// The devices that a list of partitions names, each once, in the order in which they
/// are named first.
pub open spec fn spec_disk_names(devices: Seq<Seq<char>>) -> Seq<Seq<char>>
    decreases devices.len(),
{
    if devices.len() == 0 {
        Seq::empty()
    } else {
        let before = spec_disk_names(devices.drop_last());
        if before.contains(devices.last()) {
            before
        } else {
            before.push(devices.last())
        }
    }
}

/// The disk names hold each device that the partitions name, and no other, and none
/// of them twice.
pub proof fn lemma_disk_names(devices: Seq<Seq<char>>)
    ensures
        spec_disk_names(devices).no_duplicates(),
        forall|name: Seq<char>|
            spec_disk_names(devices).contains(name) <==> devices.contains(name),
    decreases devices.len(),
{
    if devices.len() > 0 {
        let head = devices.drop_last();
        let last = devices.last();
        let before = spec_disk_names(head);
        lemma_disk_names(head);
        assert forall|name: Seq<char>|
            spec_disk_names(devices).contains(name) <==> devices.contains(name) by {
            if devices.contains(name) {
                let i = choose|i: int| 0 <= i < devices.len() && devices[i] == name;
                if i < head.len() {
                    assert(head[i] == name);
                }
            }
            if head.contains(name) {
                let i = choose|i: int| 0 <= i < head.len() && head[i] == name;
                assert(devices[i] == name);
            }
            if name == last {
                assert(devices[devices.len() - 1] == name);
            }
            if !before.contains(last) {
                if before.contains(name) {
                    let i = choose|i: int| 0 <= i < before.len() && before[i] == name;
                    assert(before.push(last)[i] == name);
                }
                assert(before.push(last)[before.len() as int] == last);
                if before.push(last).contains(name) {
                    let i = choose|i: int|
                        0 <= i < before.push(last).len() && before.push(last)[i] == name;
                    if i < before.len() {
                        assert(before[i] == name);
                    }
                }
            }
        }
    }
}

/// Sorts partitions by disk. `devices` holds, for each partition, the device it lies
/// on. The result lists the devices, each once and in the order in which they come
/// up, and gives for each partition the place of its device in that list: a partition
/// goes to the disk of its device where there is one already, and opens a new disk
/// where there is none.
pub fn disk_plan(devices: &Vec<String>) -> (r: DiskPlan)
    ensures
        views(r.names@) == spec_disk_names(views(devices@)),
        r.ids@.len() == devices@.len(),
        forall|i: int|
            0 <= i < devices@.len() ==> (#[trigger] r.ids@[i]) < r.names@.len() && r.names@[r.ids@[i] as int]@
                == devices@[i]@,
{
    let mut names: Vec<String> = Vec::new();
    let mut ids: Vec<usize> = Vec::new();
    let ghost all = views(devices@);
    let mut i: usize = 0;
    proof {
        assert(all.take(0) =~= Seq::<Seq<char>>::empty());
        assert(views(names@) =~= Seq::<Seq<char>>::empty());
    }
    while i < devices.len()
        invariant
            i <= devices.len(),
            all == views(devices@),
            views(names@) == spec_disk_names(all.take(i as int)),
            ids@.len() == i,
            forall|k: int|
                0 <= k < i ==> (#[trigger] ids@[k]) < names@.len() && names@[ids@[k] as int]@
                    == devices@[k]@,
        decreases devices.len() - i,
    {
        let device = devices[i].as_str();
        let ghost before = views(names@);
        proof {
            assert(all.take(i + 1).drop_last() =~= all.take(i as int));
            assert(all.take(i + 1).last() == device@);
        }
        let mut found: usize = 0;
        while found < names.len() && !str_eq(names[found].as_str(), device)
            invariant
                found <= names.len(),
                forall|k: int| 0 <= k < found ==> names@[k]@ != device@,
            decreases names.len() - found,
        {
            found = found + 1;
        }
        if found == names.len() {
            proof {
                if before.contains(device@) {
                    let k = choose|k: int| 0 <= k < before.len() && before[k] == device@;
                    assert(names@[k]@ == device@);
                }
            }
            names.push(device.to_owned());
            assert(views(names@) =~= before.push(device@));
        } else {
            assert(before[found as int] == device@);
        }
        ids.push(found);
        i = i + 1;
    }
    proof {
        assert(all.take(all.len() as int) =~= all);
    }
    DiskPlan { names, ids }
}

} // verus!
