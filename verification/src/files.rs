use vstd::prelude::*;

verus! {

/// One entry of a folder, as the peer lists it.
#[derive(Debug)]
pub struct FileEntry {
    /// The kind of the entry, as a number.
    pub entry_type: i32,
    pub name: String,
    pub size: u64,
    pub modified_time: u64,
}

/// What the UI is told of one entry of a folder.
#[derive(Debug, PartialEq, Eq)]
pub struct FdEntry {
    pub name: String,
    /// The kind of the entry; 1 where the peer gave 0.
    pub entry_type: i32,
    pub time: u64,
    pub size: u64,
}

/// What the UI is told of a folder.
#[derive(Debug)]
pub struct FdFlutter {
    pub id: i32,
    /// The entries, unless only their count was asked for.
    pub entries: Option<Vec<FdEntry>>,
    /// The number of the entries, where only their count was asked for.
    pub num_entries: Option<i32>,
    /// The sum of the sizes of the entries.
    pub total_size: u64,
}

/// The sum of the sizes of `entries`, as a 64-bit counter adds them up.
pub open spec fn total_size(entries: Seq<FileEntry>) -> u64
    decreases entries.len(),
{
    if entries.len() == 0 {
        0
    } else {
        ((total_size(entries.drop_last()) + entries.last().size) % 0x1_0000_0000_0000_0000) as u64
    }
}

/// The kind of an entry as the UI is told it: 1 in the place of 0.
pub open spec fn told_type(entry_type: i32) -> i32 {
    if entry_type == 0 {
        1
    } else {
        entry_type
    }
}

/// Whether `told` is what the UI is told of `entry`.
pub open spec fn tells(told: FdEntry, entry: FileEntry) -> bool {
    &&& told.name@ == entry.name@
    &&& told.entry_type == told_type(entry.entry_type)
    &&& told.time == entry.modified_time
    &&& told.size == entry.size
}

/// What the UI is told of the folder of the job `id`: the sum of the sizes of its
/// entries and, where `only_count` is set, their number, else the entries themselves.
pub fn make_fd_flutter(id: i32, entries: &Vec<FileEntry>, only_count: bool) -> (fd: FdFlutter)
    ensures
        fd.id == id,
        fd.total_size == total_size(entries@),
        only_count ==> fd.entries is None && fd.num_entries == Some(entries@.len() as i32),
        !only_count ==> fd.num_entries is None && fd.entries is Some && fd.entries->0@.len()
            == entries@.len() && forall|i: int|
            0 <= i < entries@.len() ==> tells(#[trigger] fd.entries->0@[i], entries@[i]),
{
    let mut a: Vec<FdEntry> = Vec::new();
    let mut n: u64 = 0;
    let mut i: usize = 0;
    proof {
        assert(entries@.take(0) =~= Seq::empty());
    }
    while i < entries.len()
        invariant
            i <= entries.len(),
            n == total_size(entries@.take(i as int)),
            only_count ==> a@.len() == 0,
            !only_count ==> a@.len() == i,
            !only_count ==> forall|j: int| 0 <= j < i ==> tells(#[trigger] a@[j], entries@[j]),
        decreases entries.len() - i,
    {
        proof {
            assert(entries@.take(i + 1).drop_last() =~= entries@.take(i as int));
            assert(entries@.take(i + 1).last() == entries@[i as int]);
        }
        let entry = &entries[i];
        n = n.wrapping_add(entry.size);
        if !only_count {
            let tmp = entry.entry_type;
            a.push(
                FdEntry {
                    name: entry.name.clone(),
                    entry_type: if tmp == 0 {
                        1
                    } else {
                        tmp
                    },
                    time: entry.modified_time,
                    size: entry.size,
                },
            );
        }
        i += 1;
    }
    proof {
        crate::seq_util::lemma_take_all(entries@);
    }
    if only_count {
        FdFlutter {
            id,
            entries: None,
            num_entries: Some(#[verifier::truncate] (entries.len() as i32)),
            total_size: n,
        }
    } else {
        FdFlutter { id, entries: Some(a), num_entries: None, total_size: n }
    }
}

} // verus!
