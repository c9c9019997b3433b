//! The device registry: one entry of metadata per device identifier.

use vstd::prelude::*;
use crate::device::{DeviceId, DeviceInfo, DeviceInfoView};

verus! {

/// The metadata of a list of devices, entry by entry.
pub open spec fn views(devices: Seq<DeviceInfo>) -> Seq<DeviceInfoView> {
    Seq::new(devices.len(), |i: int| devices[i]@)
}

/// The identifiers of a list of entries, in order.
pub open spec fn ids_of(entries: Seq<DeviceInfoView>) -> Seq<Seq<char>> {
    Seq::new(entries.len(), |i: int| entries[i].id)
}

/// The table that results from entering a list of devices one after the
/// other into an empty registry: a later entry replaces an earlier one with
/// the same identifier.
pub open spec fn table_of(entries: Seq<DeviceInfoView>) -> Map<Seq<char>, DeviceInfoView>
    decreases entries.len(),
{
    if entries.len() == 0 {
        Map::empty()
    } else {
        table_of(entries.drop_last()).insert(entries.last().id, entries.last())
    }
}

/// The table of a list holds exactly the identifiers of the list.
pub proof fn lemma_table_domain(entries: Seq<DeviceInfoView>)
    ensures
        table_of(entries).dom() =~= ids_of(entries).to_set(),
        table_of(entries).dom().finite(),
    decreases entries.len(),
{
    if entries.len() > 0 {
        lemma_table_domain(entries.drop_last());
        let earlier = ids_of(entries.drop_last());
        let all = ids_of(entries);
        assert(all.drop_last() =~= earlier);
        assert forall|id: Seq<char>| all.to_set().contains(id) <==> (earlier.to_set().contains(id)
            || id == entries.last().id) by {
            if all.contains(id) {
                let i = choose|i: int| 0 <= i < all.len() && all[i] == id;
                if i < all.len() - 1 {
                    assert(earlier[i] == id);
                }
            }
            if earlier.contains(id) {
                let i = choose|i: int| 0 <= i < earlier.len() && earlier[i] == id;
                assert(all[i] == id);
            }
            if id == entries.last().id {
                assert(all[all.len() - 1] == id);
            }
        }
    }
}

/// In a list without repeated identifiers, each entry is what the table
/// holds under its identifier.
pub proof fn lemma_table_lookup(entries: Seq<DeviceInfoView>, i: int)
    requires
        ids_of(entries).no_duplicates(),
        0 <= i < entries.len(),
    ensures
        table_of(entries).contains_key(entries[i].id),
        table_of(entries)[entries[i].id] == entries[i],
    decreases entries.len(),
{
    let last = entries.len() - 1;
    if i < last {
        assert(ids_of(entries)[i] != ids_of(entries)[last]);
        assert(ids_of(entries.drop_last()) =~= ids_of(entries).drop_last());
        lemma_table_lookup(entries.drop_last(), i);
    }
}

/// Replacing an entry by one with the same identifier enters that one.
proof fn lemma_table_update(entries: Seq<DeviceInfoView>, i: int, entry: DeviceInfoView)
    requires
        ids_of(entries).no_duplicates(),
        0 <= i < entries.len(),
        entries[i].id == entry.id,
    ensures
        table_of(entries.update(i, entry)) =~= table_of(entries).insert(entry.id, entry),
        ids_of(entries.update(i, entry)) =~= ids_of(entries),
    decreases entries.len(),
{
    let last = entries.len() - 1;
    let updated = entries.update(i, entry);
    if i < last {
        assert(ids_of(entries)[i] != ids_of(entries)[last]);
        assert(ids_of(entries.drop_last()) =~= ids_of(entries).drop_last());
        lemma_table_update(entries.drop_last(), i, entry);
        assert(updated.drop_last() =~= entries.drop_last().update(i, entry));
        assert(updated.last() == entries.last());
    } else {
        assert(updated.drop_last() =~= entries.drop_last());
    }
}

/// Taking an entry out of a list without repeated identifiers takes its
/// identifier out of the table.
proof fn lemma_table_remove(entries: Seq<DeviceInfoView>, i: int)
    requires
        ids_of(entries).no_duplicates(),
        0 <= i < entries.len(),
    ensures
        table_of(entries.remove(i)) =~= table_of(entries).remove(entries[i].id),
        ids_of(entries.remove(i)) =~= ids_of(entries).remove(i),
        ids_of(entries.remove(i)).no_duplicates(),
    decreases entries.len(),
{
    let last = entries.len() - 1;
    let ids = ids_of(entries);
    assert(ids_of(entries.remove(i)) =~= ids.remove(i));
    assert(ids.remove(i).no_duplicates()) by {
        assert forall|a: int, b: int|
            0 <= a < ids.remove(i).len() && 0 <= b < ids.remove(i).len() && a != b implies ids.remove(
            i,
        )[a] != ids.remove(i)[b] by {
            let a0 = if a < i { a } else { a + 1 };
            let b0 = if b < i { b } else { b + 1 };
            assert(ids[a0] != ids[b0]);
        }
    }
    assert(ids_of(entries.drop_last()) =~= ids.drop_last());
    if i < last {
        assert(ids[i] != ids[last]);
        lemma_table_remove(entries.drop_last(), i);
        assert(entries.remove(i).drop_last() =~= entries.drop_last().remove(i));
        assert(entries.remove(i).last() == entries.last());
    } else {
        assert(entries.remove(i) =~= entries.drop_last());
        lemma_table_domain(entries.drop_last());
        assert(!table_of(entries.drop_last()).contains_key(entries[i].id)) by {
            if ids.drop_last().contains(entries[i].id) {
                let j = choose|j: int| 0 <= j < ids.drop_last().len() && ids.drop_last()[j] == entries[i].id;
                assert(ids[j] == ids[last]);
            }
        }
    }
}

/// The registry of known devices, keyed by device identifier.
///
/// The registry is a finite map from identifier to metadata; entering a
/// device under an identifier that is already present replaces the metadata.
pub struct DeviceRegistry {
    entries: Vec<DeviceInfo>,
}

impl View for DeviceRegistry {
    type V = Map<Seq<char>, DeviceInfoView>;

    closed spec fn view(&self) -> Map<Seq<char>, DeviceInfoView> {
        table_of(views(self.entries@))
    }
}

impl DeviceRegistry {
    #[verifier::type_invariant]
    spec fn well_formed(&self) -> bool {
        ids_of(views(self.entries@)).no_duplicates()
    }

    /// An empty registry.
    pub fn new() -> (registry: DeviceRegistry)
        ensures
            registry@ == Map::<Seq<char>, DeviceInfoView>::empty(),
    {
        let registry = DeviceRegistry { entries: Vec::new() };
        assert(views(registry.entries@) =~= Seq::empty());
        registry
    }

    /// Where the entry of an identifier stands, if there is one.
    fn position(&self, id: &DeviceId) -> (found: Option<usize>)
        ensures
            match found {
                Some(i) => i < self.entries.len() && self.entries@[i as int]@.id == id@,
                None => forall|j: int| 0 <= j < self.entries.len() ==> self.entries@[j]@.id != id@,
            },
    {
        let mut i: usize = 0;
        while i < self.entries.len()
            invariant
                i <= self.entries.len(),
                forall|j: int| 0 <= j < i ==> self.entries@[j]@.id != id@,
            decreases self.entries.len() - i,
        {
            if self.entries[i].id.same_as(id) {
                return Some(i);
            }
            i = i + 1;
        }
        None
    }

    /// Enters a device: its metadata replaces what the registry held under
    /// the same identifier, if anything.
    pub fn insert(&mut self, device: DeviceInfo)
        ensures
            final(self)@ == old(self)@.insert(device@.id, device@),
    {
        proof {
            use_type_invariant(&*self);
        }
        let ghost before = views(self.entries@);
        let found = self.position(&device.id);
        // The list is edited outside the registry and put back when it is whole again.
        let mut entries: Vec<DeviceInfo> = Vec::new();
        assert(views(entries@) =~= Seq::empty());
        std::mem::swap(&mut self.entries, &mut entries);
        match found {
            Some(i) => {
                proof {
                    lemma_table_update(before, i as int, device@);
                }
                entries.set(i, device);
                assert(views(entries@) =~= before.update(i as int, device@));
            },
            None => {
                entries.push(device);
                proof {
                    let after = views(entries@);
                    assert(after =~= before.push(device@));
                    assert(after.drop_last() =~= before);
                    assert(ids_of(after) =~= ids_of(before).push(device@.id));
                    assert(ids_of(after).no_duplicates()) by {
                        assert forall|a: int, b: int|
                            0 <= a < ids_of(after).len() && 0 <= b < ids_of(after).len() && a
                                != b implies ids_of(after)[a] != ids_of(after)[b] by {
                            if a < before.len() && b < before.len() {
                                assert(ids_of(before)[a] != ids_of(before)[b]);
                            } else if a < before.len() {
                                assert(before[a].id != device@.id);
                            } else {
                                assert(before[b].id != device@.id);
                            }
                        }
                    }
                }
            },
        }
        std::mem::swap(&mut self.entries, &mut entries);
    }

    /// Takes the entry of an identifier out; says whether there was one.
    pub fn remove(&mut self, id: &DeviceId) -> (removed: bool)
        ensures
            final(self)@ == old(self)@.remove(id@),
            removed == old(self)@.contains_key(id@),
    {
        proof {
            use_type_invariant(&*self);
        }
        let ghost before = views(self.entries@);
        proof {
            lemma_table_domain(before);
        }
        match self.position(id) {
            Some(i) => {
                proof {
                    lemma_table_remove(before, i as int);
                    lemma_table_lookup(before, i as int);
                }
                let mut entries: Vec<DeviceInfo> = Vec::new();
                assert(views(entries@) =~= Seq::empty());
                std::mem::swap(&mut self.entries, &mut entries);
                entries.remove(i);
                assert(views(entries@) =~= before.remove(i as int));
                std::mem::swap(&mut self.entries, &mut entries);
                true
            },
            None => {
                proof {
                    if ids_of(before).contains(id@) {
                        let j = choose|j: int| 0 <= j < ids_of(before).len() && ids_of(before)[j] == id@;
                        assert(self.entries@[j]@.id == id@);
                    }
                    assert(table_of(before).remove(id@) =~= table_of(before));
                }
                false
            },
        }
    }

    /// The metadata held under an identifier, if any.
    pub fn get(&self, id: &DeviceId) -> (found: Option<&DeviceInfo>)
        ensures
            match found {
                Some(device) => self@.contains_key(id@) && self@[id@] == device@,
                None => !self@.contains_key(id@),
            },
    {
        proof {
            use_type_invariant(self);
            lemma_table_domain(views(self.entries@));
        }
        match self.position(id) {
            Some(i) => {
                proof {
                    lemma_table_lookup(views(self.entries@), i as int);
                }
                Some(&self.entries[i])
            },
            None => {
                proof {
                    let ids = ids_of(views(self.entries@));
                    if ids.contains(id@) {
                        let j = choose|j: int| 0 <= j < ids.len() && ids[j] == id@;
                        assert(self.entries@[j]@.id == id@);
                    }
                }
                None
            },
        }
    }

    /// Whether the registry holds an entry under the identifier.
    pub fn contains(&self, id: &DeviceId) -> (present: bool)
        ensures
            present == self@.contains_key(id@),
    {
        self.get(id).is_some()
    }

    /// The number of entries.
    pub fn len(&self) -> (count: usize)
        ensures
            self@.dom().finite(),
            count == self@.len(),
    {
        proof {
            use_type_invariant(self);
            lemma_table_domain(views(self.entries@));
            ids_of(views(self.entries@)).unique_seq_to_set();
        }
        self.entries.len()
    }

    /// Whether the registry holds no entry.
    pub fn is_empty(&self) -> (empty: bool)
        ensures
            empty == (self@.len() == 0),
            self@.dom().finite(),
    {
        self.len() == 0
    }

    /// A snapshot of all entries: every entry of the registry once, each
    /// under its own identifier.
    pub fn devices(&self) -> (snapshot: Vec<DeviceInfo>)
        ensures
            self@.dom().finite(),
            snapshot.len() == self@.len(),
            forall|i: int| 0 <= i < snapshot.len() ==> self@.contains_pair(#[trigger] snapshot@[i]@.id, snapshot@[i]@),
            forall|i: int, j: int|
                0 <= i < snapshot.len() && 0 <= j < snapshot.len() && i != j ==> snapshot@[i]@.id
                    != snapshot@[j]@.id,
            table_of(views(snapshot@)) == self@,
    {
        proof {
            use_type_invariant(self);
            lemma_table_domain(views(self.entries@));
            ids_of(views(self.entries@)).unique_seq_to_set();
        }
        let mut snapshot: Vec<DeviceInfo> = Vec::new();
        let mut i: usize = 0;
        while i < self.entries.len()
            invariant
                i <= self.entries.len(),
                views(snapshot@) == views(self.entries@).subrange(0, i as int),
            decreases self.entries.len() - i,
        {
            let copy = self.entries[i].duplicate();
            let ghost earlier = views(snapshot@);
            snapshot.push(copy);
            assert(views(snapshot@) =~= earlier.push(self.entries@[i as int]@));
            i = i + 1;
            assert(views(snapshot@) =~= views(self.entries@).subrange(0, i as int));
        }
        proof {
            let all = views(self.entries@);
            assert(all.subrange(0, i as int) =~= all);
            assert(snapshot.len() == views(snapshot@).len());
            assert forall|k: int| 0 <= k < snapshot.len() implies self@.contains_pair(
                #[trigger] snapshot@[k]@.id,
                snapshot@[k]@,
            ) by {
                lemma_table_lookup(all, k);
                assert(views(snapshot@)[k] == all[k]);
            }
            assert forall|a: int, b: int|
                0 <= a < snapshot.len() && 0 <= b < snapshot.len() && a != b implies snapshot@[a]@.id
                != snapshot@[b]@.id by {
                assert(views(snapshot@)[a] == all[a]);
                assert(views(snapshot@)[b] == all[b]);
                assert(ids_of(all)[a] != ids_of(all)[b]);
            }
        }
        snapshot
    }

    /// The registry that results from entering the given devices in order
    /// into an empty registry, as when a saved list is read at start: a
    /// later device replaces an earlier one with the same identifier.
    pub fn load(devices: &Vec<DeviceInfo>) -> (registry: DeviceRegistry)
        ensures
            registry@ == table_of(views(devices@)),
    {
        let mut registry = DeviceRegistry::new();
        let mut i: usize = 0;
        while i < devices.len()
            invariant
                i <= devices.len(),
                registry@ == table_of(views(devices@).subrange(0, i as int)),
            decreases devices.len() - i,
        {
            proof {
                let upto = views(devices@).subrange(0, i + 1);
                assert(upto.drop_last() =~= views(devices@).subrange(0, i as int));
                assert(upto.last() == devices@[i as int]@);
            }
            registry.insert(devices[i].duplicate());
            i = i + 1;
        }
        assert(views(devices@).subrange(0, i as int) =~= views(devices@));
        registry
    }
}

} // verus!
