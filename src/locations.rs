//! The table of registered locations: for each beacon address its place type
//! (for interaction routing) and its resolved track (for selection).
//! Both views share one key set by construction.

use vstd::prelude::*;
use crate::assets::{get_sound_file_from_place_type_and_points, sound_file_for};
use crate::text::str_eq;

verus! {

/// One `{address, place_type}` pair of a location update from the server.
pub struct LocationAssignment {
    pub address: String,
    pub place_type: String,
}

/// A registered location with its resolved track.
pub struct LocationEntry {
    pub address: String,
    pub place_type: String,
    pub sound_file: String,
}

/// Registered locations, at most one entry per address.
pub struct LocationTable {
    pub entries: Vec<LocationEntry>,
}

/// What a location update says: each listed address with the place type of
/// its last occurrence in the list.
pub open spec fn assignment_map(locs: Seq<LocationAssignment>) -> Map<Seq<char>, Seq<char>>
    decreases locs.len(),
{
    if locs.len() == 0 {
        Map::empty()
    } else {
        assignment_map(locs.drop_last()).insert(locs.last().address@, locs.last().place_type@)
    }
}

/// The track of every location under a place-type map, at the given points.
pub open spec fn sound_map_for(place_types: Map<Seq<char>, Seq<char>>, points: int) -> Map<Seq<char>, Seq<char>> {
    Map::new(|a: Seq<char>| place_types.contains_key(a), |a: Seq<char>| sound_file_for(place_types[a], points))
}

impl LocationTable {
    pub open spec fn has(&self, a: Seq<char>) -> bool {
        exists|i: int| 0 <= i < self.entries@.len() && #[trigger] self.entries@[i].address@ == a
    }

    pub open spec fn index_spec(&self, a: Seq<char>) -> int {
        choose|i: int| 0 <= i < self.entries@.len() && #[trigger] self.entries@[i].address@ == a
    }

    /// Address to place type.
    pub open spec fn place_types(&self) -> Map<Seq<char>, Seq<char>> {
        Map::new(|a: Seq<char>| self.has(a), |a: Seq<char>| self.entries@[self.index_spec(a)].place_type@)
    }

    /// Address to track.
    pub open spec fn sound_map(&self) -> Map<Seq<char>, Seq<char>> {
        Map::new(|a: Seq<char>| self.has(a), |a: Seq<char>| self.entries@[self.index_spec(a)].sound_file@)
    }

    pub open spec fn distinct(&self) -> bool {
        forall|i: int, j: int|
            0 <= i < self.entries@.len() && 0 <= j < self.entries@.len() && i != j
                ==> #[trigger] self.entries@[i].address@ != #[trigger] self.entries@[j].address@
    }

    /// Addresses are unique and every track is resolved at `points`.
    pub open spec fn wf(&self, points: int) -> bool {
        &&& self.distinct()
        &&& forall|i: int| 0 <= i < self.entries@.len() ==>
                #[trigger] self.entries@[i].sound_file@ == sound_file_for(self.entries@[i].place_type@, points)
    }

    pub proof fn lemma_at(&self, i: int)
        requires
            self.distinct(),
            0 <= i < self.entries@.len(),
        ensures
            self.place_types().contains_key(self.entries@[i].address@),
            self.place_types()[self.entries@[i].address@] == self.entries@[i].place_type@,
            self.sound_map().contains_key(self.entries@[i].address@),
            self.sound_map()[self.entries@[i].address@] == self.entries@[i].sound_file@,
            self.index_spec(self.entries@[i].address@) == i,
    {
        let a = self.entries@[i].address@;
        assert(self.has(a));
        let j = self.index_spec(a);
        assert(0 <= j < self.entries@.len() && self.entries@[j].address@ == a);
    }

    /// Under `wf`, the tracks are those of the place types at `points`.
    pub proof fn lemma_sound_map(&self, points: int)
        requires
            self.wf(points),
        ensures
            self.sound_map() == sound_map_for(self.place_types(), points),
            self.sound_map().dom() == self.place_types().dom(),
    {
        assert forall|a: Seq<char>| #[trigger] self.sound_map().contains_key(a) implies
            self.sound_map()[a] == sound_file_for(self.place_types()[a], points) by {
            let i = self.index_spec(a);
            self.lemma_at(i);
        }
        assert(self.sound_map() =~= sound_map_for(self.place_types(), points));
        assert(self.sound_map().dom() =~= self.place_types().dom());
    }

    pub fn new() -> (t: LocationTable)
        ensures
            forall|points: int| t.wf(points),
            t.place_types() == Map::<Seq<char>, Seq<char>>::empty(),
    {
        let t = LocationTable { entries: Vec::new() };
        assert(t.place_types() =~= Map::<Seq<char>, Seq<char>>::empty());
        t
    }

    pub fn len(&self) -> (r: usize)
        ensures
            r == self.entries@.len(),
    {
        self.entries.len()
    }

    /// Position of an address in the table.
    pub fn find(&self, address: &str) -> (r: Option<usize>)
        ensures
            match r {
                Some(i) => i < self.entries@.len() && self.entries@[i as int].address@ == address@,
                None => !self.has(address@),
            },
    {
        let mut i: usize = 0;
        while i < self.entries.len()
            invariant
                i <= self.entries@.len(),
                forall|j: int| 0 <= j < i ==> self.entries@[j].address@ != address@,
            decreases self.entries@.len() - i,
        {
            if str_eq(self.entries[i].address.as_str(), address) {
                return Some(i);
            }
            i = i + 1;
        }
        None
    }

    /// Whether an address is registered.
    pub fn contains_address(&self, address: &str) -> (r: bool)
        ensures
            r == self.sound_map().contains_key(address@),
            r == self.place_types().contains_key(address@),
    {
        self.find(address).is_some()
    }

    /// Place type of a registered address.
    pub fn place_type_of(&self, address: &str) -> (r: Option<&String>)
        requires
            self.distinct(),
        ensures
            match r {
                Some(p) => self.place_types().contains_key(address@) && p@ == self.place_types()[address@],
                None => !self.place_types().contains_key(address@),
            },
    {
        match self.find(address) {
            Some(i) => {
                proof { self.lemma_at(i as int); }
                Some(&self.entries[i].place_type)
            }
            None => None,
        }
    }

    /// Track of a registered address.
    pub fn sound_of(&self, address: &str) -> (r: Option<&String>)
        requires
            self.distinct(),
        ensures
            match r {
                Some(s) => self.sound_map().contains_key(address@) && s@ == self.sound_map()[address@],
                None => !self.sound_map().contains_key(address@),
            },
    {
        match self.find(address) {
            Some(i) => {
                proof { self.lemma_at(i as int); }
                Some(&self.entries[i].sound_file)
            }
            None => None,
        }
    }

    /// Inserts or replaces the entry of `address`.
    pub fn upsert(&mut self, address: &String, place_type: &String, points: i32)
        requires
            old(self).wf(points as int),
        ensures
            final(self).wf(points as int),
            final(self).place_types() == old(self).place_types().insert(address@, place_type@),
    {
        let ghost pre = *self;
        let sound = get_sound_file_from_place_type_and_points(place_type.as_str(), points);
        let entry = LocationEntry { address: address.clone(), place_type: place_type.clone(), sound_file: sound };
        match self.find(address.as_str()) {
            Some(i) => {
                self.entries.set(i, entry);
                assert(self.entries@[i as int].address@ == address@);
                assert(self.entries@[i as int].place_type@ == place_type@);
                assert forall|a: Seq<char>| self.has(a) <==> (pre.has(a) || a == address@) by {
                    if pre.has(a) {
                        let j = pre.index_spec(a);
                        assert(self.entries@[j].address@ == a);
                    }
                    if self.has(a) {
                        let j = self.index_spec(a);
                        assert(pre.entries@[j].address@ == a);
                    }
                }
            }
            None => {
                self.entries.push(entry);
                assert(self.entries@[pre.entries@.len() as int].address@ == address@);
                assert(self.entries@[pre.entries@.len() as int].place_type@ == place_type@);
                assert forall|a: Seq<char>| self.has(a) <==> (pre.has(a) || a == address@) by {
                    if pre.has(a) {
                        let j = pre.index_spec(a);
                        assert(self.entries@[j].address@ == a);
                    }
                    if self.has(a) && a != address@ {
                        let j = self.index_spec(a);
                        assert(pre.entries@[j].address@ == a);
                    }
                    if a == address@ {
                        assert(self.entries@[pre.entries@.len() as int].address@ == a);
                    }
                }
            }
        }
        assert forall|a: Seq<char>| #[trigger] self.place_types().contains_key(a) implies
            self.place_types()[a] == pre.place_types().insert(address@, place_type@)[a] by {
            let j = self.index_spec(a);
            self.lemma_at(j);
            if a != address@ {
                pre.lemma_at(j);
            } else {
                assert(self.entries@[j].place_type@ == place_type@);
            }
        }
        assert forall|a: Seq<char>| self.place_types().contains_key(a)
            <==> pre.place_types().insert(address@, place_type@).contains_key(a) by {
            assert(self.has(a) <==> (pre.has(a) || a == address@));
        }
        assert(self.place_types() =~= pre.place_types().insert(address@, place_type@));
    }

    /// The table that a location update describes, with tracks at `points`.
    pub fn from_update(locations: &Vec<LocationAssignment>, points: i32) -> (t: LocationTable)
        ensures
            t.wf(points as int),
            t.place_types() == assignment_map(locations@),
    {
        let mut t = LocationTable::new();
        let mut k: usize = 0;
        while k < locations.len()
            invariant
                k <= locations@.len(),
                t.wf(points as int),
                t.place_types() == assignment_map(locations@.subrange(0, k as int)),
            decreases locations@.len() - k,
        {
            t.upsert(&locations[k].address, &locations[k].place_type, points);
            assert(locations@.subrange(0, k + 1).drop_last() == locations@.subrange(0, k as int));
            k = k + 1;
        }
        assert(locations@.subrange(0, locations@.len() as int) == locations@);
        t
    }

    /// Re-resolves every track at new points, keeping addresses and place types.
    pub fn rebuild(&mut self, points: i32)
        requires
            old(self).distinct(),
        ensures
            final(self).wf(points as int),
            final(self).place_types() == old(self).place_types(),
    {
        let ghost pre = *self;
        let mut rebuilt: Vec<LocationEntry> = Vec::new();
        let mut i: usize = 0;
        while i < self.entries.len()
            invariant
                i <= self.entries@.len(),
                *self == pre,
                rebuilt@.len() == i,
                forall|j: int| 0 <= j < i ==> {
                    &&& #[trigger] rebuilt@[j].address@ == self.entries@[j].address@
                    &&& rebuilt@[j].place_type@ == self.entries@[j].place_type@
                    &&& rebuilt@[j].sound_file@ == sound_file_for(self.entries@[j].place_type@, points as int)
                },
            decreases self.entries@.len() - i,
        {
            let e = &self.entries[i];
            let sound = get_sound_file_from_place_type_and_points(e.place_type.as_str(), points);
            rebuilt.push(LocationEntry { address: e.address.clone(), place_type: e.place_type.clone(), sound_file: sound });
            i = i + 1;
        }
        self.entries = rebuilt;
        assert forall|j: int| 0 <= j < self.entries@.len() implies
            #[trigger] self.entries@[j].address@ == pre.entries@[j].address@
            && self.entries@[j].place_type@ == pre.entries@[j].place_type@
            && self.entries@[j].sound_file@ == sound_file_for(self.entries@[j].place_type@, points as int) by {
            assert(rebuilt@[j].address@ == pre.entries@[j].address@);
        }
        assert(self.distinct());
        assert forall|j: int| 0 <= j < self.entries@.len() implies
            #[trigger] self.entries@[j].sound_file@ == sound_file_for(self.entries@[j].place_type@, points as int) by {
            assert(rebuilt@[j].address@ == pre.entries@[j].address@);
        }
        assert forall|a: Seq<char>| self.has(a) <==> pre.has(a) by {
            if pre.has(a) {
                let j = pre.index_spec(a);
                assert(self.entries@[j].address@ == a);
            }
            if self.has(a) {
                let j = self.index_spec(a);
                assert(pre.entries@[j].address@ == a);
            }
        }
        assert forall|a: Seq<char>| #[trigger] self.place_types().contains_key(a) implies
            self.place_types()[a] == pre.place_types()[a] by {
            let j = self.index_spec(a);
            self.lemma_at(j);
            pre.lemma_at(j);
        }
        assert(self.place_types() =~= pre.place_types());
    }
}

} // verus!
