//! State that the server session owns: the registered locations, the node's
//! points and identity, and how each downlink event changes them.

use vstd::prelude::*;
use vstd::string::*;
use crate::events::{
    DeviceInfo, LocationRssi, MoonlightEntry, SePlayRequest, StreamDeviceInfoRequest,
    SystemEnabledState,
};
use crate::locations::{assignment_map, sound_map_for, LocationAssignment, LocationTable};
use crate::text::str_eq;

verus! {

/// Shared state of the session: the location table, the node's points, whether
/// a points value has been received yet, and the node's own identity.
pub struct SessionState {
    pub locations: LocationTable,
    pub points: i32,
    pub points_initialized: bool,
    pub my_address: Option<String>,
}

/// Whether an identity is the node's own.
pub open spec fn is_self(my_address: Option<String>, id: Seq<char>) -> bool {
    my_address.is_some() && my_address.unwrap()@ == id
}

/// Whether a moonlight entry names this node.
pub open spec fn names_node(m: MoonlightEntry, me: Seq<char>) -> bool {
    m.device@ == me || m.address@ == me
}

/// The observations of a batch whose address is registered, as address and rssi.
pub open spec fn uplink_pairs(batch: Seq<DeviceInfo>, registered: Set<Seq<char>>) -> Seq<(Seq<char>, int)>
    decreases batch.len(),
{
    if batch.len() == 0 {
        Seq::empty()
    } else {
        let rest = uplink_pairs(batch.drop_last(), registered);
        if registered.contains(batch.last().address@) {
            rest.push((batch.last().address@, batch.last().rssi as int))
        } else {
            rest
        }
    }
}

pub open spec fn location_pairs(locs: Seq<LocationRssi>) -> Seq<(Seq<char>, int)> {
    locs.map_values(|l: LocationRssi| (l.address@, l.rssi as int))
}

/// What a location update leaves: exactly the listed addresses, each with the
/// place type of its last listing and its track at the unchanged points; the
/// track map and the place-type map share one key set.
pub open spec fn location_update_post(pre: SessionState, post: SessionState, locs: Seq<LocationAssignment>) -> bool {
    &&& post.place_types() == assignment_map(locs)
    &&& post.sound_map() == sound_map_for(assignment_map(locs), pre.points as int)
    &&& post.sound_map().dom() == post.place_types().dom()
    &&& post.points == pre.points
    &&& post.points_initialized == pre.points_initialized
    &&& post.my_address == pre.my_address
}

/// Whether a points update changes anything: it is for this node and its value differs.
pub open spec fn point_update_applies(pre: SessionState, user_id: Seq<char>, points: i32) -> bool {
    is_self(pre.my_address, user_id) && points != pre.points
}

/// What a points update leaves, and whether it asks for the point-gain effect.
pub open spec fn point_update_post(pre: SessionState, post: SessionState, user_id: Seq<char>, points: i32,
    r: Option<SePlayRequest>) -> bool
{
    &&& post.my_address == pre.my_address
    &&& post.place_types() == pre.place_types()
    &&& point_update_applies(pre, user_id, points) ==> {
        &&& post.points == points
        &&& post.points_initialized
        &&& post.sound_map() == sound_map_for(pre.place_types(), points as int)
    }
    &&& !point_update_applies(pre, user_id, points) ==> post == pre
    &&& r.is_some() == (point_update_applies(pre, user_id, points) && pre.points_initialized && points > pre.points)
    &&& r.is_some() ==> r.unwrap().file_path@ == "se-point.mp3"@
}

/// The same location update applied twice leaves the same track map and
/// place-type map as applying it once.
pub proof fn lemma_location_update_idempotent(s0: SessionState, s1: SessionState, s2: SessionState,
    locs: Seq<LocationAssignment>)
    requires
        location_update_post(s0, s1, locs),
        location_update_post(s1, s2, locs),
    ensures
        s2.sound_map() == s1.sound_map(),
        s2.place_types() == s1.place_types(),
        s2.points == s1.points,
{
}

/// The points change only through an update for this node whose value differs.
pub proof fn lemma_points_written_only_by_own_change(s0: SessionState, s1: SessionState, user_id: Seq<char>,
    points: i32, r: Option<SePlayRequest>)
    requires
        point_update_post(s0, s1, user_id, points, r),
        s1.points != s0.points || s1.points_initialized != s0.points_initialized,
    ensures
        is_self(s0.my_address, user_id),
        points != s0.points,
        s1.points == points,
{
}

/// A points update equal to the current points asks for no sound effect and
/// leaves the track map untouched.
pub proof fn lemma_unchanged_points_are_silent(s0: SessionState, s1: SessionState, user_id: Seq<char>,
    points: i32, r: Option<SePlayRequest>)
    requires
        point_update_post(s0, s1, user_id, points, r),
        points == s0.points,
    ensures
        r.is_none(),
        s1 == s0,
        s1.sound_map() == s0.sound_map(),
{
}

impl SessionState {
    pub open spec fn wf(&self) -> bool {
        self.locations.wf(self.points as int)
    }

    /// The registered address-to-track map.
    pub open spec fn sound_map(&self) -> Map<Seq<char>, Seq<char>> {
        self.locations.sound_map()
    }

    /// The registered address-to-place-type map.
    pub open spec fn place_types(&self) -> Map<Seq<char>, Seq<char>> {
        self.locations.place_types()
    }

    pub fn new() -> (s: SessionState)
        ensures
            s.wf(),
            s.points == 0,
            !s.points_initialized,
            s.my_address.is_none(),
            s.place_types() == Map::<Seq<char>, Seq<char>>::empty(),
    {
        SessionState { locations: LocationTable::new(), points: 0, points_initialized: false, my_address: None }
    }

    /// Records the node's identity; it is set once and never changed after.
    pub fn set_my_address(&mut self, address: String)
        ensures
            final(self).my_address == (if old(self).my_address.is_none() { Some(address) } else { old(self).my_address }),
            final(self).locations == old(self).locations,
            final(self).points == old(self).points,
            final(self).points_initialized == old(self).points_initialized,
    {
        if self.my_address.is_none() {
            self.my_address = Some(address);
        }
    }

    /// The identity carried by uplink requests: the node's own, or empty while unknown.
    pub fn user_id(&self) -> (r: String)
        ensures
            r@ == (match self.my_address {
                Some(a) => a@,
                None => Seq::<char>::empty(),
            }),
    {
        match &self.my_address {
            Some(a) => a.clone(),
            None => String::new(),
        }
    }

    /// Whether an identity is the node's own.
    pub fn is_my_id(&self, id: &str) -> (r: bool)
        ensures
            r == is_self(self.my_address, id@),
    {
        match &self.my_address {
            Some(a) => str_eq(a.as_str(), id),
            None => false,
        }
    }

    /// Differential rewrite on a location update: afterwards exactly the listed
    /// addresses are registered, each with the place type of its last listing
    /// and the track of that place type at the current points.
    pub fn apply_location_update(&mut self, locations: &Vec<LocationAssignment>)
        requires
            old(self).wf(),
        ensures
            final(self).wf(),
            location_update_post(*old(self), *final(self), locations@),
    {
        self.locations = LocationTable::from_update(locations, self.points);
        proof { self.locations.lemma_sound_map(self.points as int); }
    }

    /// The track map and the place-type map share one key set.
    pub proof fn lemma_key_sets_agree(&self)
        requires
            self.wf(),
        ensures
            self.sound_map().dom() == self.place_types().dom(),
    {
        self.locations.lemma_sound_map(self.points as int);
    }

    /// A points update. Only an update for this node whose value differs from the
    /// current points changes anything: it sets the points, re-resolves every
    /// track, and marks points as initialized. It asks for the point-gain sound
    /// effect when the points rose and an earlier value had been received.
    pub fn apply_point_update(&mut self, user_id: &str, points: i32) -> (r: Option<SePlayRequest>)
        requires
            old(self).wf(),
        ensures
            final(self).wf(),
            point_update_post(*old(self), *final(self), user_id@, points, r),
    {
        if !self.is_my_id(user_id) || points == self.points {
            return None;
        }
        let old_points = self.points;
        self.locations.rebuild(points);
        self.points = points;
        proof { self.locations.lemma_sound_map(points as int); }
        let was_initialized = self.points_initialized;
        self.points_initialized = true;
        if was_initialized && points > old_points {
            Some(SePlayRequest { file_path: String::from_str("se-point.mp3") })
        } else {
            None
        }
    }

    /// The enable flag that a moonlight update sets for this node: that of the
    /// first entry naming the node by device or address; none while the node's
    /// identity is unknown or when no entry names it.
    pub fn moonlight_state(&self, moonlights: &Vec<MoonlightEntry>) -> (r: Option<SystemEnabledState>)
        ensures
            r.is_some() == (self.my_address.is_some()
                && exists|i: int| 0 <= i < moonlights@.len() && names_node(#[trigger] moonlights@[i], self.my_address.unwrap()@)),
            r.is_some() ==> {
                &&& r.unwrap().target_device_id@ == self.my_address.unwrap()@
                &&& exists|i: int| 0 <= i < moonlights@.len()
                    && names_node(#[trigger] moonlights@[i], self.my_address.unwrap()@)
                    && r.unwrap().enabled == moonlights@[i].enabled
                    && forall|j: int| 0 <= j < i ==> !names_node(#[trigger] moonlights@[j], self.my_address.unwrap()@)
            },
    {
        match &self.my_address {
            None => None,
            Some(me) => {
                assert(self.my_address.unwrap()@ == me@);
                let mut i: usize = 0;
                while i < moonlights.len()
                    invariant
                        i <= moonlights@.len(),
                        self.my_address.is_some(),
                        self.my_address.unwrap()@ == me@,
                        forall|j: int| 0 <= j < i ==> !names_node(#[trigger] moonlights@[j], me@),
                    decreases moonlights@.len() - i,
                {
                    let m = &moonlights[i];
                    if str_eq(m.device.as_str(), me.as_str()) || str_eq(m.address.as_str(), me.as_str()) {
                        assert(names_node(moonlights@[i as int], me@));
                        assert(forall|j: int| 0 <= j < i ==> !names_node(#[trigger] moonlights@[j], self.my_address.unwrap()@));
                        return Some(SystemEnabledState { enabled: m.enabled, target_device_id: me.clone() });
                    }
                    i = i + 1;
                }
                None
            }
        }
    }

    /// The uplink request for a batch of observations: those whose address is
    /// registered, in order, tagged with the node's identity.
    pub fn uplink_request(&self, batch: &Vec<DeviceInfo>) -> (r: StreamDeviceInfoRequest)
        requires
            self.wf(),
        ensures
            r.user_id@ == (match self.my_address {
                Some(a) => a@,
                None => Seq::<char>::empty(),
            }),
            location_pairs(r.locations@) == uplink_pairs(batch@, self.sound_map().dom()),
    {
        let mut locations: Vec<LocationRssi> = Vec::new();
        let mut k: usize = 0;
        while k < batch.len()
            invariant
                k <= batch@.len(),
                self.wf(),
                location_pairs(locations@) == uplink_pairs(batch@.subrange(0, k as int), self.sound_map().dom()),
            decreases batch@.len() - k,
        {
            let d = &batch[k];
            assert(batch@.subrange(0, k + 1).drop_last() == batch@.subrange(0, k as int));
            if self.locations.contains_address(d.address.as_str()) {
                let ghost before = locations@;
                locations.push(LocationRssi { address: d.address.clone(), rssi: d.rssi as i32 });
                assert(location_pairs(locations@) =~= location_pairs(before).push((d.address@, d.rssi as int)));
            }
            k = k + 1;
        }
        assert(batch@.subrange(0, batch@.len() as int) == batch@);
        StreamDeviceInfoRequest { user_id: self.user_id(), locations }
    }
}

} // verus!
