//! Proximity interactions: detecting when the node comes very close to a
//! location, the per-place-type cooldown, and what an interaction sends.

use vstd::prelude::*;
use vstd::string::*;
use crate::assets::{get_se_file_from_place_type, is_interactive, se_file_of};
use crate::events::{DeviceInfo, SePlayRequest};
use crate::locations::LocationTable;
use crate::table::StrTable;

verus! {

/// Signal strength above which the node counts as at the location.
pub const INTERACTION_RSSI_THRESHOLD: i16 = -45;

/// Minimum time between two interactions of one place type.
pub const INTERACTION_COOLDOWN_NS: u64 = 10_000_000_000;

/// Whether a place type may interact at `now` given the last interaction times.
pub open spec fn cooldown_allows(last: Map<Seq<char>, u64>, place_type: Seq<char>, now: u64, cooldown: u64) -> bool {
    !last.contains_key(place_type) || now as int - last[place_type] as int >= cooldown as int
}

/// The last interaction times after one interaction attempt.
pub open spec fn cooldown_step(last: Map<Seq<char>, u64>, place_type: Seq<char>, now: u64, cooldown: u64) -> Map<Seq<char>, u64> {
    if cooldown_allows(last, place_type, now, cooldown) { last.insert(place_type, now) } else { last }
}

/// The last interaction times after a sequence of attempts `(place type, time)`.
pub open spec fn cooldown_run(last: Map<Seq<char>, u64>, calls: Seq<(Seq<char>, u64)>, cooldown: u64) -> Map<Seq<char>, u64>
    decreases calls.len(),
{
    if calls.len() == 0 {
        last
    } else {
        cooldown_step(cooldown_run(last, calls.drop_last(), cooldown), calls.last().0, calls.last().1, cooldown)
    }
}

/// Whether the `i`-th attempt of a sequence interacts.
pub open spec fn attempt_fires(last: Map<Seq<char>, u64>, calls: Seq<(Seq<char>, u64)>, i: int, cooldown: u64) -> bool {
    cooldown_allows(cooldown_run(last, calls.take(i), cooldown), calls[i].0, calls[i].1, cooldown)
}

proof fn lemma_last_fire_bound(last: Map<Seq<char>, u64>, calls: Seq<(Seq<char>, u64)>, cooldown: u64, i: int, j: int)
    requires
        cooldown > 0,
        0 <= i < j <= calls.len(),
        attempt_fires(last, calls, i, cooldown),
    ensures
        cooldown_run(last, calls.take(j), cooldown).contains_key(calls[i].0),
        cooldown_run(last, calls.take(j), cooldown)[calls[i].0] >= calls[i].1,
    decreases j - i,
{
    let pt = calls[i].0;
    if j == i + 1 {
        assert(calls.take(j).drop_last() == calls.take(i));
        assert(calls.take(j).last() == calls[i]);
    } else {
        lemma_last_fire_bound(last, calls, cooldown, i, j - 1);
        assert(calls.take(j).drop_last() == calls.take(j - 1));
        assert(calls.take(j).last() == calls[j - 1]);
    }
}

/// Two interactions of the same place type, in any sequence of attempts,
/// are at least the cooldown apart.
pub proof fn lemma_cooldown_spacing(last: Map<Seq<char>, u64>, calls: Seq<(Seq<char>, u64)>, i: int, j: int)
    requires
        0 <= i < j < calls.len(),
        calls[i].0 == calls[j].0,
        attempt_fires(last, calls, i, INTERACTION_COOLDOWN_NS),
        attempt_fires(last, calls, j, INTERACTION_COOLDOWN_NS),
    ensures
        calls[j].1 >= calls[i].1 + INTERACTION_COOLDOWN_NS,
{
    lemma_last_fire_bound(last, calls, INTERACTION_COOLDOWN_NS, i, j);
}

/// Per-place-type time of the last interaction, and the cooldown between two.
pub struct InteractionState {
    pub last_interaction_time: StrTable<u64>,
    pub interaction_cooldown: u64,
}

impl InteractionState {
    pub open spec fn wf(&self) -> bool {
        self.last_interaction_time.wf()
    }

    pub open spec fn view(&self) -> Map<Seq<char>, u64> {
        self.last_interaction_time.view()
    }

    pub fn new() -> (s: InteractionState)
        ensures
            s.wf(),
            s.view() == Map::<Seq<char>, u64>::empty(),
            s.interaction_cooldown == INTERACTION_COOLDOWN_NS,
    {
        InteractionState { last_interaction_time: StrTable::new(), interaction_cooldown: INTERACTION_COOLDOWN_NS }
    }

    /// Whether a place type may interact at `now`; when it may, `now` becomes
    /// its last interaction time.
    pub fn can_interact(&mut self, place_type: &str, now: u64) -> (r: bool)
        requires
            old(self).wf(),
        ensures
            final(self).wf(),
            final(self).interaction_cooldown == old(self).interaction_cooldown,
            r == cooldown_allows(old(self).view(), place_type@, now, old(self).interaction_cooldown),
            final(self).view() == cooldown_step(old(self).view(), place_type@, now, old(self).interaction_cooldown),
    {
        if let Some(last) = self.last_interaction_time.get(place_type) {
            let last = *last;
            if now < last || now - last < self.interaction_cooldown {
                return false;
            }
        }
        self.last_interaction_time.insert(place_type, now);
        true
    }
}

/// Whether a pair of successive readings crosses into the interaction range.
pub open spec fn is_crossing(prev: i16, current: i16) -> bool {
    prev <= INTERACTION_RSSI_THRESHOLD && current > INTERACTION_RSSI_THRESHOLD
}

/// Per-address previous signal strength, for edge detection.
pub struct ProximityTracker {
    pub last_rssi: StrTable<i16>,
}

impl ProximityTracker {
    pub open spec fn wf(&self) -> bool {
        self.last_rssi.wf()
    }

    pub open spec fn view(&self) -> Map<Seq<char>, i16> {
        self.last_rssi.view()
    }

    /// The previous reading of an address; the weakest possible before any.
    pub open spec fn prev(&self, address: Seq<char>) -> i16 {
        if self.view().contains_key(address) { self.view()[address] } else { i16::MIN }
    }

    pub fn new() -> (t: ProximityTracker)
        ensures
            t.wf(),
            t.view() == Map::<Seq<char>, i16>::empty(),
    {
        ProximityTracker { last_rssi: StrTable::new() }
    }

    /// Records a reading and tells whether it crosses into the interaction range.
    pub fn observe(&mut self, address: &str, rssi: i16) -> (r: bool)
        requires
            old(self).wf(),
        ensures
            final(self).wf(),
            r == is_crossing(old(self).prev(address@), rssi),
            final(self).view() == old(self).view().insert(address@, rssi),
    {
        let prev = match self.last_rssi.get(address) {
            Some(p) => *p,
            None => i16::MIN,
        };
        self.last_rssi.insert(address, rssi);
        prev <= INTERACTION_RSSI_THRESHOLD && rssi > INTERACTION_RSSI_THRESHOLD
    }
}

/// What an interaction asks for: a sound effect, and a report of the place
/// type to the server for the node's identity when it is known.
pub struct Interaction {
    pub se: SePlayRequest,
    pub place_type: String,
    pub report_url: Option<String>,
}

/// The endpoint that counts an interaction of a player.
pub open spec fn interaction_url_spec(user_id: Seq<char>) -> Seq<char> {
    "https://tsukimi.paon.dev/players/"@ + user_id + "/increment"@
}

pub fn interaction_url(user_id: &str) -> (r: String)
    ensures
        r@ == interaction_url_spec(user_id@),
{
    let mut s = String::from_str("https://tsukimi.paon.dev/players/");
    s.append(user_id);
    s.append("/increment");
    s
}

/// Edge detection and cooldowns for the interaction task.
pub struct InteractionRouter {
    pub proximity: ProximityTracker,
    pub cooldowns: InteractionState,
}

impl InteractionRouter {
    pub open spec fn wf(&self) -> bool {
        self.proximity.wf() && self.cooldowns.wf() && self.cooldowns.interaction_cooldown == INTERACTION_COOLDOWN_NS
    }

    pub fn new() -> (r: InteractionRouter)
        ensures
            r.wf(),
            r.proximity.view() == Map::<Seq<char>, i16>::empty(),
            r.cooldowns.view() == Map::<Seq<char>, u64>::empty(),
    {
        InteractionRouter { proximity: ProximityTracker::new(), cooldowns: InteractionState::new() }
    }

    /// Handles one observation at `now`. An interaction happens when the reading
    /// crosses into the interaction range, the address is registered with an
    /// interactive place type, and that place type is out of its cooldown.
    pub fn on_observation(&mut self, locations: &LocationTable, obs: &DeviceInfo, my_address: &Option<String>, now: u64)
        -> (r: Option<Interaction>)
        requires
            old(self).wf(),
            locations.distinct(),
        ensures
            final(self).wf(),
            final(self).proximity.view() == old(self).proximity.view().insert(obs.address@, obs.rssi),
            ({
                let pts = locations.place_types();
                let a = obs.address@;
                let eligible = is_crossing(old(self).proximity.prev(a), obs.rssi)
                    && pts.contains_key(a) && is_interactive(pts[a]);
                &&& r.is_some() == (eligible && cooldown_allows(old(self).cooldowns.view(), pts[a], now, INTERACTION_COOLDOWN_NS))
                &&& eligible ==> final(self).cooldowns.view() == cooldown_step(old(self).cooldowns.view(), pts[a], now, INTERACTION_COOLDOWN_NS)
                &&& !eligible ==> final(self).cooldowns.view() == old(self).cooldowns.view()
                &&& r.is_some() ==> {
                    &&& r.unwrap().place_type@ == pts[a]
                    &&& r.unwrap().se.file_path@ == se_file_of(pts[a])
                    &&& r.unwrap().report_url.is_some() == my_address.is_some()
                    &&& my_address.is_some() ==> r.unwrap().report_url.unwrap()@ == interaction_url_spec(my_address.unwrap()@)
                }
            }),
    {
        let crossing = self.proximity.observe(obs.address.as_str(), obs.rssi);
        if !crossing {
            return None;
        }
        let place_type = match locations.place_type_of(obs.address.as_str()) {
            Some(p) => p,
            None => return None,
        };
        let se_file = match get_se_file_from_place_type(place_type.as_str()) {
            Some(f) => f,
            None => return None,
        };
        if !self.cooldowns.can_interact(place_type.as_str(), now) {
            return None;
        }
        let report_url = match my_address {
            Some(id) => Some(interaction_url(id.as_str())),
            None => None,
        };
        Some(Interaction {
            se: SePlayRequest { file_path: String::from_str(se_file) },
            place_type: place_type.clone(),
            report_url,
        })
    }
}

} // verus!
