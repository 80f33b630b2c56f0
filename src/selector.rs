//! Track selection: the table of recent observations, candidate ranking,
//! hysteresis against the current track, and the fallback to the default.

use vstd::prelude::*;
use crate::assets::{default_sound, default_sound_for};
use crate::events::DeviceInfo;
use crate::locations::LocationTable;
use crate::session::is_self;
use crate::table::{is_recent, StrTable};
use crate::text::str_eq;

verus! {

/// Observations older than this are dropped; sweeps are at least this far apart.
pub const CLEANUP_INTERVAL_NS: u64 = 5_000_000_000;

/// A registered location is a candidate only above this signal strength.
pub const RSSI_THRESHOLD: i16 = -70;

/// How much stronger than the current location a candidate must be to switch.
pub const HYSTERESIS_MARGIN: i16 = 3;

/// Latest observation per address as `(observed at, rssi)`, and the time of the last sweep.
pub struct DeviceTable {
    pub devices: StrTable<(u64, i16)>,
    pub last_cleanup: u64,
}

impl DeviceTable {
    pub open spec fn wf(&self) -> bool {
        self.devices.wf()
    }

    pub open spec fn view(&self) -> Map<Seq<char>, (u64, i16)> {
        self.devices.view()
    }

    pub fn new(now: u64) -> (t: DeviceTable)
        ensures
            t.wf(),
            t.view() == Map::<Seq<char>, (u64, i16)>::empty(),
            t.last_cleanup == now,
    {
        DeviceTable { devices: StrTable::new(), last_cleanup: now }
    }

    /// Records an observation as the latest of its address.
    pub fn insert(&mut self, obs: &DeviceInfo)
        requires
            old(self).wf(),
        ensures
            final(self).wf(),
            final(self).view() == old(self).view().insert(obs.address@, (obs.last_seen_ns, obs.rssi)),
            final(self).last_cleanup == old(self).last_cleanup,
    {
        self.devices.insert(obs.address.as_str(), (obs.last_seen_ns, obs.rssi));
    }

    /// Once more than the cleanup interval has passed since the last sweep,
    /// drops every observation that is not younger than the interval.
    pub fn maybe_cleanup(&mut self, now: u64) -> (swept: bool)
        requires
            old(self).wf(),
        ensures
            final(self).wf(),
            swept == (now as int - old(self).last_cleanup as int > CLEANUP_INTERVAL_NS as int),
            swept ==> final(self).last_cleanup == now,
            swept ==> forall|k: Seq<char>| #[trigger] final(self).view().contains_key(k)
                == (old(self).view().contains_key(k) && is_recent(old(self).view()[k].0, now, CLEANUP_INTERVAL_NS)),
            swept ==> forall|k: Seq<char>| #[trigger] final(self).view().contains_key(k)
                ==> final(self).view()[k] == old(self).view()[k],
            !swept ==> *final(self) == *old(self),
    {
        if now > self.last_cleanup && now - self.last_cleanup > CLEANUP_INTERVAL_NS {
            self.devices = self.devices.recent_entries(now, CLEANUP_INTERVAL_NS);
            self.last_cleanup = now;
            true
        } else {
            false
        }
    }
}

/// Points credited to a candidate: the node's points for its own address, else zero.
pub open spec fn assigned_points(a: Seq<char>, points: i32, my: Option<String>) -> int {
    if is_self(my, a) { points as int } else { 0 }
}

/// A registered address observed above the threshold.
pub open spec fn is_candidate(dev: Map<Seq<char>, (u64, i16)>, snd: Map<Seq<char>, Seq<char>>, a: Seq<char>) -> bool {
    dev.contains_key(a) && snd.contains_key(a) && dev[a].1 > RSSI_THRESHOLD
}

/// `a` ranks at least as high as `b`: by credited points, then by signal strength.
pub open spec fn ranks_at_least(dev: Map<Seq<char>, (u64, i16)>, a: Seq<char>, b: Seq<char>, points: i32, my: Option<String>) -> bool {
    let pa = assigned_points(a, points, my);
    let pb = assigned_points(b, points, my);
    pa > pb || (pa == pb && dev[a].1 >= dev[b].1)
}

/// A candidate that ranks at least as high as every candidate.
pub open spec fn is_top(dev: Map<Seq<char>, (u64, i16)>, snd: Map<Seq<char>, Seq<char>>, a: Seq<char>, points: i32, my: Option<String>) -> bool {
    &&& is_candidate(dev, snd, a)
    &&& forall|b: Seq<char>| #[trigger] is_candidate(dev, snd, b) ==> ranks_at_least(dev, a, b, points, my)
}

/// An observed address that is mapped to the current track.
pub open spec fn plays_current(dev: Map<Seq<char>, (u64, i16)>, snd: Map<Seq<char>, Seq<char>>, a: Seq<char>, current: Seq<char>) -> bool {
    dev.contains_key(a) && snd.contains_key(a) && snd[a] == current
}

/// `cr` is the signal strength of the current location: the strongest observed
/// address mapped to the current track, or the weakest possible value if none is.
pub open spec fn is_current_rssi(dev: Map<Seq<char>, (u64, i16)>, snd: Map<Seq<char>, Seq<char>>, current: Seq<char>, cr: int) -> bool {
    &&& forall|a: Seq<char>| #[trigger] plays_current(dev, snd, a, current) ==> dev[a].1 <= cr
    &&& (cr == i16::MIN as int || exists|a: Seq<char>| #[trigger] plays_current(dev, snd, a, current) && dev[a].1 == cr)
}

/// The desired track: the default when no candidate exists; otherwise the track
/// of a top candidate if it beats the current location by more than the margin,
/// else the current track.
pub open spec fn is_desired(dev: Map<Seq<char>, (u64, i16)>, snd: Map<Seq<char>, Seq<char>>, points: i32,
    my: Option<String>, current: Seq<char>, r: Seq<char>) -> bool
{
    if !(exists|a: Seq<char>| #[trigger] is_candidate(dev, snd, a)) {
        r == default_sound_for(points as int)
    } else {
        exists|cr: int| #[trigger] is_current_rssi(dev, snd, current, cr) && {
            ||| exists|a: Seq<char>| #[trigger] is_top(dev, snd, a, points, my)
                    && dev[a].1 > cr + HYSTERESIS_MARGIN && r == snd[a]
            ||| (forall|a: Seq<char>| #[trigger] is_top(dev, snd, a, points, my) ==> dev[a].1 <= cr + HYSTERESIS_MARGIN)
                    && r == current
        }
    }
}

/// Chooses the track to play from the recent observations.
pub fn select_desired(devices: &DeviceTable, locations: &LocationTable, points: i32, my_address: &Option<String>,
    current_sound: &String) -> (r: String)
    requires
        devices.wf(),
        locations.distinct(),
    ensures
        is_desired(devices.view(), locations.sound_map(), points, *my_address, current_sound@, r@),
{
    let ghost dev = devices.view();
    let ghost snd = locations.sound_map();
    let ghost my = *my_address;
    let n = devices.devices.entries.len();
    let mut best: Option<usize> = None;
    let mut best_pts: i32 = 0;
    let mut best_rssi: i16 = 0;
    let mut cur_rssi: i16 = i16::MIN;
    let mut i: usize = 0;
    while i < n
        invariant
            n == devices.devices.entries@.len(),
            i <= n,
            devices.wf(),
            locations.distinct(),
            dev == devices.view(),
            snd == locations.sound_map(),
            my == *my_address,
            forall|j: int| 0 <= j < i && #[trigger] plays_current(dev, snd, devices.devices.entries@[j].0@, current_sound@)
                ==> devices.devices.entries@[j].1.1 <= cur_rssi,
            cur_rssi == i16::MIN || exists|j: int| 0 <= j < i
                && #[trigger] plays_current(dev, snd, devices.devices.entries@[j].0@, current_sound@)
                && devices.devices.entries@[j].1.1 == cur_rssi,
            best.is_none() ==> forall|j: int| 0 <= j < i ==> !#[trigger] is_candidate(dev, snd, devices.devices.entries@[j].0@),
            best.is_some() ==> {
                let b = best.unwrap() as int;
                let ba = devices.devices.entries@[b].0@;
                &&& 0 <= b < i
                &&& is_candidate(dev, snd, ba)
                &&& best_pts == assigned_points(ba, points, my)
                &&& best_rssi == dev[ba].1
                &&& forall|j: int| 0 <= j < i && #[trigger] is_candidate(dev, snd, devices.devices.entries@[j].0@)
                    ==> ranks_at_least(dev, ba, devices.devices.entries@[j].0@, points, my)
            },
        decreases n - i,
    {
        let addr = &devices.devices.entries[i].0;
        let rssi = devices.devices.entries[i].1.1;
        proof { devices.devices.lemma_at(i as int); }
        match locations.sound_of(addr.as_str()) {
            None => {}
            Some(s) => {
                if *s == *current_sound {
                    assert(plays_current(dev, snd, devices.devices.entries@[i as int].0@, current_sound@));
                    if rssi > cur_rssi {
                        cur_rssi = rssi;
                    }
                }
                if rssi > RSSI_THRESHOLD {
                    let mine = match my_address {
                        Some(m) => str_eq(m.as_str(), addr.as_str()),
                        None => false,
                    };
                    let pts: i32 = if mine { points } else { 0 };
                    if best.is_none() || pts > best_pts || (pts == best_pts && rssi > best_rssi) {
                        best = Some(i);
                        best_pts = pts;
                        best_rssi = rssi;
                    }
                }
            }
        }
        i = i + 1;
    }
    proof {
        assert forall|a: Seq<char>| #[trigger] plays_current(dev, snd, a, current_sound@) implies dev[a].1 <= cur_rssi by {
            let j = devices.devices.index_spec(a);
            devices.devices.lemma_at(j);
        }
        if cur_rssi != i16::MIN {
            let j = choose|j: int| 0 <= j < n
                && #[trigger] plays_current(dev, snd, devices.devices.entries@[j].0@, current_sound@)
                && devices.devices.entries@[j].1.1 == cur_rssi;
            devices.devices.lemma_at(j);
            assert(plays_current(dev, snd, devices.devices.entries@[j].0@, current_sound@));
        }
        assert(is_current_rssi(dev, snd, current_sound@, cur_rssi as int));
    }
    match best {
        None => {
            proof {
                assert forall|a: Seq<char>| !#[trigger] is_candidate(dev, snd, a) by {
                    if is_candidate(dev, snd, a) {
                        let j = devices.devices.index_spec(a);
                        devices.devices.lemma_at(j);
                    }
                }
            }
            default_sound(points)
        }
        Some(b) => {
            let ghost ba = devices.devices.entries@[b as int].0@;
            proof {
                devices.devices.lemma_at(b as int);
                assert forall|c: Seq<char>| #[trigger] is_candidate(dev, snd, c) implies ranks_at_least(dev, ba, c, points, my) by {
                    let j = devices.devices.index_spec(c);
                    devices.devices.lemma_at(j);
                }
                assert(is_top(dev, snd, ba, points, my));
                assert(is_candidate(dev, snd, ba));
            }
            if best_rssi as i32 > cur_rssi as i32 + HYSTERESIS_MARGIN as i32 {
                let s = locations.sound_of(devices.devices.entries[b].0.as_str());
                let s = s.unwrap();
                s.clone()
            } else {
                proof {
                    assert forall|a: Seq<char>| #[trigger] is_top(dev, snd, a, points, my)
                        implies dev[a].1 <= cur_rssi + HYSTERESIS_MARGIN by {
                        assert(ranks_at_least(dev, ba, a, points, my));
                        assert(ranks_at_least(dev, a, ba, points, my));
                    }
                }
                current_sound.clone()
            }
        }
    }
}

} // verus!
