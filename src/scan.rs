//! Throttled deduplication of scan observations.

use vstd::prelude::*;
use crate::events::DeviceInfo;
use crate::locations::LocationTable;
use crate::table::{is_recent, StrTable};
use vstd::string::*;

verus! {

/// Minimum time between two emissions for one address with unchanged signal.
pub const SCAN_DEDUP_INTERVAL_NS: u64 = 25_000_000;

/// Signal change, in dBm, that bypasses the time throttle.
pub const SCAN_DEDUP_RSSI: i16 = 1;

/// Age after which a cache entry is dropped by a sweep.
pub const SCAN_CACHE_TTL_NS: u64 = 60_000_000_000;

/// Period of the cache sweep.
pub const SCAN_CACHE_SWEEP_NS: u64 = 30_000_000_000;

/// The deduplication predicate: a first sighting, or at least the throttle
/// interval since the last emission, or a signal change of at least 1 dBm.
pub open spec fn dedup_allows(prev: Option<(u64, i16)>, rssi: i16, now: u64) -> bool {
    match prev {
        None => true,
        Some(p) => now as int - p.0 as int >= SCAN_DEDUP_INTERVAL_NS as int
            || (rssi as int - p.1 as int >= SCAN_DEDUP_RSSI as int
                || p.1 as int - rssi as int >= SCAN_DEDUP_RSSI as int),
    }
}

/// Per-address record of the last emission: when, and at which signal strength.
pub struct ScanCache {
    pub table: StrTable<(u64, i16)>,
}

impl ScanCache {
    pub open spec fn wf(&self) -> bool {
        self.table.wf()
    }

    /// Address to `(last emission time, last emitted rssi)`.
    pub open spec fn view(&self) -> Map<Seq<char>, (u64, i16)> {
        self.table.view()
    }

    pub open spec fn prev(&self, address: Seq<char>) -> Option<(u64, i16)> {
        if self.view().contains_key(address) { Some(self.view()[address]) } else { None }
    }

    pub fn new() -> (c: ScanCache)
        ensures
            c.wf(),
            c.view() == Map::<Seq<char>, (u64, i16)>::empty(),
    {
        ScanCache { table: StrTable::new() }
    }

    /// Decides whether an observation is emitted, and records it when it is.
    pub fn should_send(&mut self, address: &str, rssi: i16, now: u64) -> (r: bool)
        requires
            old(self).wf(),
        ensures
            final(self).wf(),
            r == dedup_allows(old(self).prev(address@), rssi, now),
            r ==> final(self).view() == old(self).view().insert(address@, (now, rssi)),
            !r ==> final(self).view() == old(self).view(),
    {
        let send = match self.table.get(address) {
            None => true,
            Some(p) => {
                let (sent, last) = *p;
                let elapsed_enough = now >= sent && now - sent >= SCAN_DEDUP_INTERVAL_NS;
                let diff: i32 = rssi as i32 - last as i32;
                elapsed_enough || diff >= SCAN_DEDUP_RSSI as i32 || -diff >= SCAN_DEDUP_RSSI as i32
            }
        };
        if send {
            self.table.insert(address, (now, rssi));
        }
        send
    }

    /// Drops the entries whose last emission is at least the cache lifetime old.
    pub fn sweep(&mut self, now: u64)
        requires
            old(self).wf(),
        ensures
            final(self).wf(),
            forall|k: Seq<char>| #[trigger] final(self).view().contains_key(k)
                == (old(self).view().contains_key(k) && is_recent(old(self).view()[k].0, now, SCAN_CACHE_TTL_NS)),
            forall|k: Seq<char>| #[trigger] final(self).view().contains_key(k) ==> final(self).view()[k] == old(self).view()[k],
    {
        self.table = self.table.recent_entries(now, SCAN_CACHE_TTL_NS);
    }
}

/// Handles one discovery event: an address that is not registered is dropped
/// before anything else; a registered one is emitted as an observation when
/// the deduplication predicate allows it.
pub fn scan_decision(locations: &LocationTable, cache: &mut ScanCache, address: &str, rssi: i16, now: u64)
    -> (r: Option<DeviceInfo>)
    requires
        old(cache).wf(),
    ensures
        final(cache).wf(),
        r.is_some() == (locations.sound_map().contains_key(address@)
            && dedup_allows(old(cache).prev(address@), rssi, now)),
        !locations.sound_map().contains_key(address@) ==> final(cache).view() == old(cache).view(),
        r.is_some() ==> {
            &&& r.unwrap().address@ == address@
            &&& r.unwrap().rssi == rssi
            &&& r.unwrap().last_seen_ns == now
            &&& final(cache).view() == old(cache).view().insert(address@, (now, rssi))
        },
        r.is_none() ==> final(cache).view() == old(cache).view(),
{
    if !locations.contains_address(address) {
        return None;
    }
    if cache.should_send(address, rssi, now) {
        Some(DeviceInfo { address: String::from_str(address), rssi, last_seen_ns: now })
    } else {
        None
    }
}

/// White space among ASCII characters.
pub open spec fn is_space(c: char) -> bool {
    c == ' ' || c == '\t' || c == '\n' || c == '\x0B' || c == '\x0C' || c == '\r'
}

/// `w` is the first white-space separated word of `s`, or all of `s` when it
/// holds no word.
pub open spec fn is_first_word(s: Seq<char>, w: Seq<char>) -> bool {
    if forall|k: int| 0 <= k < s.len() ==> is_space(#[trigger] s[k]) {
        w == s
    } else {
        exists|i: int, j: int| {
            &&& 0 <= i < j <= s.len()
            &&& (forall|k: int| 0 <= k < i ==> is_space(#[trigger] s[k]))
            &&& (forall|k: int| i <= k < j ==> !is_space(#[trigger] s[k]))
            &&& (j == s.len() || is_space(s[j]))
            &&& w == s.subrange(i, j)
        }
    }
}

fn is_space_exec(c: char) -> (r: bool)
    ensures
        r == is_space(c),
{
    c == ' ' || c == '\t' || c == '\n' || c == '\x0B' || c == '\x0C' || c == '\r'
}

/// The first word of an adapter's name (`"hci0 (usb:...)"` gives `"hci0"`).
pub fn adapter_id(name: &str) -> (r: String)
    ensures
        is_first_word(name@, r@),
{
    let n = name.unicode_len();
    let mut i: usize = 0;
    while i < n && is_space_exec(name.get_char(i))
        invariant
            n == name@.len(),
            i <= n,
            forall|k: int| 0 <= k < i ==> is_space(#[trigger] name@[k]),
        decreases n - i,
    {
        i = i + 1;
    }
    if i == n {
        return String::from_str(name);
    }
    let mut j: usize = i + 1;
    while j < n && !is_space_exec(name.get_char(j))
        invariant
            n == name@.len(),
            i < j <= n,
            !is_space(name@[i as int]),
            forall|k: int| i <= k < j ==> !is_space(#[trigger] name@[k]),
        decreases n - j,
    {
        j = j + 1;
    }
    assert(!is_space(name@[i as int]));
    String::from_str(name.substring_char(i, j))
}

/// The system-bus object path of the adapter with this name.
pub fn adapter_object_path(name: &str) -> (r: String)
    ensures
        exists|w: Seq<char>| is_first_word(name@, w) && r@ == "/org/bluez/"@ + w,
{
    let id = adapter_id(name);
    let mut p = String::from_str("/org/bluez/");
    p.append(id.as_str());
    p
}

} // verus!
