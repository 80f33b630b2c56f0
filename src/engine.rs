//! The playback engine's decisions. The engine keeps one looping track in phase
//! with the server's master clock: it decides when playback starts and where,
//! how the rate is corrected on each clock sample, where a standby pipeline is
//! seeked during a track switch, and how the enable flag stops and resumes
//! playback. The media pipelines themselves are driven by the caller, which
//! performs each returned action.
//!
//! Times are nanoseconds of the local monotonic clock; server times are
//! nanoseconds of the server's monotonic clock. Rates are parts per million.

use vstd::prelude::*;
use crate::events::SystemEnabledState;
use crate::text::str_eq;

verus! {

/// Fallback start when no clock sample arrives.
pub const SYNC_TIMEOUT_NS: u64 = 5_000_000_000;
/// Minimum time between two duration queries.
pub const DURATION_QUERY_INTERVAL_NS: u64 = 1_000_000_000;
/// Drift beyond which the engine seeks instead of adjusting the rate.
pub const DRIFT_SEEK_THRESHOLD_NS: u64 = 3_000_000_000;
/// Drift correction is suppressed this long after a switch completes.
pub const SWITCH_GUARD_WINDOW_NS: u64 = 400_000_000;
/// Unity playback rate.
pub const RATE_UNITY_PPM: u64 = 1_000_000;
/// Lowest playback rate.
pub const RATE_MIN_PPM: u64 = 900_000;
/// Highest playback rate.
pub const RATE_MAX_PPM: u64 = 1_100_000;
/// A drift is corrected over this many nanoseconds: the rate offset is drift / 2 s.
pub const CORRECTION_TIME_NS: u64 = 2_000_000_000;

/// Where the engine is in its life cycle.
#[derive(PartialEq, Eq, Structural, Clone, Copy, Debug)]
pub enum Phase {
    WaitingForFirstSync,
    Playing,
    Disabled,
}

/// What the caller does to the active pipeline after a clock sample.
#[derive(PartialEq, Eq, Structural, Clone, Copy, Debug)]
pub enum DriftAction {
    /// Nothing.
    Keep,
    /// Set the rate (ppm).
    SetRate(u64),
    /// Flush-seek to the position (ns) and set the unity rate.
    Seek(u64),
    /// Flush-seek to the server time modulo the track's duration, once the
    /// duration is known, and set the unity rate.
    SeekServerTime(u64),
}

/// What the caller does after an enable-flag change for this node.
#[derive(PartialEq, Eq, Structural, Clone, Copy, Debug)]
pub enum EnableAction {
    Nothing,
    /// Destroy every pipeline.
    TearDown,
    /// Playback will restart after the next clock sample or the sync timeout.
    Resume,
}

/// Build the track's pipeline and start it from this server time.
pub struct StartPlan {
    pub sound: String,
    pub server_ns: u64,
}

/// Build a standby pipeline for `sound` and seek it to `seek_position_ns`.
pub struct SwitchJob {
    pub sound: String,
    pub seek_position_ns: u64,
}

/// The master-clock estimate at `now` from the last sample `(server, local)`:
/// the sample advanced by the local time since it arrived, capped at the
/// largest representable time.
pub open spec fn clock_estimate(sample: (u64, u64), now: u64) -> int {
    if now >= sample.1 {
        let e = sample.0 as int + (now as int - sample.1 as int);
        if e > u64::MAX as int { u64::MAX as int } else { e }
    } else {
        sample.0 as int
    }
}

/// Playback position for a server time: the server time modulo the track's
/// duration, or the start when the duration is unknown.
pub open spec fn start_position(server_ns: u64, duration: u64) -> int {
    if duration > 0 { (server_ns % duration) as int } else { 0 }
}

/// Signed drift of the server clock against the local clock since the anchor.
pub open spec fn drift_of(anchor_server: u64, anchor_local: u64, server_ns: u64, now: u64) -> int {
    (server_ns as int - anchor_server as int) - (now as int - anchor_local as int)
}

/// Rate that corrects a drift over the correction time, `1 + drift / 2 s`,
/// truncated to whole ppm and clamped to the rate bounds.
pub open spec fn rate_for_drift(drift: int) -> int {
    let r = if drift >= 0 {
        RATE_UNITY_PPM as int + drift / 2000
    } else {
        RATE_UNITY_PPM as int - (-drift) / 2000
    };
    if r > RATE_MAX_PPM as int {
        RATE_MAX_PPM as int
    } else if r < RATE_MIN_PPM as int {
        RATE_MIN_PPM as int
    } else {
        r
    }
}

/// How far a playhead running at `rate_ppm` for `elapsed` ns drifts from one
/// running at unity rate.
pub open spec fn playhead_error(rate_ppm: int, elapsed: int) -> int {
    (rate_ppm - RATE_UNITY_PPM as int) * elapsed
}

/// Whether a flag change is a true edge: enabling a node that was disabled.
pub open spec fn is_true_edge(was_enabled: bool, flag: bool) -> bool {
    flag && !was_enabled
}

pub fn seek_target(server_ns: u64, duration: u64) -> (r: Option<u64>)
    ensures
        r.is_some() == (duration > 0),
        r.is_some() ==> r.unwrap() == start_position(server_ns, duration),
{
    if duration > 0 { Some(server_ns % duration) } else { None }
}

pub fn rate_for_drift_exec(drift: i128) -> (r: u64)
    ensures
        r == rate_for_drift(drift as int),
{
    if drift >= 200_000_000 {
        RATE_MAX_PPM
    } else if drift <= -200_000_000 {
        RATE_MIN_PPM
    } else if drift >= 0 {
        RATE_UNITY_PPM + (drift as u64) / 2000
    } else {
        RATE_UNITY_PPM - ((-drift) as u64) / 2000
    }
}

/// Whether an enable-flag message is meant for this node.
pub fn is_for_node(state: &SystemEnabledState, my_address: &Option<String>) -> (r: bool)
    ensures
        r == (my_address.is_some() && my_address.unwrap()@ == state.target_device_id@),
{
    match my_address {
        Some(m) => str_eq(m.as_str(), state.target_device_id.as_str()),
        None => false,
    }
}

/// State of the playback engine.
pub struct PlaybackEngine {
    pub phase: Phase,
    pub enabled: bool,
    /// When the engine started waiting for its first clock sample.
    pub wait_start: u64,
    /// The track being played, or being switched to.
    pub current_sound: String,
    /// The track of the active pipeline.
    pub active_sound: String,
    /// Last accepted clock sample `(server time, local arrival time)`.
    pub clock: Option<(u64, u64)>,
    /// Sync anchor: local time and server time of the last sync point.
    pub anchor_local: u64,
    pub anchor_server: u64,
    pub rate_ppm: u64,
    /// Loop length of the active track; zero while unknown.
    pub cached_duration: u64,
    pub last_duration_query: u64,
    /// Integrated playhead position, modulo the loop length.
    pub virtual_position: u64,
    pub last_position_update: u64,
    pub switching: bool,
    pub last_switch_end: Option<u64>,
    /// The activation sound effect is owed.
    pub activation_pending: bool,
}

impl PlaybackEngine {
    pub open spec fn wf(&self) -> bool {
        &&& RATE_MIN_PPM <= self.rate_ppm <= RATE_MAX_PPM
        &&& self.cached_duration > 0 ==> self.virtual_position < self.cached_duration
        &&& self.switching ==> self.phase == Phase::Playing
        &&& self.enabled == (self.phase != Phase::Disabled)
    }

    pub open spec fn in_switch_guard(&self, now: u64) -> bool {
        self.switching || (self.last_switch_end.is_some()
            && (now as int - self.last_switch_end.unwrap() as int) < (SWITCH_GUARD_WINDOW_NS as int))
    }

    /// The master-clock estimate at `now`, if any sample arrived.
    pub open spec fn server_estimate(&self, now: u64) -> Option<int> {
        match self.clock {
            Some(c) => Some(clock_estimate(c, now)),
            None => None,
        }
    }

    pub fn new(now: u64, default_sound: String) -> (e: PlaybackEngine)
        ensures
            e.wf(),
            e.phase == Phase::WaitingForFirstSync,
            e.enabled,
            e.wait_start == now,
            e.clock.is_none(),
            e.current_sound@ == default_sound@,
            e.rate_ppm == RATE_UNITY_PPM,
            !e.switching,
            !e.activation_pending,
    {
        PlaybackEngine {
            phase: Phase::WaitingForFirstSync,
            enabled: true,
            wait_start: now,
            current_sound: default_sound.clone(),
            active_sound: default_sound,
            clock: None,
            anchor_local: now,
            anchor_server: 0,
            rate_ppm: RATE_UNITY_PPM,
            cached_duration: 0,
            last_duration_query: now,
            virtual_position: 0,
            last_position_update: now,
            switching: false,
            last_switch_end: None,
            activation_pending: false,
        }
    }

    fn estimate(&self, now: u64) -> (r: Option<u64>)
        ensures
            r.is_some() == self.clock.is_some(),
            r.is_some() ==> r.unwrap() as int == clock_estimate(self.clock.unwrap(), now),
    {
        match self.clock {
            Some((server, local)) => {
                if now >= local {
                    let delta = now - local;
                    if server > u64::MAX - delta { Some(u64::MAX) } else { Some(server + delta) }
                } else {
                    Some(server)
                }
            }
            None => None,
        }
    }

    pub fn in_switch_guard_exec(&self, now: u64) -> (r: bool)
        ensures
            r == self.in_switch_guard(now),
    {
        if self.switching {
            return true;
        }
        match self.last_switch_end {
            Some(t) => now < t || now - t < SWITCH_GUARD_WINDOW_NS,
            None => false,
        }
    }

    /// Takes a master-clock sample. A sample older than the last accepted one
    /// is discarded. While playing and outside the switch guard, the drift
    /// since the anchor is corrected: beyond the threshold by a seek to the
    /// server time at unity rate, else by the rate `rate_for_drift`; either
    /// way the anchor moves to the sample.
    pub fn on_time_sync(&mut self, server_ns: u64, now: u64) -> (a: DriftAction)
        requires
            old(self).wf(),
        ensures
            final(self).wf(),
            final(self).phase == old(self).phase,
            final(self).switching == old(self).switching,
            final(self).current_sound == old(self).current_sound,
            ({
                let stale = old(self).clock.is_some() && server_ns < old(self).clock.unwrap().0;
                let corrects = !stale && old(self).phase == Phase::Playing && !old(self).in_switch_guard(now);
                let d = drift_of(old(self).anchor_server, old(self).anchor_local, server_ns, now);
                let far = d > DRIFT_SEEK_THRESHOLD_NS as int || -d > DRIFT_SEEK_THRESHOLD_NS as int;
                &&& stale ==> *final(self) == *old(self) && a == DriftAction::Keep
                &&& !stale ==> final(self).clock == Some((server_ns, now))
                &&& !corrects ==> a == DriftAction::Keep
                    && final(self).rate_ppm == old(self).rate_ppm
                    && final(self).anchor_local == old(self).anchor_local
                    && final(self).anchor_server == old(self).anchor_server
                    && final(self).virtual_position == old(self).virtual_position
                &&& corrects ==> final(self).anchor_local == now && final(self).anchor_server == server_ns
                &&& corrects && far ==> final(self).rate_ppm == RATE_UNITY_PPM && (
                    if old(self).cached_duration > 0 {
                        a == DriftAction::Seek(start_position(server_ns, old(self).cached_duration) as u64)
                        && final(self).virtual_position == start_position(server_ns, old(self).cached_duration)
                    } else {
                        a == DriftAction::SeekServerTime(server_ns)
                    })
                &&& corrects && !far ==> final(self).rate_ppm == rate_for_drift(d)
                    && a == DriftAction::SetRate(final(self).rate_ppm)
                    && final(self).virtual_position == old(self).virtual_position
            }),
    {
        if let Some((last, _)) = self.clock {
            if server_ns < last {
                return DriftAction::Keep;
            }
        }
        self.clock = Some((server_ns, now));
        if self.phase != Phase::Playing || self.in_switch_guard_exec(now) {
            return DriftAction::Keep;
        }
        let drift: i128 = (server_ns as i128 - self.anchor_server as i128) - (now as i128 - self.anchor_local as i128);
        self.anchor_local = now;
        self.anchor_server = server_ns;
        if drift > DRIFT_SEEK_THRESHOLD_NS as i128 || -drift > DRIFT_SEEK_THRESHOLD_NS as i128 {
            self.rate_ppm = RATE_UNITY_PPM;
            match seek_target(server_ns, self.cached_duration) {
                Some(pos) => {
                    self.virtual_position = pos;
                    DriftAction::Seek(pos)
                }
                None => DriftAction::SeekServerTime(server_ns),
            }
        } else {
            let rate = rate_for_drift_exec(drift);
            self.rate_ppm = rate;
            DriftAction::SetRate(rate)
        }
    }

    /// While waiting for the first sync: once a clock sample is known, start
    /// the default track at the estimated server time; after the sync timeout
    /// without one, start it at server time zero.
    pub fn poll_start(&mut self, now: u64, default_sound: &String) -> (r: Option<StartPlan>)
        requires
            old(self).wf(),
        ensures
            final(self).wf(),
            final(self).phase == old(self).phase,
            old(self).phase != Phase::WaitingForFirstSync ==> r.is_none() && *final(self) == *old(self),
            old(self).phase == Phase::WaitingForFirstSync ==> {
                &&& old(self).clock.is_some() ==> r.is_some()
                    && r.unwrap().server_ns as int == clock_estimate(old(self).clock.unwrap(), now)
                &&& old(self).clock.is_none() ==> r.is_some()
                    == (now as int - old(self).wait_start as int > SYNC_TIMEOUT_NS as int)
                &&& old(self).clock.is_none() && r.is_some() ==> r.unwrap().server_ns == 0
                &&& r.is_some() ==> r.unwrap().sound@ == default_sound@
                    && final(self).current_sound@ == default_sound@
                &&& r.is_none() ==> *final(self) == *old(self)
            },
    {
        if self.phase != Phase::WaitingForFirstSync {
            return None;
        }
        let server = match self.estimate(now) {
            Some(s) => s,
            None => {
                if now > self.wait_start && now - self.wait_start > SYNC_TIMEOUT_NS {
                    0
                } else {
                    return None;
                }
            }
        };
        self.current_sound = default_sound.clone();
        self.active_sound = default_sound.clone();
        Some(StartPlan { sound: default_sound.clone(), server_ns: server })
    }

    /// The started pipeline is paused and its duration queried: playing begins
    /// at the start position of the master-clock estimate at `now` (server time
    /// zero when no sample is known), at unity rate, anchored there. Returns
    /// the position to seek to.
    pub fn begin_playback(&mut self, duration: Option<u64>, now: u64) -> (pos: u64)
        requires
            old(self).wf(),
            old(self).phase == Phase::WaitingForFirstSync,
        ensures
            final(self).wf(),
            final(self).phase == Phase::Playing,
            final(self).rate_ppm == RATE_UNITY_PPM,
            final(self).anchor_local == now,
            final(self).anchor_server as int == (match old(self).server_estimate(now) {
                Some(e) => e,
                None => 0,
            }),
            final(self).cached_duration == (match duration { Some(d) => d, None => 0 }),
            pos == start_position(final(self).anchor_server, final(self).cached_duration),
            final(self).virtual_position == pos,
            final(self).clock == old(self).clock,
            final(self).current_sound == old(self).current_sound,
            !final(self).switching,
    {
        let server = match self.estimate(now) {
            Some(s) => s,
            None => 0,
        };
        let d = match duration {
            Some(d) => d,
            None => 0,
        };
        let pos = match seek_target(server, d) {
            Some(p) => p,
            None => 0,
        };
        self.phase = Phase::Playing;
        self.rate_ppm = RATE_UNITY_PPM;
        self.anchor_local = now;
        self.anchor_server = server;
        self.cached_duration = d;
        self.last_duration_query = now;
        self.virtual_position = pos;
        self.last_position_update = now;
        self.switching = false;
        pos
    }

    /// Advances the integrated playhead by the local time since the last
    /// update, modulo the loop length when it is known.
    pub fn tick(&mut self, now: u64)
        requires
            old(self).wf(),
        ensures
            final(self).wf(),
            old(self).phase != Phase::Playing ==> *final(self) == *old(self),
            old(self).phase == Phase::Playing ==> {
                let elapsed = if now >= old(self).last_position_update {
                    now as int - old(self).last_position_update as int
                } else {
                    0
                };
                let advanced = old(self).virtual_position as int + elapsed;
                &&& final(self).last_position_update == (if now >= old(self).last_position_update { now } else { old(self).last_position_update })
                &&& old(self).cached_duration > 0 ==> final(self).virtual_position as int == advanced % (old(self).cached_duration as int)
                &&& old(self).cached_duration == 0 ==> final(self).virtual_position as int == (if advanced > u64::MAX as int { u64::MAX as int } else { advanced })
            },
            final(self).phase == old(self).phase,
            final(self).switching == old(self).switching,
            final(self).rate_ppm == old(self).rate_ppm,
            final(self).cached_duration == old(self).cached_duration,
            final(self).current_sound == old(self).current_sound,
    {
        if self.phase != Phase::Playing {
            return;
        }
        let elapsed: u64 = if now >= self.last_position_update { now - self.last_position_update } else { 0 };
        if now >= self.last_position_update {
            self.last_position_update = now;
        }
        if self.cached_duration > 0 {
            let sum: u128 = self.virtual_position as u128 + elapsed as u128;
            self.virtual_position = (sum % (self.cached_duration as u128)) as u64;
        } else {
            self.virtual_position = if self.virtual_position > u64::MAX - elapsed { u64::MAX } else { self.virtual_position + elapsed };
        }
    }

    /// Whether the loop length is due for a new query.
    pub fn duration_query_due(&self, now: u64) -> (r: bool)
        ensures
            r == (self.phase == Phase::Playing
                && now as int - self.last_duration_query as int > DURATION_QUERY_INTERVAL_NS as int),
    {
        self.phase == Phase::Playing && now > self.last_duration_query
            && now - self.last_duration_query > DURATION_QUERY_INTERVAL_NS
    }

    /// Records a duration query: a known, nonzero duration replaces the cached one.
    pub fn refresh_duration(&mut self, duration: Option<u64>, now: u64)
        requires
            old(self).wf(),
        ensures
            final(self).wf(),
            final(self).last_duration_query == now,
            final(self).cached_duration == (match duration {
                Some(d) => if d > 0 { d } else { old(self).cached_duration },
                None => old(self).cached_duration,
            }),
            final(self).cached_duration > 0 ==> final(self).virtual_position as int
                == old(self).virtual_position as int % final(self).cached_duration as int,
            final(self).phase == old(self).phase,
            final(self).switching == old(self).switching,
            final(self).rate_ppm == old(self).rate_ppm,
            final(self).current_sound == old(self).current_sound,
    {
        if let Some(d) = duration {
            if d > 0 {
                self.cached_duration = d;
            }
        }
        if self.cached_duration > 0 {
            self.virtual_position = self.virtual_position % self.cached_duration;
        }
        self.last_duration_query = now;
    }

    /// Starts a switch to `desired` when playing, not switching already, and the
    /// track differs: the standby is to be seeked to the integrated position.
    pub fn request_switch(&mut self, desired: &String) -> (r: Option<SwitchJob>)
        requires
            old(self).wf(),
        ensures
            final(self).wf(),
            r.is_some() == (old(self).phase == Phase::Playing && !old(self).switching
                && desired@ != old(self).current_sound@),
            r.is_some() ==> {
                &&& final(self).switching
                &&& final(self).current_sound@ == desired@
                &&& r.unwrap().sound@ == desired@
                &&& r.unwrap().seek_position_ns == old(self).virtual_position
                &&& final(self).virtual_position == old(self).virtual_position
                &&& final(self).active_sound == old(self).active_sound
            },
            r.is_none() ==> *final(self) == *old(self),
    {
        if self.phase != Phase::Playing || self.switching || *desired == self.current_sound {
            return None;
        }
        self.switching = true;
        self.current_sound = desired.clone();
        Some(SwitchJob { sound: desired.clone(), seek_position_ns: self.virtual_position })
    }

    /// The standby pipeline is ready. When the switch is still wanted, it is
    /// promoted: the anchor moves to `(now, master-clock estimate)` (or keeps
    /// its server time when no sample is known), the rate is unity, the guard
    /// window starts at `now`. Returns whether to promote; otherwise the
    /// caller discards the standby.
    pub fn complete_switch(&mut self, duration: Option<u64>, now: u64) -> (promote: bool)
        requires
            old(self).wf(),
        ensures
            final(self).wf(),
            promote == old(self).switching,
            !promote ==> *final(self) == *old(self),
            promote ==> {
                &&& !final(self).switching
                &&& final(self).phase == Phase::Playing
                &&& final(self).active_sound == old(self).current_sound
                &&& final(self).current_sound == old(self).current_sound
                &&& final(self).last_switch_end == Some(now)
                &&& final(self).rate_ppm == RATE_UNITY_PPM
                &&& final(self).anchor_local == now
                &&& final(self).anchor_server as int == (match old(self).server_estimate(now) {
                        Some(e) => e,
                        None => old(self).anchor_server as int,
                    })
                &&& final(self).cached_duration == (match duration {
                        Some(d) => if d > 0 { d } else { old(self).cached_duration },
                        None => old(self).cached_duration,
                    })
                &&& final(self).cached_duration > 0 ==> final(self).virtual_position as int
                        == old(self).virtual_position as int % final(self).cached_duration as int
            },
    {
        if !self.switching {
            return false;
        }
        if let Some(server) = self.estimate(now) {
            self.anchor_server = server;
        }
        self.anchor_local = now;
        self.rate_ppm = RATE_UNITY_PPM;
        self.active_sound = self.current_sound.clone();
        if let Some(d) = duration {
            if d > 0 {
                self.cached_duration = d;
            }
        }
        if self.cached_duration > 0 {
            self.virtual_position = self.virtual_position % self.cached_duration;
        }
        self.last_duration_query = now;
        self.switching = false;
        self.last_switch_end = Some(now);
        true
    }

    /// The standby could not be prepared: the active pipeline stays, and so
    /// does its track.
    pub fn abandon_switch(&mut self)
        requires
            old(self).wf(),
        ensures
            final(self).wf(),
            !final(self).switching,
            final(self).current_sound == old(self).active_sound,
            final(self).active_sound == old(self).active_sound,
            final(self).phase == old(self).phase,
            final(self).rate_ppm == old(self).rate_ppm,
    {
        self.switching = false;
        self.current_sound = self.active_sound.clone();
    }

    /// Applies this node's enable flag. Disabling stops everything; enabling a
    /// disabled node restarts from waiting for a fresh clock sample and owes
    /// the activation sound effect; enabling an enabled node changes nothing.
    pub fn on_enabled(&mut self, enabled: bool, now: u64) -> (a: EnableAction)
        requires
            old(self).wf(),
        ensures
            final(self).wf(),
            final(self).enabled == enabled,
            final(self).activation_pending == (old(self).activation_pending || is_true_edge(old(self).enabled, enabled)),
            !enabled ==> a == EnableAction::TearDown && final(self).phase == Phase::Disabled && !final(self).switching,
            is_true_edge(old(self).enabled, enabled) ==> {
                &&& a == EnableAction::Resume
                &&& final(self).phase == Phase::WaitingForFirstSync
                &&& final(self).clock.is_none()
                &&& final(self).wait_start == now
            },
            enabled && old(self).enabled ==> a == EnableAction::Nothing && *final(self) == *old(self),
    {
        if !enabled {
            self.enabled = false;
            self.phase = Phase::Disabled;
            self.switching = false;
            EnableAction::TearDown
        } else if !self.enabled {
            self.enabled = true;
            self.phase = Phase::WaitingForFirstSync;
            self.wait_start = now;
            self.clock = None;
            self.activation_pending = true;
            EnableAction::Resume
        } else {
            EnableAction::Nothing
        }
    }

    /// Takes the owed activation sound effect, unless a sound effect is playing.
    pub fn take_activation_se(&mut self, se_playing: bool) -> (play: bool)
        ensures
            play == (old(self).activation_pending && !se_playing),
            final(self).activation_pending == (old(self).activation_pending && !play),
            final(self).phase == old(self).phase,
            final(self).enabled == old(self).enabled,
            final(self).switching == old(self).switching,
            final(self).rate_ppm == old(self).rate_ppm,
            final(self).cached_duration == old(self).cached_duration,
            final(self).virtual_position == old(self).virtual_position,
    {
        if self.activation_pending && !se_playing {
            self.activation_pending = false;
            true
        } else {
            false
        }
    }
}

/// Every corrected rate lies within the rate bounds.
pub proof fn lemma_rate_in_bounds(drift: int)
    ensures
        RATE_MIN_PPM as int <= rate_for_drift(drift) <= RATE_MAX_PPM as int,
{
}

/// After a switch completes at `end`, the guard window holds off every
/// correction until `end + SWITCH_GUARD_WINDOW_NS`; over that window a
/// playhead at any rate within the bounds drifts from the master clock by at
/// most 0.1 x 0.4 s = 40 ms.
pub proof fn lemma_post_switch_drift_bound(e: PlaybackEngine, end: u64, t: u64)
    requires
        e.wf(),
        e.last_switch_end == Some(end),
        end <= t,
        t as int - end as int <= SWITCH_GUARD_WINDOW_NS as int,
    ensures
        (t as int - end as int) < (SWITCH_GUARD_WINDOW_NS as int) ==> e.in_switch_guard(t),
        -40_000_000 * (RATE_UNITY_PPM as int) <= playhead_error(e.rate_ppm as int, t as int - end as int),
        playhead_error(e.rate_ppm as int, t as int - end as int) <= 40_000_000 * (RATE_UNITY_PPM as int),
{
    let r = e.rate_ppm as int - RATE_UNITY_PPM as int;
    let dt = t as int - end as int;
    assert(-100_000 <= r <= 100_000);
    assert(0 <= dt <= 400_000_000);
    assert(r * dt <= 100_000 * 400_000_000) by (nonlinear_arith)
        requires -100_000 <= r <= 100_000, 0 <= dt <= 400_000_000;
    assert(r * dt >= -100_000 * 400_000_000) by (nonlinear_arith)
        requires -100_000 <= r <= 100_000, 0 <= dt <= 400_000_000;
}

/// An enable update repeated verbatim is never a second true edge, so the
/// activation sound effect is owed once per edge.
pub proof fn lemma_activation_once_per_edge(was_enabled: bool, flag: bool)
    ensures
        is_true_edge(was_enabled, flag) == (flag && !was_enabled),
        !is_true_edge(flag, flag),
{
}

/// The first clock sample, used when it arrives, starts playback at the server
/// time modulo the duration; without a sample the start is position zero.
pub proof fn lemma_first_sync_start(server_ns: u64, arrival: u64, duration: u64)
    ensures
        clock_estimate((server_ns, arrival), arrival) == server_ns as int,
        duration > 0 ==> start_position(server_ns, duration) == (server_ns % duration) as int,
        start_position(0, duration) == 0,
{
}

} // verus!
