use tsukimi::assets::default_sound;
use tsukimi::engine::{
    is_for_node, rate_for_drift_exec, seek_target, DriftAction, EnableAction, Phase, PlaybackEngine,
};
use tsukimi::events::SystemEnabledState;
use tsukimi::fabric::EnableGate;

const MS: u64 = 1_000_000;
const S: u64 = 1_000_000_000;

fn playing_at(server: u64, now: u64, duration: u64) -> PlaybackEngine {
    let mut e = PlaybackEngine::new(0, default_sound(0));
    assert!(e.on_time_sync(server, now) == DriftAction::Keep);
    let plan = e.poll_start(now, &default_sound(0)).expect("sample known");
    assert_eq!(plan.server_ns, server);
    e.begin_playback(Some(duration), now);
    e
}

#[test]
fn cold_start_without_sync_starts_default_at_zero() {
    let mut e = PlaybackEngine::new(0, default_sound(0));
    assert!(e.poll_start(4 * S, &default_sound(0)).is_none());
    assert!(e.poll_start(5 * S, &default_sound(0)).is_none());
    let plan = e.poll_start(5 * S + 1, &default_sound(0)).expect("sync timeout");
    assert_eq!(plan.sound, "tsukimi-main_1.mp3");
    assert_eq!(plan.server_ns, 0);
    let pos = e.begin_playback(Some(200 * S), 5 * S + 1);
    assert_eq!(pos, 0);
    assert_eq!(e.phase, Phase::Playing);
    assert_eq!(e.rate_ppm, 1_000_000);
    assert!(!e.take_activation_se(false));
}

#[test]
fn first_sync_seeks_to_server_time_modulo_duration() {
    let mut e = PlaybackEngine::new(0, default_sound(0));
    assert!(e.on_time_sync(1_000 * S + 7, 2 * S) == DriftAction::Keep);
    let plan = e.poll_start(2 * S, &default_sound(0)).expect("sample known");
    assert_eq!(plan.server_ns, 1_000 * S + 7);
    let pos = e.begin_playback(Some(300 * S), 2 * S);
    assert_eq!(pos, 100 * S + 7);
    assert_eq!(e.virtual_position, 100 * S + 7);
}

#[test]
fn start_uses_clock_estimate_at_start_time() {
    let mut e = PlaybackEngine::new(0, default_sound(0));
    e.on_time_sync(50 * S, S);
    let plan = e.poll_start(S + 20 * MS, &default_sound(0)).expect("sample known");
    assert_eq!(plan.server_ns, 50 * S + 20 * MS);
    let pos = e.begin_playback(Some(40 * S), S + 520 * MS);
    assert_eq!(pos, 10 * S + 520 * MS);
    assert_eq!(e.anchor_server, 50 * S + 520 * MS);
    assert_eq!(e.anchor_local, S + 520 * MS);
}

#[test]
fn unknown_duration_starts_at_zero() {
    let mut e = PlaybackEngine::new(0, default_sound(0));
    e.on_time_sync(123, 0);
    let plan = e.poll_start(0, &default_sound(0)).expect("sample known");
    assert_eq!(plan.server_ns, 123);
    assert_eq!(e.begin_playback(None, 0), 0);
    assert_eq!(seek_target(123, 0), None);
    assert_eq!(seek_target(123, 100), Some(23));
}

#[test]
fn drift_recovery_sets_rate_then_returns_to_unity() {
    let mut e = playing_at(0, 0, 600 * S);
    // Anchored at server 0: the first sample seen while starting is (0, 0).
    let a = e.on_time_sync(10 * S + 500 * MS, 10 * S);
    assert!(a == DriftAction::SetRate(1_100_000));
    assert_eq!(e.rate_ppm, 1_100_000);
    let b = e.on_time_sync(12 * S + 500 * MS, 12 * S);
    assert!(b == DriftAction::SetRate(1_000_000));
    assert_eq!(e.rate_ppm, 1_000_000);
}

#[test]
fn small_drift_gives_proportional_rate() {
    let mut e = playing_at(0, 0, 600 * S);
    assert!(e.on_time_sync(10 * S + 100 * MS, 10 * S) == DriftAction::SetRate(1_050_000));
    assert!(e.on_time_sync(20 * S, 20 * S) == DriftAction::SetRate(950_000));
}

#[test]
fn large_drift_seeks_to_server_time() {
    let mut e = playing_at(0, 0, 100 * S);
    let a = e.on_time_sync(250 * S, 10 * S);
    assert!(a == DriftAction::Seek(50 * S));
    assert_eq!(e.rate_ppm, 1_000_000);
    assert_eq!(e.virtual_position, 50 * S);
    assert_eq!(e.anchor_server, 250 * S);
    assert_eq!(e.anchor_local, 10 * S);
}

#[test]
fn drift_of_exactly_three_seconds_adjusts_rate() {
    let mut e = playing_at(0, 0, 100 * S);
    assert!(e.on_time_sync(13 * S, 10 * S) == DriftAction::SetRate(1_100_000));
    assert!(e.on_time_sync(20 * S, 20 * S) == DriftAction::SetRate(900_000));
}

#[test]
fn stale_samples_are_discarded() {
    let mut e = playing_at(100 * S, 0, 600 * S);
    assert!(e.on_time_sync(99 * S, 5 * S) == DriftAction::Keep);
    assert_eq!(e.anchor_server, 100 * S);
    assert_eq!(e.clock, Some((100 * S, 0)));
}

#[test]
fn rate_is_clamped() {
    assert_eq!(rate_for_drift_exec(0), 1_000_000);
    assert_eq!(rate_for_drift_exec(500_000_000), 1_100_000);
    assert_eq!(rate_for_drift_exec(-500_000_000), 900_000);
    assert_eq!(rate_for_drift_exec(199_999_999), 1_099_999);
    assert_eq!(rate_for_drift_exec(-1_999), 1_000_000);
    assert_eq!(rate_for_drift_exec(-2_000), 999_999);
    assert_eq!(rate_for_drift_exec(i128::MAX), 1_100_000);
}

#[test]
fn virtual_position_wraps_at_duration() {
    let mut e = playing_at(0, 0, 10 * S);
    e.tick(4 * S);
    assert_eq!(e.virtual_position, 4 * S);
    e.tick(13 * S);
    assert_eq!(e.virtual_position, 3 * S);
    e.tick(12 * S);
    assert_eq!(e.virtual_position, 3 * S);
}

#[test]
fn duration_refresh_at_most_once_per_second() {
    let mut e = playing_at(0, 0, 10 * S);
    assert!(!e.duration_query_due(S));
    assert!(e.duration_query_due(S + 1));
    e.tick(9 * S);
    e.refresh_duration(Some(4 * S), S + 1);
    assert_eq!(e.cached_duration, 4 * S);
    assert_eq!(e.virtual_position, S);
    e.refresh_duration(Some(0), 3 * S);
    assert_eq!(e.cached_duration, 4 * S);
    e.refresh_duration(None, 4 * S);
    assert_eq!(e.cached_duration, 4 * S);
}

#[test]
fn gapless_switch_seeks_standby_to_virtual_position() {
    let mut e = playing_at(0, 0, 600 * S);
    e.tick(42 * S);
    assert_eq!(e.virtual_position, 42 * S);
    let desired = "tsukimi-hotoke_1.mp3".to_string();
    let job = e.request_switch(&desired).expect("new track");
    assert_eq!(job.sound, desired);
    assert_eq!(job.seek_position_ns, 42 * S);
    assert!(e.switching);
    assert!(e.request_switch(&"tsukimi-ryu_1.mp3".to_string()).is_none());
    e.tick(42 * S + 300 * MS);
    let before = e.virtual_position;
    assert!(e.complete_switch(Some(600 * S), 42 * S + 300 * MS));
    assert!(!e.switching);
    assert_eq!(e.active_sound, desired);
    assert_eq!(e.last_switch_end, Some(42 * S + 300 * MS));
    e.tick(42 * S + 310 * MS);
    assert!(e.virtual_position > before);
    assert!(!e.take_activation_se(false));
}

#[test]
fn same_track_needs_no_switch() {
    let mut e = playing_at(0, 0, 600 * S);
    assert!(e.request_switch(&"tsukimi-main_1.mp3".to_string()).is_none());
    assert!(!e.complete_switch(Some(S), S));
}

#[test]
fn guard_window_suppresses_correction() {
    let mut e = playing_at(0, 0, 600 * S);
    e.request_switch(&"tsukimi-kai_1.mp3".to_string()).expect("new track");
    assert!(e.on_time_sync(S + 900 * MS, S) == DriftAction::Keep);
    assert!(e.complete_switch(Some(600 * S), 2 * S));
    assert_eq!(e.anchor_local, 2 * S);
    assert_eq!(e.anchor_server, 2 * S + 900 * MS);
    assert!(e.on_time_sync(3 * S, 2 * S + 399 * MS) == DriftAction::Keep);
    assert_eq!(e.rate_ppm, 1_000_000);
    let a = e.on_time_sync(3 * S + 300 * MS, 2 * S + 400 * MS);
    assert!(a == DriftAction::SetRate(1_000_000));
}

#[test]
fn abandoned_switch_keeps_active_track() {
    let mut e = playing_at(0, 0, 600 * S);
    e.request_switch(&"tsukimi-kai_1.mp3".to_string()).expect("new track");
    e.abandon_switch();
    assert!(!e.switching);
    assert_eq!(e.current_sound, "tsukimi-main_1.mp3");
}

#[test]
fn disable_enable_cycle_plays_activation_once() {
    let mut e = playing_at(0, 0, 600 * S);
    let mut gate = EnableGate::new();
    let me = Some("ME".to_string());
    let off = SystemEnabledState { enabled: false, target_device_id: "ME".to_string() };
    let on = SystemEnabledState { enabled: true, target_device_id: "ME".to_string() };
    assert!(is_for_node(&off, &me));
    assert!(e.on_enabled(false, S) == EnableAction::TearDown);
    gate.on_state(&off, &me);
    assert!(!gate.should_forward());
    assert_eq!(e.phase, Phase::Disabled);
    assert!(e.poll_start(100 * S, &default_sound(0)).is_none());
    assert!(e.on_enabled(true, 2 * S) == EnableAction::Resume);
    gate.on_state(&on, &me);
    assert!(gate.should_forward());
    assert_eq!(e.phase, Phase::WaitingForFirstSync);
    assert!(e.on_enabled(true, 3 * S) == EnableAction::Nothing);
    assert!(!e.take_activation_se(true));
    assert!(e.take_activation_se(false));
    assert!(!e.take_activation_se(false));
    assert!(e.poll_start(7 * S, &default_sound(0)).is_none());
    let plan = e.poll_start(7 * S + 1, &default_sound(0)).expect("timeout after re-enable");
    assert_eq!(plan.server_ns, 0);
}

#[test]
fn enable_messages_for_other_nodes_are_ignored() {
    let mut gate = EnableGate::new();
    let other = SystemEnabledState { enabled: false, target_device_id: "OTHER".to_string() };
    assert!(!is_for_node(&other, &Some("ME".to_string())));
    assert!(!is_for_node(&other, &None));
    gate.on_state(&other, &Some("ME".to_string()));
    assert!(gate.should_forward());
}
