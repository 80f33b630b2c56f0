use tsukimi::events::DeviceInfo;
use tsukimi::interaction::{interaction_url, InteractionRouter, InteractionState, ProximityTracker};
use tsukimi::locations::{LocationAssignment, LocationTable};

const S: u64 = 1_000_000_000;

fn table() -> LocationTable {
    LocationTable::from_update(
        &vec![
            LocationAssignment { address: "B".to_string(), place_type: "fire_rat_robe".to_string() },
            LocationAssignment { address: "P".to_string(), place_type: "projection_mapping".to_string() },
        ],
        0,
    )
}

fn obs(address: &str, rssi: i16) -> DeviceInfo {
    DeviceInfo { address: address.to_string(), rssi, last_seen_ns: 0 }
}

#[test]
fn cooldown_is_ten_seconds_per_place_type() {
    let mut s = InteractionState::new();
    assert_eq!(s.interaction_cooldown, 10 * S);
    assert!(s.can_interact("fire_rat_robe", 100 * S));
    assert!(!s.can_interact("fire_rat_robe", 109 * S));
    assert!(s.can_interact("buddhas_bowl", 105 * S));
    assert!(s.can_interact("fire_rat_robe", 110 * S));
}

#[test]
fn cooldown_treats_earlier_time_as_within_cooldown() {
    let mut s = InteractionState::new();
    assert!(s.can_interact("buddhas_bowl", 50 * S));
    assert!(!s.can_interact("buddhas_bowl", 40 * S));
}

#[test]
fn crossing_needs_previous_at_or_below_threshold() {
    let mut p = ProximityTracker::new();
    assert!(p.observe("B", -44));
    assert!(!p.observe("B", -40));
    assert!(!p.observe("B", -45));
    assert!(p.observe("B", -44));
    assert!(!p.observe("B", -50));
}

#[test]
fn proximity_se_fires_once_per_cooldown() {
    let t = table();
    let mut r = InteractionRouter::new();
    let me = Some("ME".to_string());
    let samples: [i16; 5] = [-50, -44, -40, -44, -50];
    let mut fired = Vec::new();
    for (i, rssi) in samples.iter().enumerate() {
        if let Some(x) = r.on_observation(&t, &obs("B", *rssi), &me, 100 * S + i as u64) {
            fired.push((i, x));
        }
    }
    assert_eq!(fired.len(), 1);
    assert_eq!(fired[0].0, 1);
    assert_eq!(fired[0].1.se.file_path, "se-nezumi.mp3");
    assert_eq!(fired[0].1.place_type, "fire_rat_robe");
    assert_eq!(fired[0].1.report_url.as_deref(), Some("https://tsukimi.paon.dev/players/ME/increment"));
    assert!(r.on_observation(&t, &obs("B", -40), &me, 103 * S).is_none());
    assert!(r.on_observation(&t, &obs("B", -50), &me, 103 * S + 1).is_none());
    assert!(r.on_observation(&t, &obs("B", -40), &me, 113 * S).is_some());
}

#[test]
fn non_interactive_or_unregistered_locations_never_fire() {
    let t = table();
    let mut r = InteractionRouter::new();
    assert!(r.on_observation(&t, &obs("P", -30), &None, 0).is_none());
    assert!(r.on_observation(&t, &obs("Z", -30), &None, 0).is_none());
}

#[test]
fn interaction_without_identity_has_no_report() {
    let t = table();
    let mut r = InteractionRouter::new();
    let x = r.on_observation(&t, &obs("B", -30), &None, 0).expect("crossing");
    assert!(x.report_url.is_none());
}

#[test]
fn interaction_url_names_the_player() {
    assert_eq!(interaction_url("AA:BB:CC"), "https://tsukimi.paon.dev/players/AA:BB:CC/increment");
}
