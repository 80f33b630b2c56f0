use tsukimi::events::{DeviceInfo, MoonlightEntry};
use tsukimi::locations::{LocationAssignment, LocationTable};
use tsukimi::session::SessionState;

fn assign(address: &str, place_type: &str) -> LocationAssignment {
    LocationAssignment { address: address.to_string(), place_type: place_type.to_string() }
}

fn sound(s: &SessionState, address: &str) -> Option<String> {
    s.locations.sound_of(address).cloned()
}

fn place(s: &SessionState, address: &str) -> Option<String> {
    s.locations.place_type_of(address).cloned()
}

fn me(address: &str) -> SessionState {
    let mut s = SessionState::new();
    s.set_my_address(address.to_string());
    s
}

#[test]
fn location_update_resolves_tracks() {
    let mut s = SessionState::new();
    s.apply_location_update(&vec![assign("B", "buddhas_bowl"), assign("F", "fire_rat_robe")]);
    assert_eq!(sound(&s, "B").as_deref(), Some("tsukimi-hotoke_1.mp3"));
    assert_eq!(sound(&s, "F").as_deref(), Some("tsukimi-nezumi_1.mp3"));
    assert_eq!(place(&s, "F").as_deref(), Some("fire_rat_robe"));
    assert_eq!(s.locations.len(), 2);
}

#[test]
fn location_update_removes_unlisted_addresses() {
    let mut s = SessionState::new();
    s.apply_location_update(&vec![assign("A", "dragons_jewel"), assign("B", "buddhas_bowl")]);
    s.apply_location_update(&vec![assign("B", "swallows_cowry")]);
    assert_eq!(sound(&s, "A"), None);
    assert_eq!(place(&s, "A"), None);
    assert_eq!(sound(&s, "B").as_deref(), Some("tsukimi-kai_1.mp3"));
    assert_eq!(place(&s, "B").as_deref(), Some("swallows_cowry"));
    assert_eq!(s.locations.len(), 1);
}

#[test]
fn location_update_last_listing_wins() {
    let t = LocationTable::from_update(&vec![assign("A", "dragons_jewel"), assign("A", "jeweled_branch")], 2);
    assert_eq!(t.len(), 1);
    assert_eq!(t.sound_of("A").map(|x| x.as_str()), Some("tsukimi-eda_2.mp3"));
}

#[test]
fn location_update_twice_is_idempotent() {
    let update = vec![assign("A", "dragons_jewel"), assign("B", "buddhas_bowl"), assign("C", "unknown")];
    let mut s = SessionState::new();
    s.apply_location_update(&update);
    let once: Vec<(String, String, String)> = s.locations.entries.iter()
        .map(|e| (e.address.clone(), e.place_type.clone(), e.sound_file.clone())).collect();
    s.apply_location_update(&update);
    let twice: Vec<(String, String, String)> = s.locations.entries.iter()
        .map(|e| (e.address.clone(), e.place_type.clone(), e.sound_file.clone())).collect();
    assert_eq!(once, twice);
    assert_eq!(sound(&s, "C").as_deref(), Some("tsukimi-main_1.mp3"));
}

#[test]
fn sound_map_and_place_types_share_keys() {
    let mut s = SessionState::new();
    s.apply_location_update(&vec![assign("A", "x"), assign("B", "buddhas_bowl")]);
    for a in ["A", "B", "C"] {
        assert_eq!(sound(&s, a).is_some(), place(&s, a).is_some());
    }
}

#[test]
fn point_update_for_other_user_is_ignored() {
    let mut s = me("ME");
    s.apply_location_update(&vec![assign("B", "buddhas_bowl")]);
    assert!(s.apply_point_update("OTHER", 5).is_none());
    assert_eq!(s.points, 0);
    assert!(!s.points_initialized);
    assert_eq!(sound(&s, "B").as_deref(), Some("tsukimi-hotoke_1.mp3"));
}

#[test]
fn point_update_without_identity_is_ignored() {
    let mut s = SessionState::new();
    assert!(s.apply_point_update("", 5).is_none());
    assert_eq!(s.points, 0);
}

#[test]
fn first_point_update_is_silent_then_gains_play_se() {
    let mut s = me("ME");
    s.apply_location_update(&vec![assign("B", "buddhas_bowl")]);
    assert!(s.apply_point_update("ME", 2).is_none());
    assert_eq!(s.points, 2);
    assert!(s.points_initialized);
    assert_eq!(sound(&s, "B").as_deref(), Some("tsukimi-hotoke_2.mp3"));
    let se = s.apply_point_update("ME", 3).expect("points rose");
    assert_eq!(se.file_path, "se-point.mp3");
    assert_eq!(sound(&s, "B").as_deref(), Some("tsukimi-hotoke_3.mp3"));
    assert!(s.apply_point_update("ME", 1).is_none());
    assert_eq!(s.points, 1);
    assert_eq!(sound(&s, "B").as_deref(), Some("tsukimi-hotoke_1.mp3"));
}

#[test]
fn equal_points_cause_no_se_and_no_rewrite() {
    let mut s = me("ME");
    s.apply_location_update(&vec![assign("B", "buddhas_bowl")]);
    assert!(s.apply_point_update("ME", 4).is_none());
    assert!(s.apply_point_update("ME", 4).is_none());
    assert_eq!(s.points, 4);
    assert_eq!(sound(&s, "B").as_deref(), Some("tsukimi-hotoke_4.mp3"));
}

#[test]
fn first_update_equal_to_initial_points_does_not_initialize() {
    let mut s = me("ME");
    assert!(s.apply_point_update("ME", 0).is_none());
    assert!(!s.points_initialized);
    assert!(s.apply_point_update("ME", 1).is_none());
    assert!(s.points_initialized);
}

#[test]
fn identity_is_written_once() {
    let mut s = me("FIRST");
    s.set_my_address("SECOND".to_string());
    assert_eq!(s.user_id(), "FIRST");
    assert!(s.is_my_id("FIRST"));
    assert!(!s.is_my_id("SECOND"));
}

#[test]
fn moonlight_picks_first_entry_for_this_node() {
    let s = me("ME");
    let entries = vec![
        MoonlightEntry { device: "X".to_string(), address: "Y".to_string(), enabled: true },
        MoonlightEntry { device: "D".to_string(), address: "ME".to_string(), enabled: false },
        MoonlightEntry { device: "ME".to_string(), address: "".to_string(), enabled: true },
    ];
    let st = s.moonlight_state(&entries).expect("listed");
    assert!(!st.enabled);
    assert_eq!(st.target_device_id, "ME");
}

#[test]
fn moonlight_matches_by_device_name() {
    let s = me("ME");
    let entries = vec![MoonlightEntry { device: "ME".to_string(), address: "zz".to_string(), enabled: true }];
    assert!(s.moonlight_state(&entries).expect("listed").enabled);
}

#[test]
fn moonlight_not_listed_or_unknown_identity_is_ignored() {
    let s = me("ME");
    let entries = vec![MoonlightEntry { device: "X".to_string(), address: "Y".to_string(), enabled: false }];
    assert!(s.moonlight_state(&entries).is_none());
    let unknown = SessionState::new();
    let mine = vec![MoonlightEntry { device: "".to_string(), address: "".to_string(), enabled: false }];
    assert!(unknown.moonlight_state(&mine).is_none());
}

#[test]
fn uplink_keeps_registered_observations_in_order() {
    let mut s = SessionState::new();
    s.apply_location_update(&vec![assign("A", "x"), assign("B", "buddhas_bowl")]);
    let batch = vec![
        DeviceInfo { address: "B".to_string(), rssi: -60, last_seen_ns: 1 },
        DeviceInfo { address: "Z".to_string(), rssi: -40, last_seen_ns: 2 },
        DeviceInfo { address: "A".to_string(), rssi: -75, last_seen_ns: 3 },
    ];
    let req = s.uplink_request(&batch);
    assert_eq!(req.user_id, "");
    let got: Vec<(String, i32)> = req.locations.iter().map(|l| (l.address.clone(), l.rssi)).collect();
    assert_eq!(got, vec![("B".to_string(), -60), ("A".to_string(), -75)]);
}

#[test]
fn uplink_carries_identity() {
    let s = me("AA:BB");
    let req = s.uplink_request(&vec![DeviceInfo { address: "Q".to_string(), rssi: -1, last_seen_ns: 0 }]);
    assert_eq!(req.user_id, "AA:BB");
    assert!(req.locations.is_empty());
}
