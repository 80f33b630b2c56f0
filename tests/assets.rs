use tsukimi::assets::{
    default_sound, get_base_location_type_from_place_type, get_se_file_from_place_type,
    get_sound_file_from_place_type_and_points, get_sound_file_with_points, is_interactive_place_type,
};

#[test]
fn base_types_cover_the_closed_set() {
    assert_eq!(get_base_location_type_from_place_type("projection_mapping"), "main");
    assert_eq!(get_base_location_type_from_place_type("buddhas_bowl"), "hotoke");
    assert_eq!(get_base_location_type_from_place_type("jeweled_branch"), "eda");
    assert_eq!(get_base_location_type_from_place_type("fire_rat_robe"), "nezumi");
    assert_eq!(get_base_location_type_from_place_type("dragons_jewel"), "ryu");
    assert_eq!(get_base_location_type_from_place_type("swallows_cowry"), "kai");
}

#[test]
fn unknown_place_type_maps_to_main() {
    assert_eq!(get_base_location_type_from_place_type("moon_palace"), "main");
    assert_eq!(get_base_location_type_from_place_type(""), "main");
    assert_eq!(get_base_location_type_from_place_type("buddhas_bowl "), "main");
}

#[test]
fn zero_points_render_as_one() {
    assert_eq!(get_sound_file_from_place_type_and_points("buddhas_bowl", 0), "tsukimi-hotoke_1.mp3");
    assert_eq!(get_sound_file_with_points("main", 0), "tsukimi-main_1.mp3");
    assert_eq!(default_sound(0), "tsukimi-main_1.mp3");
}

#[test]
fn negative_points_render_as_one() {
    assert_eq!(get_sound_file_from_place_type_and_points("dragons_jewel", -7), "tsukimi-ryu_1.mp3");
    assert_eq!(get_sound_file_with_points("kai", i32::MIN), "tsukimi-kai_1.mp3");
}

#[test]
fn points_are_rendered_in_decimal() {
    assert_eq!(get_sound_file_from_place_type_and_points("fire_rat_robe", 3), "tsukimi-nezumi_3.mp3");
    assert_eq!(get_sound_file_from_place_type_and_points("jeweled_branch", 10), "tsukimi-eda_10.mp3");
    assert_eq!(get_sound_file_with_points("main", 1234), "tsukimi-main_1234.mp3");
    assert_eq!(get_sound_file_with_points("main", i32::MAX), "tsukimi-main_2147483647.mp3");
    assert_eq!(default_sound(7), "tsukimi-main_7.mp3");
}

#[test]
fn sound_effects_of_interactive_place_types() {
    assert_eq!(get_se_file_from_place_type("fire_rat_robe"), Some("se-nezumi.mp3"));
    assert_eq!(get_se_file_from_place_type("buddhas_bowl"), Some("se-hotoke.mp3"));
    assert_eq!(get_se_file_from_place_type("dragons_jewel"), None);
    assert!(is_interactive_place_type("fire_rat_robe"));
    assert!(is_interactive_place_type("buddhas_bowl"));
    assert!(!is_interactive_place_type("projection_mapping"));
    assert!(!is_interactive_place_type(""));
}
