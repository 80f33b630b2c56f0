//! Asset naming: which music track and which sound effect belong to a
//! location's place type, and how the player's points enter a track name.

use vstd::prelude::*;
use vstd::string::*;
use crate::text::{decimal, push_decimal, str_eq};

verus! {

/// Asset family of a place type; every value outside the known set maps to `main`.
pub open spec fn base_of(place_type: Seq<char>) -> Seq<char> {
    if place_type == "projection_mapping"@ {
        "main"@
    } else if place_type == "buddhas_bowl"@ {
        "hotoke"@
    } else if place_type == "jeweled_branch"@ {
        "eda"@
    } else if place_type == "fire_rat_robe"@ {
        "nezumi"@
    } else if place_type == "dragons_jewel"@ {
        "ryu"@
    } else if place_type == "swallows_cowry"@ {
        "kai"@
    } else {
        "main"@
    }
}

/// Points as they appear in a track name: never below one.
pub open spec fn effective_points(points: int) -> int {
    if points < 1 { 1 } else { points }
}

/// `tsukimi-<base>_<effective points>.mp3`.
pub open spec fn asset_name(base: Seq<char>, points: int) -> Seq<char> {
    "tsukimi-"@ + base + "_"@ + decimal(effective_points(points) as nat) + ".mp3"@
}

/// The track that a location of this place type plays at these points.
pub open spec fn sound_file_for(place_type: Seq<char>, points: int) -> Seq<char> {
    asset_name(base_of(place_type), points)
}

/// The track played when no location is selected.
pub open spec fn default_sound_for(points: int) -> Seq<char> {
    asset_name("main"@, points)
}

/// Place types whose proximity triggers an interaction.
pub open spec fn is_interactive(place_type: Seq<char>) -> bool {
    place_type == "fire_rat_robe"@ || place_type == "buddhas_bowl"@
}

/// Sound effect of an interactive place type.
pub open spec fn se_file_of(place_type: Seq<char>) -> Seq<char> {
    if place_type == "fire_rat_robe"@ { "se-nezumi.mp3"@ } else { "se-hotoke.mp3"@ }
}

/// Points at or below zero render as `1` in every track name.
pub proof fn lemma_nonpositive_points_render_as_one(base: Seq<char>, points: int)
    requires
        points <= 0,
    ensures
        asset_name(base, points) == "tsukimi-"@ + base + "_1.mp3"@,
{
    reveal_strlit("_");
    reveal_strlit("_1.mp3");
    reveal_strlit(".mp3");
    assert(decimal(1) == seq!['1']);
    assert("_"@ + decimal(1) + ".mp3"@ == "_1.mp3"@);
    assert(asset_name(base, points) == "tsukimi-"@ + base + ("_"@ + decimal(1) + ".mp3"@));
}

/// Asset family of a place type.
pub fn get_base_location_type_from_place_type(place_type: &str) -> (r: &'static str)
    ensures
        r@ == base_of(place_type@),
{
    if str_eq(place_type, "projection_mapping") {
        "main"
    } else if str_eq(place_type, "buddhas_bowl") {
        "hotoke"
    } else if str_eq(place_type, "jeweled_branch") {
        "eda"
    } else if str_eq(place_type, "fire_rat_robe") {
        "nezumi"
    } else if str_eq(place_type, "dragons_jewel") {
        "ryu"
    } else if str_eq(place_type, "swallows_cowry") {
        "kai"
    } else {
        "main"
    }
}

/// Track name for an asset family and a points value.
pub fn get_sound_file_with_points(location_type: &str, points: i32) -> (r: String)
    ensures
        r@ == asset_name(location_type@, points as int),
{
    let effective: u32 = if points < 1 { 1 } else { points as u32 };
    let mut s = String::from_str("tsukimi-");
    s.append(location_type);
    s.append("_");
    push_decimal(&mut s, effective);
    s.append(".mp3");
    s
}

/// Track name for a place type and a points value.
pub fn get_sound_file_from_place_type_and_points(place_type: &str, points: i32) -> (r: String)
    ensures
        r@ == sound_file_for(place_type@, points as int),
{
    let base = get_base_location_type_from_place_type(place_type);
    get_sound_file_with_points(base, points)
}

/// The default track, `tsukimi-main_<effective points>.mp3`.
pub fn default_sound(points: i32) -> (r: String)
    ensures
        r@ == default_sound_for(points as int),
{
    get_sound_file_with_points("main", points)
}

/// Sound effect of a place type, if it is interactive.
pub fn get_se_file_from_place_type(place_type: &str) -> (r: Option<&'static str>)
    ensures
        r.is_some() == is_interactive(place_type@),
        r.is_some() ==> r.unwrap()@ == se_file_of(place_type@),
{
    if str_eq(place_type, "fire_rat_robe") {
        Some("se-nezumi.mp3")
    } else if str_eq(place_type, "buddhas_bowl") {
        proof {
            reveal_strlit("fire_rat_robe");
            reveal_strlit("buddhas_bowl");
        }
        Some("se-hotoke.mp3")
    } else {
        None
    }
}

/// Whether proximity to a location of this place type triggers an interaction.
pub fn is_interactive_place_type(place_type: &str) -> (r: bool)
    ensures
        r == is_interactive(place_type@),
{
    str_eq(place_type, "fire_rat_robe") || str_eq(place_type, "buddhas_bowl")
}

} // verus!
