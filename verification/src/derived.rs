//! Secondary ratings computed from the rolled attributes.

use vstd::prelude::*;

use crate::attributes::Attributes;

verus! {

/// Secondary stats derived once from the attributes.
#[derive(Debug, Clone, PartialEq)]
pub struct DerivedRatings {
    pub movement: u8,
    pub damage_bonus_str: String,
    pub damage_bonus_agl: String,
    pub hit_points_max: u8,
    pub willpower_points_max: u8,
}

/// The damage-bonus label for one attribute score, as a three-tier step
/// function. One consistent threshold table is used for both the strength
/// and the agility axis: below 13 gives no bonus, 13 to 15 gives the low
/// bonus die, and 16 or more gives the high bonus die.
pub open spec fn damage_bonus_label(score: u8) -> Seq<char> {
    if score >= 16 {
        "D6"@
    } else if score >= 13 {
        "D4"@
    } else {
        "-"@
    }
}

/// Computes the derived ratings from the attributes: hit points equal
/// constitution, willpower points equal willpower, movement is a fixed
/// constant, and the two damage bonuses follow the tier table of
/// `damage_bonus_label`.
pub fn calculate_derived_ratings(attributes: &Attributes) -> (r: DerivedRatings)
    ensures
        r.hit_points_max == attributes.constitution,
        r.willpower_points_max == attributes.willpower,
        r.movement == 10,
        r.damage_bonus_str@ == damage_bonus_label(attributes.strength),
        r.damage_bonus_agl@ == damage_bonus_label(attributes.agility),
{
    let damage_bonus_str = if attributes.strength >= 16 {
        "D6".to_string()
    } else if attributes.strength >= 13 {
        "D4".to_string()
    } else {
        "-".to_string()
    };
    let damage_bonus_agl = if attributes.agility >= 16 {
        "D6".to_string()
    } else if attributes.agility >= 13 {
        "D4".to_string()
    } else {
        "-".to_string()
    };
    DerivedRatings {
        movement: 10,
        damage_bonus_str,
        damage_bonus_agl,
        hit_points_max: attributes.constitution,
        willpower_points_max: attributes.willpower,
    }
}

} // verus!
