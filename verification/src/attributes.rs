//! The six core attribute scores and their random generation.

use vstd::prelude::*;

use crate::dice::roll_ndx;

verus! {

/// One of the six core attributes a skill can be based on.
#[derive(Debug, Clone, PartialEq, Eq, Structural)]
pub enum Attribute {
    Strength,
    Constitution,
    Agility,
    Intelligence,
    Willpower,
    Charisma,
}

/// The six rolled attribute scores of a character.
#[derive(Debug, Clone, PartialEq, Eq, Structural)]
pub struct Attributes {
    pub strength: u8,
    pub constitution: u8,
    pub agility: u8,
    pub intelligence: u8,
    pub willpower: u8,
    pub charisma: u8,
}

/// Every attribute score lies in the valid range [3, 18].
pub open spec fn attributes_valid(a: Attributes) -> bool {
    &&& 3 <= a.strength <= 18
    &&& 3 <= a.constitution <= 18
    &&& 3 <= a.agility <= 18
    &&& 3 <= a.intelligence <= 18
    &&& 3 <= a.willpower <= 18
    &&& 3 <= a.charisma <= 18
}

/// Rolls each of the six attributes independently as the sum of three
/// six-sided dice, so each score lies in [3, 18].
pub fn generate_attributes() -> (a: Attributes)
    ensures
        attributes_valid(a),
{
    Attributes {
        strength: roll_ndx(3, 6),
        constitution: roll_ndx(3, 6),
        agility: roll_ndx(3, 6),
        intelligence: roll_ndx(3, 6),
        willpower: roll_ndx(3, 6),
        charisma: roll_ndx(3, 6),
    }
}

} // verus!
