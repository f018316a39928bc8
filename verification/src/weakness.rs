//! The weakness table: nineteen fixed personality-flaw entries.

use vstd::prelude::*;

use crate::dice::roll_d;

verus! {

/// One of the nineteen personality flaws. The tabletop table has a
/// twentieth "choose freely or roll again" row; automated generation
/// always resolves to one of these concrete entries.
#[derive(Debug, Clone, PartialEq, Eq, Structural)]
pub enum Weakness {
    Arrogant,
    Greedy,
    Suspicious,
    ShortTempered,
    Stubborn,
    Vain,
    Cowardly,
    Jealous,
    Loudmouthed,
    Lazy,
    Fainthearted,
    Superstitious,
    Gullible,
    Bigoted,
    Reckless,
    Gluttonous,
    Foolhardy,
    Forgetful,
    Curious,
}

/// The weakness selected by a die roll of `v` in [1, 19].
pub open spec fn weakness_of_roll(v: u8) -> Weakness {
    if v == 1 {
        Weakness::Arrogant
    } else if v == 2 {
        Weakness::Greedy
    } else if v == 3 {
        Weakness::Suspicious
    } else if v == 4 {
        Weakness::ShortTempered
    } else if v == 5 {
        Weakness::Stubborn
    } else if v == 6 {
        Weakness::Vain
    } else if v == 7 {
        Weakness::Cowardly
    } else if v == 8 {
        Weakness::Jealous
    } else if v == 9 {
        Weakness::Loudmouthed
    } else if v == 10 {
        Weakness::Lazy
    } else if v == 11 {
        Weakness::Fainthearted
    } else if v == 12 {
        Weakness::Superstitious
    } else if v == 13 {
        Weakness::Gullible
    } else if v == 14 {
        Weakness::Bigoted
    } else if v == 15 {
        Weakness::Reckless
    } else if v == 16 {
        Weakness::Gluttonous
    } else if v == 17 {
        Weakness::Foolhardy
    } else if v == 18 {
        Weakness::Forgetful
    } else {
        Weakness::Curious
    }
}

impl Weakness {
    /// Draws a nineteen-sided die and maps the result to the corresponding
    /// table entry, so the draw always resolves to one of the nineteen
    /// concrete weaknesses.
    pub fn random() -> (w: Weakness)
        ensures
            exists|v: u8| 1 <= v <= 19 && w == weakness_of_roll(v),
    {
        let v = roll_d(19);
        let w = match v {
            1 => Weakness::Arrogant,
            2 => Weakness::Greedy,
            3 => Weakness::Suspicious,
            4 => Weakness::ShortTempered,
            5 => Weakness::Stubborn,
            6 => Weakness::Vain,
            7 => Weakness::Cowardly,
            8 => Weakness::Jealous,
            9 => Weakness::Loudmouthed,
            10 => Weakness::Lazy,
            11 => Weakness::Fainthearted,
            12 => Weakness::Superstitious,
            13 => Weakness::Gullible,
            14 => Weakness::Bigoted,
            15 => Weakness::Reckless,
            16 => Weakness::Gluttonous,
            17 => Weakness::Foolhardy,
            18 => Weakness::Forgetful,
            _ => Weakness::Curious,
        };
        proof {
            assert(1 <= v <= 19 && w == weakness_of_roll(v));
        }
        w
    }
}

} // verus!
