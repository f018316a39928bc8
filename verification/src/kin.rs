//! The lineage catalog: six fixed kin entries with innate-ability text.

use vstd::prelude::*;

use crate::dice::rand_range_u8;

verus! {

/// One of the six playable lineages.
#[derive(Debug, Clone, PartialEq, Eq, Structural)]
pub enum Kin {
    Human,
    Halfling,
    Dwarf,
    Elf,
    Mallard,
    Wolfkin,
}

/// The kin entry selected by a uniform draw of `i` in [0, 5].
pub open spec fn kin_of_index(i: u8) -> Kin {
    if i == 0 {
        Kin::Human
    } else if i == 1 {
        Kin::Halfling
    } else if i == 2 {
        Kin::Dwarf
    } else if i == 3 {
        Kin::Elf
    } else if i == 4 {
        Kin::Mallard
    } else {
        Kin::Wolfkin
    }
}

/// The fixed innate-ability texts of each kin: one description for every
/// kin except the mallard, which has two.
pub open spec fn kin_abilities_ok(kin: Kin, r: Seq<String>) -> bool {
    match kin {
        Kin::Human => r.len() == 1
            && r[0]@ == "Adaptive (You can choose to make a skill roll using another skill of your choice. Cost: 3 WP. GM has final say.)"@,
        Kin::Halfling => r.len() == 1
            && r[0]@ == "Hard to Catch (Activate when dodging, get a boon to EVADE. Cost: 3 WP)"@,
        Kin::Dwarf => r.len() == 1
            && r[0]@ == "(Dwarf innate ability not in pre-gens, needs to be found in full rules - Placeholder: Robust)"@,
        Kin::Elf => r.len() == 1
            && r[0]@ == "Inner Peace (Meditate during stretch rest for D6 extra HP, D6 extra WP, and recover an additional condition. Unresponsive during meditation.)"@,
        Kin::Mallard => r.len() == 2
            && r[0]@ == "Ill-tempered (Activate when making a skill roll for a boon. Become Angry. Cannot use for INT or INT-based skills. Cost: 3 WP)"@
            && r[1]@ == "Webbed Feet (Boon to SWIMMING rolls. Move at full speed in/under water.)"@,
        Kin::Wolfkin => r.len() == 1
            && r[0]@ == "Hunting Instincts (Designate prey by sight/scent. Action in combat. Follow scent for a day. Spend 1 WP for boon on attack vs prey. Cost: 3 WP to designate)"@,
    }
}

impl Kin {
    /// Returns the fixed innate-ability descriptions of this kin.
    pub fn innate_abilities(&self) -> (r: Vec<String>)
        ensures
            kin_abilities_ok(*self, r@),
    {
        match self {
            Kin::Human => vec!["Adaptive (You can choose to make a skill roll using another skill of your choice. Cost: 3 WP. GM has final say.)".to_string()],
            Kin::Halfling => vec!["Hard to Catch (Activate when dodging, get a boon to EVADE. Cost: 3 WP)".to_string()],
            Kin::Dwarf => vec!["(Dwarf innate ability not in pre-gens, needs to be found in full rules - Placeholder: Robust)".to_string()],
            Kin::Elf => vec!["Inner Peace (Meditate during stretch rest for D6 extra HP, D6 extra WP, and recover an additional condition. Unresponsive during meditation.)".to_string()],
            Kin::Mallard => vec![
                "Ill-tempered (Activate when making a skill roll for a boon. Become Angry. Cannot use for INT or INT-based skills. Cost: 3 WP)".to_string(),
                "Webbed Feet (Boon to SWIMMING rolls. Move at full speed in/under water.)".to_string(),
            ],
            Kin::Wolfkin => vec!["Hunting Instincts (Designate prey by sight/scent. Action in combat. Follow scent for a day. Spend 1 WP for boon on attack vs prey. Cost: 3 WP to designate)".to_string()],
        }
    }

    /// Picks one of the six kin uniformly at random.
    pub fn random() -> (k: Kin)
        ensures
            exists|i: u8| 0 <= i <= 5 && k == kin_of_index(i),
    {
        let i = rand_range_u8(0, 5);
        let k = match i {
            0 => Kin::Human,
            1 => Kin::Halfling,
            2 => Kin::Dwarf,
            3 => Kin::Elf,
            4 => Kin::Mallard,
            _ => Kin::Wolfkin,
        };
        proof {
            assert(0 <= i <= 5 && k == kin_of_index(i));
        }
        k
    }
}

} // verus!
