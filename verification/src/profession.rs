//! The profession catalog tags and the per-profession ability and spell
//! lists.

use vstd::prelude::*;

use crate::dice::rand_range_u8;

verus! {

/// One of the five playable professions.
#[derive(Debug, Clone, PartialEq, Eq, Structural)]
pub enum Profession {
    MageElementalist,
    Hunter,
    Knight,
    Thief,
    Fighter,
}

/// The profession selected by a uniform draw of `i` in [0, 4].
pub open spec fn profession_of_index(i: u8) -> Profession {
    if i == 0 {
        Profession::MageElementalist
    } else if i == 1 {
        Profession::Hunter
    } else if i == 2 {
        Profession::Knight
    } else if i == 3 {
        Profession::Thief
    } else {
        Profession::Fighter
    }
}

impl Profession {
    /// Picks one of the five professions uniformly at random.
    pub fn random() -> (p: Profession)
        ensures
            exists|i: u8| 0 <= i <= 4 && p == profession_of_index(i),
    {
        let i = rand_range_u8(0, 4);
        let p = match i {
            0 => Profession::MageElementalist,
            1 => Profession::Hunter,
            2 => Profession::Knight,
            3 => Profession::Thief,
            _ => Profession::Fighter,
        };
        proof {
            assert(0 <= i <= 4 && p == profession_of_index(i));
        }
        p
    }
}

/// The fixed ability and spell lists of each profession: the elementalist
/// mage gets spells and magic tricks and no heroic ability, every other
/// profession gets exactly one heroic ability and no spells.
pub open spec fn abilities_ok(p: Profession, heroic: Seq<String>, spells: Seq<String>) -> bool {
    match p {
        Profession::MageElementalist => heroic.len() == 0 && spells.len() == 6
            && spells[0]@ == "Fireball (Rank 1, Elementalist, Word/Gesture, Action, 20m, Instant. 2D6 damage. +1 PL = +D6 dmg or another fireball)"@
            && spells[1]@ == "Pillar (Rank 1, Elementalist, Word/Gesture, Action, 10m, Shift. Raises 3m high/1m wide pillar. +1 PL = +3m height)"@
            && spells[2]@ == "Gust of Wind (Rank 1, Elementalist, Word/Gesture, Action, 10m cone, Instant. Pushes 2D4m, 2D4 bludgeoning. Vs swarm 2D6. +1 PL = +1 die)"@
            && spells[3]@ == "Heat/Chill (Magic Trick: Area 10m becomes warm/cold. Protects vs cold for 1 shift)"@
            && spells[4]@ == "Puff of Smoke (Magic Trick: Impressive puff of smoke. Boon to SNEAKING in some situations)"@
            && spells[5]@ == "Ignite (Magic Trick: Light/extinguish candle/torch/lantern within 10m)"@,
        Profession::Hunter => spells.len() == 0 && heroic.len() == 1
            && heroic[0]@ == "Twin Shot (Cost 3 WP. When attacking with a bow, shoot two arrows. One attack roll with bane. Damage rolled separately. Can target same or different targets.)"@,
        Profession::Knight => spells.len() == 0 && heroic.len() == 1
            && heroic[0]@ == "Guardian (Cost 2 WP. If you and ally are within 2m of same enemy, and enemy attacks ally, force enemy to attack you instead. Out of turn, not an action.)"@,
        Profession::Thief => spells.len() == 0 && heroic.len() == 1
            && heroic[0]@ == "Backstabbing (Cost 3 WP. Melee attack vs enemy also within 2m of an ally. Counts as sneak attack: no dodge/parry, boon to roll, +1 damage die. Subtle weapon only. Not an action to activate.)"@,
        Profession::Fighter => spells.len() == 0 && heroic.len() == 1
            && heroic[0]@ == "Veteran (Cost 1 WP. Activate at start of combat round to retain initiative card from previous round. Not an action.)"@,
    }
}

/// Fills the heroic-ability and spell lists from the profession template.
/// Any previous contents are discarded, so repeated assignment for the
/// same profession yields identical lists.
pub fn assign_profession_abilities_and_spells(
    profession: &Profession,
    heroic_abilities: &mut Vec<String>,
    spells: &mut Vec<String>,
)
    ensures
        abilities_ok(*profession, final(heroic_abilities)@, final(spells)@),
{
    heroic_abilities.clear();
    spells.clear();
    match profession {
        Profession::MageElementalist => {
            spells.push("Fireball (Rank 1, Elementalist, Word/Gesture, Action, 20m, Instant. 2D6 damage. +1 PL = +D6 dmg or another fireball)".to_string());
            spells.push("Pillar (Rank 1, Elementalist, Word/Gesture, Action, 10m, Shift. Raises 3m high/1m wide pillar. +1 PL = +3m height)".to_string());
            spells.push("Gust of Wind (Rank 1, Elementalist, Word/Gesture, Action, 10m cone, Instant. Pushes 2D4m, 2D4 bludgeoning. Vs swarm 2D6. +1 PL = +1 die)".to_string());
            spells.push("Heat/Chill (Magic Trick: Area 10m becomes warm/cold. Protects vs cold for 1 shift)".to_string());
            spells.push("Puff of Smoke (Magic Trick: Impressive puff of smoke. Boon to SNEAKING in some situations)".to_string());
            spells.push("Ignite (Magic Trick: Light/extinguish candle/torch/lantern within 10m)".to_string());
        }
        Profession::Hunter => {
            heroic_abilities.push("Twin Shot (Cost 3 WP. When attacking with a bow, shoot two arrows. One attack roll with bane. Damage rolled separately. Can target same or different targets.)".to_string());
        }
        Profession::Knight => {
            heroic_abilities.push("Guardian (Cost 2 WP. If you and ally are within 2m of same enemy, and enemy attacks ally, force enemy to attack you instead. Out of turn, not an action.)".to_string());
        }
        Profession::Thief => {
            heroic_abilities.push("Backstabbing (Cost 3 WP. Melee attack vs enemy also within 2m of an ally. Counts as sneak attack: no dodge/parry, boon to roll, +1 damage die. Subtle weapon only. Not an action to activate.)".to_string());
        }
        Profession::Fighter => {
            heroic_abilities.push("Veteran (Cost 1 WP. Activate at start of combat round to retain initiative card from previous round. Not an action.)".to_string());
        }
    }
}

/// Two ability and spell bundles produced for the same profession are
/// identical text for text: template resolution is deterministic.
pub proof fn lemma_abilities_deterministic(
    p: Profession,
    h1: Seq<String>,
    s1: Seq<String>,
    h2: Seq<String>,
    s2: Seq<String>,
)
    requires
        abilities_ok(p, h1, s1),
        abilities_ok(p, h2, s2),
    ensures
        h1.len() == h2.len(),
        s1.len() == s2.len(),
        forall|i: int| 0 <= i < h1.len() ==> h1[i]@ == h2[i]@,
        forall|i: int| 0 <= i < s1.len() ==> s1[i]@ == s2[i]@,
{
}

} // verus!
