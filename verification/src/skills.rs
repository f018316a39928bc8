//! The fixed skill enumeration, the per-profession skill-level table, and
//! the completeness law for the produced skill lists.

use vstd::prelude::*;

use crate::attributes::Attribute;
use crate::profession::Profession;

verus! {

/// A named proficiency. The first thirty entries are the general and
/// weapon skills that every profession assigns a level to; elementalism is
/// the casting skill of the elementalist mage alone.
#[derive(Debug, Clone, PartialEq, Eq, Hash, Structural)]
pub enum SkillName {
    Acrobatics,
    Awareness,
    Bartering,
    BeastLore,
    Bluffing,
    Bushcraft,
    Crafting,
    Evade,
    Healing,
    HuntingAndFishing,
    Languages,
    MythsAndLegends,
    Performance,
    Persuasion,
    Riding,
    Seamanship,
    SleightOfHand,
    Sneaking,
    SpotHidden,
    Swimming,
    Axes,
    Bows,
    Brawling,
    Crossbows,
    Hammers,
    Knives,
    Slings,
    Spears,
    Staves,
    Swords,
    Elementalism,
}

/// The attribute each skill is based on.
pub open spec fn base_attribute_of(n: SkillName) -> Attribute {
    match n {
        SkillName::Acrobatics => Attribute::Agility,
        SkillName::Awareness => Attribute::Intelligence,
        SkillName::Bartering => Attribute::Charisma,
        SkillName::BeastLore => Attribute::Intelligence,
        SkillName::Bluffing => Attribute::Charisma,
        SkillName::Bushcraft => Attribute::Intelligence,
        SkillName::Crafting => Attribute::Strength,
        SkillName::Evade => Attribute::Agility,
        SkillName::Healing => Attribute::Intelligence,
        SkillName::HuntingAndFishing => Attribute::Agility,
        SkillName::Languages => Attribute::Intelligence,
        SkillName::MythsAndLegends => Attribute::Intelligence,
        SkillName::Performance => Attribute::Charisma,
        SkillName::Persuasion => Attribute::Charisma,
        SkillName::Riding => Attribute::Agility,
        SkillName::Seamanship => Attribute::Intelligence,
        SkillName::SleightOfHand => Attribute::Agility,
        SkillName::Sneaking => Attribute::Agility,
        SkillName::SpotHidden => Attribute::Intelligence,
        SkillName::Swimming => Attribute::Agility,
        SkillName::Axes => Attribute::Strength,
        SkillName::Bows => Attribute::Agility,
        SkillName::Brawling => Attribute::Strength,
        SkillName::Crossbows => Attribute::Agility,
        SkillName::Hammers => Attribute::Strength,
        SkillName::Knives => Attribute::Agility,
        SkillName::Slings => Attribute::Agility,
        SkillName::Spears => Attribute::Strength,
        SkillName::Staves => Attribute::Agility,
        SkillName::Swords => Attribute::Strength,
        SkillName::Elementalism => Attribute::Intelligence,
    }
}

impl SkillName {
    /// Returns the attribute this skill is based on.
    pub fn get_base_attribute(&self) -> (a: Attribute)
        ensures
            a == base_attribute_of(*self),
    {
        match self {
            SkillName::Acrobatics => Attribute::Agility,
            SkillName::Awareness => Attribute::Intelligence,
            SkillName::Bartering => Attribute::Charisma,
            SkillName::BeastLore => Attribute::Intelligence,
            SkillName::Bluffing => Attribute::Charisma,
            SkillName::Bushcraft => Attribute::Intelligence,
            SkillName::Crafting => Attribute::Strength,
            SkillName::Evade => Attribute::Agility,
            SkillName::Healing => Attribute::Intelligence,
            SkillName::HuntingAndFishing => Attribute::Agility,
            SkillName::Languages => Attribute::Intelligence,
            SkillName::MythsAndLegends => Attribute::Intelligence,
            SkillName::Performance => Attribute::Charisma,
            SkillName::Persuasion => Attribute::Charisma,
            SkillName::Riding => Attribute::Agility,
            SkillName::Seamanship => Attribute::Intelligence,
            SkillName::SleightOfHand => Attribute::Agility,
            SkillName::Sneaking => Attribute::Agility,
            SkillName::SpotHidden => Attribute::Intelligence,
            SkillName::Swimming => Attribute::Agility,
            SkillName::Axes => Attribute::Strength,
            SkillName::Bows => Attribute::Agility,
            SkillName::Brawling => Attribute::Strength,
            SkillName::Crossbows => Attribute::Agility,
            SkillName::Hammers => Attribute::Strength,
            SkillName::Knives => Attribute::Agility,
            SkillName::Slings => Attribute::Agility,
            SkillName::Spears => Attribute::Strength,
            SkillName::Staves => Attribute::Agility,
            SkillName::Swords => Attribute::Strength,
            SkillName::Elementalism => Attribute::Intelligence,
        }
    }
}

/// A skill the character holds, at an explicit level.
#[derive(Debug, Clone, PartialEq)]
pub struct Skill {
    pub name: SkillName,
    pub description: String,
    pub level: u8,
}

/// Whether a skill belongs to the fixed enumeration that every profession
/// assigns (everything but the mage-only casting skill).
pub open spec fn is_general_skill(n: SkillName) -> bool {
    n != SkillName::Elementalism
}

/// The canonical order of the thirty general and weapon skills.
pub open spec fn general_skill_order() -> Seq<SkillName> {
    seq![
        SkillName::Acrobatics,
        SkillName::Awareness,
        SkillName::Bartering,
        SkillName::BeastLore,
        SkillName::Bluffing,
        SkillName::Bushcraft,
        SkillName::Crafting,
        SkillName::Evade,
        SkillName::Healing,
        SkillName::HuntingAndFishing,
        SkillName::Languages,
        SkillName::MythsAndLegends,
        SkillName::Performance,
        SkillName::Persuasion,
        SkillName::Riding,
        SkillName::Seamanship,
        SkillName::SleightOfHand,
        SkillName::Sneaking,
        SkillName::SpotHidden,
        SkillName::Swimming,
        SkillName::Axes,
        SkillName::Bows,
        SkillName::Brawling,
        SkillName::Crossbows,
        SkillName::Hammers,
        SkillName::Knives,
        SkillName::Slings,
        SkillName::Spears,
        SkillName::Staves,
        SkillName::Swords,
    ]
}

/// The position of a skill in the canonical order (with the casting skill
/// after the thirty general skills).
pub open spec fn skill_index(n: SkillName) -> int {
    match n {
        SkillName::Acrobatics => 0,
        SkillName::Awareness => 1,
        SkillName::Bartering => 2,
        SkillName::BeastLore => 3,
        SkillName::Bluffing => 4,
        SkillName::Bushcraft => 5,
        SkillName::Crafting => 6,
        SkillName::Evade => 7,
        SkillName::Healing => 8,
        SkillName::HuntingAndFishing => 9,
        SkillName::Languages => 10,
        SkillName::MythsAndLegends => 11,
        SkillName::Performance => 12,
        SkillName::Persuasion => 13,
        SkillName::Riding => 14,
        SkillName::Seamanship => 15,
        SkillName::SleightOfHand => 16,
        SkillName::Sneaking => 17,
        SkillName::SpotHidden => 18,
        SkillName::Swimming => 19,
        SkillName::Axes => 20,
        SkillName::Bows => 21,
        SkillName::Brawling => 22,
        SkillName::Crossbows => 23,
        SkillName::Hammers => 24,
        SkillName::Knives => 25,
        SkillName::Slings => 26,
        SkillName::Spears => 27,
        SkillName::Staves => 28,
        SkillName::Swords => 29,
        SkillName::Elementalism => 30,
    }
}

/// The order of the skill list a profession produces: the thirty general
/// skills, followed by the casting skill for the elementalist mage.
pub open spec fn skill_order(p: Profession) -> Seq<SkillName> {
    if p == Profession::MageElementalist {
        general_skill_order().push(SkillName::Elementalism)
    } else {
        general_skill_order()
    }
}

/// The level the elementalist mage template assigns to each skill.
pub open spec fn mage_skill_level(n: SkillName) -> u8 {
    match n {
        SkillName::Acrobatics => 4,
        SkillName::Awareness => 14,
        SkillName::Bartering => 6,
        SkillName::BeastLore => 14,
        SkillName::Bluffing => 4,
        SkillName::Bushcraft => 6,
        SkillName::Crafting => 4,
        SkillName::Evade => 10,
        SkillName::Healing => 14,
        SkillName::HuntingAndFishing => 4,
        SkillName::Languages => 5,
        SkillName::MythsAndLegends => 6,
        SkillName::Performance => 4,
        SkillName::Persuasion => 6,
        SkillName::Riding => 4,
        SkillName::Seamanship => 4,
        SkillName::SleightOfHand => 4,
        SkillName::Sneaking => 4,
        SkillName::SpotHidden => 5,
        SkillName::Swimming => 4,
        SkillName::Axes => 4,
        SkillName::Bows => 5,
        SkillName::Brawling => 4,
        SkillName::Crossbows => 5,
        SkillName::Hammers => 4,
        SkillName::Knives => 5,
        SkillName::Slings => 5,
        SkillName::Spears => 4,
        SkillName::Staves => 10,
        SkillName::Swords => 4,
        SkillName::Elementalism => 14,
    }
}

/// The level the hunter template assigns to each skill.
pub open spec fn hunter_skill_level(n: SkillName) -> u8 {
    match n {
        SkillName::Acrobatics => 14,
        SkillName::Awareness => 12,
        SkillName::Bartering => 5,
        SkillName::BeastLore => 6,
        SkillName::Bluffing => 5,
        SkillName::Bushcraft => 12,
        SkillName::Crafting => 6,
        SkillName::Evade => 14,
        SkillName::Healing => 6,
        SkillName::HuntingAndFishing => 14,
        SkillName::Languages => 6,
        SkillName::MythsAndLegends => 6,
        SkillName::Performance => 5,
        SkillName::Persuasion => 5,
        SkillName::Riding => 7,
        SkillName::Seamanship => 6,
        SkillName::SleightOfHand => 7,
        SkillName::Sneaking => 14,
        SkillName::SpotHidden => 6,
        SkillName::Swimming => 14,
        SkillName::Axes => 6,
        SkillName::Bows => 14,
        SkillName::Brawling => 6,
        SkillName::Crossbows => 7,
        SkillName::Hammers => 6,
        SkillName::Knives => 14,
        SkillName::Slings => 7,
        SkillName::Spears => 6,
        SkillName::Staves => 7,
        SkillName::Swords => 12,
        SkillName::Elementalism => 0,
    }
}

/// The level the knight template assigns to each skill.
pub open spec fn knight_skill_level(n: SkillName) -> u8 {
    match n {
        SkillName::Acrobatics => 5,
        SkillName::Awareness => 10,
        SkillName::Bartering => 6,
        SkillName::BeastLore => 5,
        SkillName::Bluffing => 6,
        SkillName::Bushcraft => 5,
        SkillName::Crafting => 7,
        SkillName::Evade => 5,
        SkillName::Healing => 5,
        SkillName::HuntingAndFishing => 5,
        SkillName::Languages => 5,
        SkillName::MythsAndLegends => 10,
        SkillName::Performance => 12,
        SkillName::Persuasion => 12,
        SkillName::Riding => 5,
        SkillName::Seamanship => 5,
        SkillName::SleightOfHand => 5,
        SkillName::Sneaking => 5,
        SkillName::SpotHidden => 5,
        SkillName::Swimming => 5,
        SkillName::Axes => 14,
        SkillName::Bows => 5,
        SkillName::Brawling => 14,
        SkillName::Crossbows => 10,
        SkillName::Hammers => 14,
        SkillName::Knives => 5,
        SkillName::Slings => 5,
        SkillName::Spears => 14,
        SkillName::Staves => 5,
        SkillName::Swords => 14,
        SkillName::Elementalism => 0,
    }
}

/// The level the thief template assigns to each skill.
pub open spec fn thief_skill_level(n: SkillName) -> u8 {
    match n {
        SkillName::Acrobatics => 14,
        SkillName::Awareness => 12,
        SkillName::Bartering => 5,
        SkillName::BeastLore => 6,
        SkillName::Bluffing => 10,
        SkillName::Bushcraft => 6,
        SkillName::Crafting => 4,
        SkillName::Evade => 14,
        SkillName::Healing => 6,
        SkillName::HuntingAndFishing => 7,
        SkillName::Languages => 6,
        SkillName::MythsAndLegends => 6,
        SkillName::Performance => 5,
        SkillName::Persuasion => 5,
        SkillName::Riding => 7,
        SkillName::Seamanship => 6,
        SkillName::SleightOfHand => 14,
        SkillName::Sneaking => 14,
        SkillName::SpotHidden => 12,
        SkillName::Swimming => 7,
        SkillName::Axes => 4,
        SkillName::Bows => 7,
        SkillName::Brawling => 4,
        SkillName::Crossbows => 7,
        SkillName::Hammers => 4,
        SkillName::Knives => 14,
        SkillName::Slings => 7,
        SkillName::Spears => 4,
        SkillName::Staves => 7,
        SkillName::Swords => 4,
        SkillName::Elementalism => 0,
    }
}

/// The level the fighter template assigns to each skill.
pub open spec fn fighter_skill_level(n: SkillName) -> u8 {
    match n {
        SkillName::Acrobatics => 12,
        SkillName::Awareness => 5,
        SkillName::Bartering => 4,
        SkillName::BeastLore => 5,
        SkillName::Bluffing => 4,
        SkillName::Bushcraft => 5,
        SkillName::Crafting => 7,
        SkillName::Evade => 12,
        SkillName::Healing => 5,
        SkillName::HuntingAndFishing => 6,
        SkillName::Languages => 5,
        SkillName::MythsAndLegends => 5,
        SkillName::Performance => 4,
        SkillName::Persuasion => 4,
        SkillName::Riding => 6,
        SkillName::Seamanship => 5,
        SkillName::SleightOfHand => 6,
        SkillName::Sneaking => 12,
        SkillName::SpotHidden => 5,
        SkillName::Swimming => 6,
        SkillName::Axes => 14,
        SkillName::Bows => 6,
        SkillName::Brawling => 14,
        SkillName::Crossbows => 6,
        SkillName::Hammers => 14,
        SkillName::Knives => 6,
        SkillName::Slings => 6,
        SkillName::Spears => 14,
        SkillName::Staves => 6,
        SkillName::Swords => 14,
        SkillName::Elementalism => 0,
    }
}

/// The full skill-level table: the level a profession template assigns to
/// a skill.
pub open spec fn skill_level(p: Profession, n: SkillName) -> u8 {
    match p {
        Profession::MageElementalist => mage_skill_level(n),
        Profession::Hunter => hunter_skill_level(n),
        Profession::Knight => knight_skill_level(n),
        Profession::Thief => thief_skill_level(n),
        Profession::Fighter => fighter_skill_level(n),
    }
}

/// The entry at position `i` of a profession's skill list: the skill in
/// canonical order, at the level of the table, with no extra description.
pub open spec fn skill_entry_ok(p: Profession, e: Skill, i: int) -> bool {
    &&& e.name == skill_order(p)[i]
    &&& e.level == skill_level(p, e.name)
    &&& e.description@.len() == 0
}

/// The whole skill list a profession template produces.
pub open spec fn skills_ok(p: Profession, s: Seq<Skill>) -> bool {
    &&& s.len() == skill_order(p).len()
    &&& forall|i: int| 0 <= i < s.len() ==> #[trigger] skill_entry_ok(p, s[i], i)
}

/// Appends the next skill entry of the profession's list, keeping every
/// entry so far in canonical order at its table level.
fn add_skill(skills: &mut Vec<Skill>, name: SkillName, level: u8, Ghost(p): Ghost<Profession>)
    requires
        old(skills)@.len() < skill_order(p).len(),
        skill_order(p)[old(skills)@.len() as int] == name,
        skill_level(p, name) == level,
        forall|i: int| 0 <= i < old(skills)@.len() ==> #[trigger] skill_entry_ok(
            p,
            old(skills)@[i],
            i,
        ),
    ensures
        final(skills)@.len() == old(skills)@.len() + 1,
        forall|i: int| 0 <= i < final(skills)@.len() ==> #[trigger] skill_entry_ok(
            p,
            final(skills)@[i],
            i,
        ),
{
    proof {
        reveal_strlit("");
    }
    skills.push(Skill { name, description: "".to_string(), level });
}

/// Produces the complete skill list of the given profession: every general
/// and weapon skill in canonical order at the level of the template table,
/// and for the elementalist mage the casting skill as a final entry.
pub fn assign_skills_for_profession(profession: &Profession) -> (skills: Vec<Skill>)
    ensures
        skills_ok(*profession, skills@),
{
    let mut skills: Vec<Skill> = Vec::new();
    match profession {
        Profession::MageElementalist => {
            add_skill(&mut skills, SkillName::Acrobatics, 4, Ghost(Profession::MageElementalist));
            add_skill(&mut skills, SkillName::Awareness, 14, Ghost(Profession::MageElementalist));
            add_skill(&mut skills, SkillName::Bartering, 6, Ghost(Profession::MageElementalist));
            add_skill(&mut skills, SkillName::BeastLore, 14, Ghost(Profession::MageElementalist));
            add_skill(&mut skills, SkillName::Bluffing, 4, Ghost(Profession::MageElementalist));
            add_skill(&mut skills, SkillName::Bushcraft, 6, Ghost(Profession::MageElementalist));
            add_skill(&mut skills, SkillName::Crafting, 4, Ghost(Profession::MageElementalist));
            add_skill(&mut skills, SkillName::Evade, 10, Ghost(Profession::MageElementalist));
            add_skill(&mut skills, SkillName::Healing, 14, Ghost(Profession::MageElementalist));
            add_skill(&mut skills, SkillName::HuntingAndFishing, 4, Ghost(Profession::MageElementalist));
            add_skill(&mut skills, SkillName::Languages, 5, Ghost(Profession::MageElementalist));
            add_skill(&mut skills, SkillName::MythsAndLegends, 6, Ghost(Profession::MageElementalist));
            add_skill(&mut skills, SkillName::Performance, 4, Ghost(Profession::MageElementalist));
            add_skill(&mut skills, SkillName::Persuasion, 6, Ghost(Profession::MageElementalist));
            add_skill(&mut skills, SkillName::Riding, 4, Ghost(Profession::MageElementalist));
            add_skill(&mut skills, SkillName::Seamanship, 4, Ghost(Profession::MageElementalist));
            add_skill(&mut skills, SkillName::SleightOfHand, 4, Ghost(Profession::MageElementalist));
            add_skill(&mut skills, SkillName::Sneaking, 4, Ghost(Profession::MageElementalist));
            add_skill(&mut skills, SkillName::SpotHidden, 5, Ghost(Profession::MageElementalist));
            add_skill(&mut skills, SkillName::Swimming, 4, Ghost(Profession::MageElementalist));
            add_skill(&mut skills, SkillName::Axes, 4, Ghost(Profession::MageElementalist));
            add_skill(&mut skills, SkillName::Bows, 5, Ghost(Profession::MageElementalist));
            add_skill(&mut skills, SkillName::Brawling, 4, Ghost(Profession::MageElementalist));
            add_skill(&mut skills, SkillName::Crossbows, 5, Ghost(Profession::MageElementalist));
            add_skill(&mut skills, SkillName::Hammers, 4, Ghost(Profession::MageElementalist));
            add_skill(&mut skills, SkillName::Knives, 5, Ghost(Profession::MageElementalist));
            add_skill(&mut skills, SkillName::Slings, 5, Ghost(Profession::MageElementalist));
            add_skill(&mut skills, SkillName::Spears, 4, Ghost(Profession::MageElementalist));
            add_skill(&mut skills, SkillName::Staves, 10, Ghost(Profession::MageElementalist));
            add_skill(&mut skills, SkillName::Swords, 4, Ghost(Profession::MageElementalist));
            add_skill(&mut skills, SkillName::Elementalism, 14, Ghost(Profession::MageElementalist));
        }
        Profession::Hunter => {
            add_skill(&mut skills, SkillName::Acrobatics, 14, Ghost(Profession::Hunter));
            add_skill(&mut skills, SkillName::Awareness, 12, Ghost(Profession::Hunter));
            add_skill(&mut skills, SkillName::Bartering, 5, Ghost(Profession::Hunter));
            add_skill(&mut skills, SkillName::BeastLore, 6, Ghost(Profession::Hunter));
            add_skill(&mut skills, SkillName::Bluffing, 5, Ghost(Profession::Hunter));
            add_skill(&mut skills, SkillName::Bushcraft, 12, Ghost(Profession::Hunter));
            add_skill(&mut skills, SkillName::Crafting, 6, Ghost(Profession::Hunter));
            add_skill(&mut skills, SkillName::Evade, 14, Ghost(Profession::Hunter));
            add_skill(&mut skills, SkillName::Healing, 6, Ghost(Profession::Hunter));
            add_skill(&mut skills, SkillName::HuntingAndFishing, 14, Ghost(Profession::Hunter));
            add_skill(&mut skills, SkillName::Languages, 6, Ghost(Profession::Hunter));
            add_skill(&mut skills, SkillName::MythsAndLegends, 6, Ghost(Profession::Hunter));
            add_skill(&mut skills, SkillName::Performance, 5, Ghost(Profession::Hunter));
            add_skill(&mut skills, SkillName::Persuasion, 5, Ghost(Profession::Hunter));
            add_skill(&mut skills, SkillName::Riding, 7, Ghost(Profession::Hunter));
            add_skill(&mut skills, SkillName::Seamanship, 6, Ghost(Profession::Hunter));
            add_skill(&mut skills, SkillName::SleightOfHand, 7, Ghost(Profession::Hunter));
            add_skill(&mut skills, SkillName::Sneaking, 14, Ghost(Profession::Hunter));
            add_skill(&mut skills, SkillName::SpotHidden, 6, Ghost(Profession::Hunter));
            add_skill(&mut skills, SkillName::Swimming, 14, Ghost(Profession::Hunter));
            add_skill(&mut skills, SkillName::Axes, 6, Ghost(Profession::Hunter));
            add_skill(&mut skills, SkillName::Bows, 14, Ghost(Profession::Hunter));
            add_skill(&mut skills, SkillName::Brawling, 6, Ghost(Profession::Hunter));
            add_skill(&mut skills, SkillName::Crossbows, 7, Ghost(Profession::Hunter));
            add_skill(&mut skills, SkillName::Hammers, 6, Ghost(Profession::Hunter));
            add_skill(&mut skills, SkillName::Knives, 14, Ghost(Profession::Hunter));
            add_skill(&mut skills, SkillName::Slings, 7, Ghost(Profession::Hunter));
            add_skill(&mut skills, SkillName::Spears, 6, Ghost(Profession::Hunter));
            add_skill(&mut skills, SkillName::Staves, 7, Ghost(Profession::Hunter));
            add_skill(&mut skills, SkillName::Swords, 12, Ghost(Profession::Hunter));
        }
        Profession::Knight => {
            add_skill(&mut skills, SkillName::Acrobatics, 5, Ghost(Profession::Knight));
            add_skill(&mut skills, SkillName::Awareness, 10, Ghost(Profession::Knight));
            add_skill(&mut skills, SkillName::Bartering, 6, Ghost(Profession::Knight));
            add_skill(&mut skills, SkillName::BeastLore, 5, Ghost(Profession::Knight));
            add_skill(&mut skills, SkillName::Bluffing, 6, Ghost(Profession::Knight));
            add_skill(&mut skills, SkillName::Bushcraft, 5, Ghost(Profession::Knight));
            add_skill(&mut skills, SkillName::Crafting, 7, Ghost(Profession::Knight));
            add_skill(&mut skills, SkillName::Evade, 5, Ghost(Profession::Knight));
            add_skill(&mut skills, SkillName::Healing, 5, Ghost(Profession::Knight));
            add_skill(&mut skills, SkillName::HuntingAndFishing, 5, Ghost(Profession::Knight));
            add_skill(&mut skills, SkillName::Languages, 5, Ghost(Profession::Knight));
            add_skill(&mut skills, SkillName::MythsAndLegends, 10, Ghost(Profession::Knight));
            add_skill(&mut skills, SkillName::Performance, 12, Ghost(Profession::Knight));
            add_skill(&mut skills, SkillName::Persuasion, 12, Ghost(Profession::Knight));
            add_skill(&mut skills, SkillName::Riding, 5, Ghost(Profession::Knight));
            add_skill(&mut skills, SkillName::Seamanship, 5, Ghost(Profession::Knight));
            add_skill(&mut skills, SkillName::SleightOfHand, 5, Ghost(Profession::Knight));
            add_skill(&mut skills, SkillName::Sneaking, 5, Ghost(Profession::Knight));
            add_skill(&mut skills, SkillName::SpotHidden, 5, Ghost(Profession::Knight));
            add_skill(&mut skills, SkillName::Swimming, 5, Ghost(Profession::Knight));
            add_skill(&mut skills, SkillName::Axes, 14, Ghost(Profession::Knight));
            add_skill(&mut skills, SkillName::Bows, 5, Ghost(Profession::Knight));
            add_skill(&mut skills, SkillName::Brawling, 14, Ghost(Profession::Knight));
            add_skill(&mut skills, SkillName::Crossbows, 10, Ghost(Profession::Knight));
            add_skill(&mut skills, SkillName::Hammers, 14, Ghost(Profession::Knight));
            add_skill(&mut skills, SkillName::Knives, 5, Ghost(Profession::Knight));
            add_skill(&mut skills, SkillName::Slings, 5, Ghost(Profession::Knight));
            add_skill(&mut skills, SkillName::Spears, 14, Ghost(Profession::Knight));
            add_skill(&mut skills, SkillName::Staves, 5, Ghost(Profession::Knight));
            add_skill(&mut skills, SkillName::Swords, 14, Ghost(Profession::Knight));
        }
        Profession::Thief => {
            add_skill(&mut skills, SkillName::Acrobatics, 14, Ghost(Profession::Thief));
            add_skill(&mut skills, SkillName::Awareness, 12, Ghost(Profession::Thief));
            add_skill(&mut skills, SkillName::Bartering, 5, Ghost(Profession::Thief));
            add_skill(&mut skills, SkillName::BeastLore, 6, Ghost(Profession::Thief));
            add_skill(&mut skills, SkillName::Bluffing, 10, Ghost(Profession::Thief));
            add_skill(&mut skills, SkillName::Bushcraft, 6, Ghost(Profession::Thief));
            add_skill(&mut skills, SkillName::Crafting, 4, Ghost(Profession::Thief));
            add_skill(&mut skills, SkillName::Evade, 14, Ghost(Profession::Thief));
            add_skill(&mut skills, SkillName::Healing, 6, Ghost(Profession::Thief));
            add_skill(&mut skills, SkillName::HuntingAndFishing, 7, Ghost(Profession::Thief));
            add_skill(&mut skills, SkillName::Languages, 6, Ghost(Profession::Thief));
            add_skill(&mut skills, SkillName::MythsAndLegends, 6, Ghost(Profession::Thief));
            add_skill(&mut skills, SkillName::Performance, 5, Ghost(Profession::Thief));
            add_skill(&mut skills, SkillName::Persuasion, 5, Ghost(Profession::Thief));
            add_skill(&mut skills, SkillName::Riding, 7, Ghost(Profession::Thief));
            add_skill(&mut skills, SkillName::Seamanship, 6, Ghost(Profession::Thief));
            add_skill(&mut skills, SkillName::SleightOfHand, 14, Ghost(Profession::Thief));
            add_skill(&mut skills, SkillName::Sneaking, 14, Ghost(Profession::Thief));
            add_skill(&mut skills, SkillName::SpotHidden, 12, Ghost(Profession::Thief));
            add_skill(&mut skills, SkillName::Swimming, 7, Ghost(Profession::Thief));
            add_skill(&mut skills, SkillName::Axes, 4, Ghost(Profession::Thief));
            add_skill(&mut skills, SkillName::Bows, 7, Ghost(Profession::Thief));
            add_skill(&mut skills, SkillName::Brawling, 4, Ghost(Profession::Thief));
            add_skill(&mut skills, SkillName::Crossbows, 7, Ghost(Profession::Thief));
            add_skill(&mut skills, SkillName::Hammers, 4, Ghost(Profession::Thief));
            add_skill(&mut skills, SkillName::Knives, 14, Ghost(Profession::Thief));
            add_skill(&mut skills, SkillName::Slings, 7, Ghost(Profession::Thief));
            add_skill(&mut skills, SkillName::Spears, 4, Ghost(Profession::Thief));
            add_skill(&mut skills, SkillName::Staves, 7, Ghost(Profession::Thief));
            add_skill(&mut skills, SkillName::Swords, 4, Ghost(Profession::Thief));
        }
        Profession::Fighter => {
            add_skill(&mut skills, SkillName::Acrobatics, 12, Ghost(Profession::Fighter));
            add_skill(&mut skills, SkillName::Awareness, 5, Ghost(Profession::Fighter));
            add_skill(&mut skills, SkillName::Bartering, 4, Ghost(Profession::Fighter));
            add_skill(&mut skills, SkillName::BeastLore, 5, Ghost(Profession::Fighter));
            add_skill(&mut skills, SkillName::Bluffing, 4, Ghost(Profession::Fighter));
            add_skill(&mut skills, SkillName::Bushcraft, 5, Ghost(Profession::Fighter));
            add_skill(&mut skills, SkillName::Crafting, 7, Ghost(Profession::Fighter));
            add_skill(&mut skills, SkillName::Evade, 12, Ghost(Profession::Fighter));
            add_skill(&mut skills, SkillName::Healing, 5, Ghost(Profession::Fighter));
            add_skill(&mut skills, SkillName::HuntingAndFishing, 6, Ghost(Profession::Fighter));
            add_skill(&mut skills, SkillName::Languages, 5, Ghost(Profession::Fighter));
            add_skill(&mut skills, SkillName::MythsAndLegends, 5, Ghost(Profession::Fighter));
            add_skill(&mut skills, SkillName::Performance, 4, Ghost(Profession::Fighter));
            add_skill(&mut skills, SkillName::Persuasion, 4, Ghost(Profession::Fighter));
            add_skill(&mut skills, SkillName::Riding, 6, Ghost(Profession::Fighter));
            add_skill(&mut skills, SkillName::Seamanship, 5, Ghost(Profession::Fighter));
            add_skill(&mut skills, SkillName::SleightOfHand, 6, Ghost(Profession::Fighter));
            add_skill(&mut skills, SkillName::Sneaking, 12, Ghost(Profession::Fighter));
            add_skill(&mut skills, SkillName::SpotHidden, 5, Ghost(Profession::Fighter));
            add_skill(&mut skills, SkillName::Swimming, 6, Ghost(Profession::Fighter));
            add_skill(&mut skills, SkillName::Axes, 14, Ghost(Profession::Fighter));
            add_skill(&mut skills, SkillName::Bows, 6, Ghost(Profession::Fighter));
            add_skill(&mut skills, SkillName::Brawling, 14, Ghost(Profession::Fighter));
            add_skill(&mut skills, SkillName::Crossbows, 6, Ghost(Profession::Fighter));
            add_skill(&mut skills, SkillName::Hammers, 14, Ghost(Profession::Fighter));
            add_skill(&mut skills, SkillName::Knives, 6, Ghost(Profession::Fighter));
            add_skill(&mut skills, SkillName::Slings, 6, Ghost(Profession::Fighter));
            add_skill(&mut skills, SkillName::Spears, 14, Ghost(Profession::Fighter));
            add_skill(&mut skills, SkillName::Staves, 6, Ghost(Profession::Fighter));
            add_skill(&mut skills, SkillName::Swords, 14, Ghost(Profession::Fighter));
        }
    }
    skills
}

/// The idempotence law of the skill table: two skill lists produced for
/// the same profession are structurally identical entry for entry.
pub proof fn lemma_skills_deterministic(p: Profession, s1: Seq<Skill>, s2: Seq<Skill>)
    requires
        skills_ok(p, s1),
        skills_ok(p, s2),
    ensures
        s1.len() == s2.len(),
        forall|i: int| 0 <= i < s1.len() ==> #[trigger] s1[i].name == s2[i].name
            && s1[i].level == s2[i].level && s1[i].description@ =~= s2[i].description@,
{
    assert forall|i: int| 0 <= i < s1.len() implies #[trigger] s1[i].name == s2[i].name
        && s1[i].level == s2[i].level && s1[i].description@ =~= s2[i].description@ by {
        assert(skill_entry_ok(p, s1[i], i));
        assert(skill_entry_ok(p, s2[i], i));
    }
}

/// Every position of a profession's skill order carries the skill whose
/// canonical index is that position, so the order is duplicate-free and
/// covers every general skill.
pub proof fn lemma_skill_order_index(p: Profession)
    ensures
        forall|i: int| 0 <= i < skill_order(p).len() ==> skill_index(
            #[trigger] skill_order(p)[i],
        ) == i,
        forall|n: SkillName| #[trigger] is_general_skill(n) ==> 0 <= skill_index(n) < 30
            && skill_order(p)[skill_index(n)] == n,
        skill_order(p).len() == (if p == Profession::MageElementalist {
            31int
        } else {
            30int
        }),
{
}

/// The completeness law of the skill table: a produced skill list holds
/// each general skill exactly once (no duplicates, no omissions), and the
/// casting skill exactly for the elementalist mage.
pub proof fn lemma_skill_list_complete(p: Profession, s: Seq<Skill>)
    requires
        skills_ok(p, s),
    ensures
        forall|n: SkillName| #[trigger] is_general_skill(n) ==> exists|i: int|
            0 <= i < s.len() && s[i].name == n,
        forall|i: int, j: int| 0 <= i < s.len() && 0 <= j < s.len() && i != j
            ==> s[i].name != s[j].name,
        (p == Profession::MageElementalist) <==> exists|i: int|
            0 <= i < s.len() && s[i].name == SkillName::Elementalism,
{
    lemma_skill_order_index(p);
    assert forall|i: int, j: int|
        0 <= i < s.len() && 0 <= j < s.len() && i != j implies s[i].name != s[j].name by {
        assert(skill_entry_ok(p, s[i], i));
        assert(skill_entry_ok(p, s[j], j));
    }
    assert forall|n: SkillName| #[trigger] is_general_skill(n) implies exists|i: int|
        0 <= i < s.len() && s[i].name == n by {
        let idx = skill_index(n);
        assert(skill_entry_ok(p, s[idx], idx));
        assert(s[idx].name == n);
    }
    if p == Profession::MageElementalist {
        assert(skill_entry_ok(p, s[30], 30));
        assert(s[30].name == SkillName::Elementalism);
    } else {
        assert forall|i: int| 0 <= i < s.len() implies s[i].name != SkillName::Elementalism by {
            assert(skill_entry_ok(p, s[i], i));
        }
    }
}

} // verus!
