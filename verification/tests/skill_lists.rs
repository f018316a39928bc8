use std::collections::HashSet;

use dragonbane_chargen::attributes::Attribute;
use dragonbane_chargen::profession::Profession;
use dragonbane_chargen::skills::{assign_skills_for_profession, Skill, SkillName};

const ALL_PROFESSIONS: [Profession; 5] = [
    Profession::MageElementalist,
    Profession::Hunter,
    Profession::Knight,
    Profession::Thief,
    Profession::Fighter,
];

fn general_skills() -> Vec<SkillName> {
    vec![
        SkillName::Acrobatics,
        SkillName::Awareness,
        SkillName::Bartering,
        SkillName::BeastLore,
        SkillName::Bluffing,
        SkillName::Bushcraft,
        SkillName::Crafting,
        SkillName::Evade,
        SkillName::Healing,
        SkillName::HuntingAndFishing,
        SkillName::Languages,
        SkillName::MythsAndLegends,
        SkillName::Performance,
        SkillName::Persuasion,
        SkillName::Riding,
        SkillName::Seamanship,
        SkillName::SleightOfHand,
        SkillName::Sneaking,
        SkillName::SpotHidden,
        SkillName::Swimming,
        SkillName::Axes,
        SkillName::Bows,
        SkillName::Brawling,
        SkillName::Crossbows,
        SkillName::Hammers,
        SkillName::Knives,
        SkillName::Slings,
        SkillName::Spears,
        SkillName::Staves,
        SkillName::Swords,
    ]
}

fn level_of(skills: &[Skill], name: SkillName) -> u8 {
    skills
        .iter()
        .find(|s| s.name == name)
        .expect("skill missing from list")
        .level
}

#[test]
fn every_profession_lists_each_general_skill_exactly_once() {
    for p in ALL_PROFESSIONS {
        let skills = assign_skills_for_profession(&p);
        let names: Vec<SkillName> = skills.iter().map(|s| s.name.clone()).collect();
        let unique: HashSet<SkillName> = names.iter().cloned().collect();
        assert_eq!(unique.len(), names.len(), "duplicate skill for {:?}", p);
        for g in general_skills() {
            assert!(unique.contains(&g), "{:?} missing {:?}", p, g);
        }
        let expected_len = if p == Profession::MageElementalist { 31 } else { 30 };
        assert_eq!(skills.len(), expected_len);
    }
}

#[test]
fn only_the_mage_gets_the_casting_skill() {
    for p in ALL_PROFESSIONS {
        let skills = assign_skills_for_profession(&p);
        let has_casting = skills.iter().any(|s| s.name == SkillName::Elementalism);
        assert_eq!(has_casting, p == Profession::MageElementalist);
    }
}

#[test]
fn sample_skill_levels_match_the_templates() {
    let mage = assign_skills_for_profession(&Profession::MageElementalist);
    assert_eq!(level_of(&mage, SkillName::Elementalism), 14);
    assert_eq!(level_of(&mage, SkillName::Staves), 10);
    assert_eq!(level_of(&mage, SkillName::Awareness), 14);
    assert_eq!(level_of(&mage, SkillName::Languages), 5);

    let hunter = assign_skills_for_profession(&Profession::Hunter);
    assert_eq!(level_of(&hunter, SkillName::Bows), 14);
    assert_eq!(level_of(&hunter, SkillName::HuntingAndFishing), 14);
    assert_eq!(level_of(&hunter, SkillName::Swords), 12);

    let knight = assign_skills_for_profession(&Profession::Knight);
    assert_eq!(level_of(&knight, SkillName::Swords), 14);
    assert_eq!(level_of(&knight, SkillName::Performance), 12);
    assert_eq!(level_of(&knight, SkillName::Acrobatics), 5);

    let thief = assign_skills_for_profession(&Profession::Thief);
    assert_eq!(level_of(&thief, SkillName::SleightOfHand), 14);
    assert_eq!(level_of(&thief, SkillName::Bluffing), 10);

    let fighter = assign_skills_for_profession(&Profession::Fighter);
    assert_eq!(level_of(&fighter, SkillName::Hammers), 14);
    assert_eq!(level_of(&fighter, SkillName::Awareness), 5);
}

#[test]
fn skill_assignment_is_idempotent() {
    for p in ALL_PROFESSIONS {
        let first = assign_skills_for_profession(&p);
        let second = assign_skills_for_profession(&p);
        assert_eq!(first, second);
    }
}

#[test]
fn base_attributes_of_skills() {
    assert_eq!(SkillName::Acrobatics.get_base_attribute(), Attribute::Agility);
    assert_eq!(SkillName::Awareness.get_base_attribute(), Attribute::Intelligence);
    assert_eq!(SkillName::Bartering.get_base_attribute(), Attribute::Charisma);
    assert_eq!(SkillName::Crafting.get_base_attribute(), Attribute::Strength);
    assert_eq!(SkillName::Swords.get_base_attribute(), Attribute::Strength);
    assert_eq!(SkillName::Bows.get_base_attribute(), Attribute::Agility);
    assert_eq!(SkillName::Elementalism.get_base_attribute(), Attribute::Intelligence);
}
