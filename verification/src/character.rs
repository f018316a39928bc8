//! The character aggregate and the builder that assembles it.

use vstd::prelude::*;

use crate::attributes::{generate_attributes, Attributes};
use crate::derived::{calculate_derived_ratings, damage_bonus_label, DerivedRatings};
use crate::gear::{
    assign_starting_gear_coins_memento, gear_ok, ArmorItem, Item, Weapon,
};
use crate::kin::{kin_abilities_ok, Kin};
use crate::profession::{
    abilities_ok, assign_profession_abilities_and_spells, Profession,
};
use crate::skills::{assign_skills_for_profession, skills_ok, Skill};
use crate::weakness::Weakness;

verus! {

/// The finished character aggregate. Only the three runtime fields at the
/// end are expected to change after construction, by gameplay logic
/// outside this library.
#[derive(Debug, Clone)]
pub struct Character {
    pub name: String,
    pub kin: Kin,
    pub age: String,
    pub profession: Profession,
    pub appearance: String,
    pub weakness: Weakness,
    pub attributes: Attributes,
    pub derived_ratings: DerivedRatings,
    pub skills: Vec<Skill>,
    pub innate_abilities: Vec<String>,
    pub heroic_abilities: Vec<String>,
    pub spells: Vec<String>,
    pub inventory: Vec<Item>,
    pub tiny_items: Vec<Item>,
    pub weapons_at_hand: Vec<Weapon>,
    pub armor: Option<ArmorItem>,
    pub helmet: Option<ArmorItem>,
    pub memento: String,
    pub gold: u32,
    pub silver: u32,
    pub copper: u32,
    pub current_hp: u8,
    pub current_wp: u8,
    pub conditions: Vec<String>,
}

/// The age band each profession's template carries.
pub open spec fn age_ok(p: Profession, age: Seq<char>) -> bool {
    match p {
        Profession::MageElementalist => age == "Old"@,
        Profession::Hunter | Profession::Knight => age == "Adult"@,
        Profession::Thief | Profession::Fighter => age == "Young"@,
    }
}

/// The appearance text each profession's template carries.
pub open spec fn appearance_ok(p: Profession, s: Seq<char>) -> bool {
    match p {
        Profession::MageElementalist => s == "Tall and wiry. Long white beard and bushy eyebrows. Inquisitive eyes."@,
        Profession::Hunter => s == "Smooth and confident walk. Clear eyes that suspiciously scrutinize everyone. Eager and swift in thought and action."@,
        Profession::Knight => s == "Strong, sturdy, and stubborn. Waddling walk. Quick to anger when provoked, especially if someone insults your family or honor. You seldom smile."@,
        Profession::Thief => s == "Innocent face with shrewd, constantly observing eyes. Light and silent on your feet. You see opportunity in any situation."@,
        Profession::Fighter => s == "Scarred, bulging muscles. You look loyally at friends, but menacingly at foes. You take good care of your clothes, and often wear fragrant perfumes."@,
    }
}

/// Internal consistency of a finished character: the derived ratings
/// follow from the attributes, the runtime pools start at their maxima
/// with no conditions, and every template-driven field agrees with the
/// catalogs for the character's kin and profession.
pub open spec fn character_well_formed(c: Character) -> bool {
    &&& c.derived_ratings.hit_points_max == c.attributes.constitution
    &&& c.derived_ratings.willpower_points_max == c.attributes.willpower
    &&& c.derived_ratings.movement == 10
    &&& c.derived_ratings.damage_bonus_str@ == damage_bonus_label(c.attributes.strength)
    &&& c.derived_ratings.damage_bonus_agl@ == damage_bonus_label(c.attributes.agility)
    &&& c.current_hp == c.derived_ratings.hit_points_max
    &&& c.current_wp == c.derived_ratings.willpower_points_max
    &&& c.conditions@.len() == 0
    &&& kin_abilities_ok(c.kin, c.innate_abilities@)
    &&& skills_ok(c.profession, c.skills@)
    &&& abilities_ok(c.profession, c.heroic_abilities@, c.spells@)
    &&& gear_ok(
        c.profession,
        c.inventory@,
        c.tiny_items@,
        c.weapons_at_hand@,
        c.armor,
        c.helmet,
        c.memento@,
        c.gold,
        c.silver,
        c.copper,
    )
    &&& age_ok(c.profession, c.age@)
    &&& appearance_ok(c.profession, c.appearance@)
}

/// Assembles one internally consistent character from the given name and
/// the drawn kin, profession, weakness and attributes: derived ratings are
/// computed from the attributes, every template field is filled from the
/// catalogs, and the runtime pools are seeded from the computed maxima.
pub fn build_character(
    name: String,
    kin: Kin,
    profession: Profession,
    weakness: Weakness,
    attributes: Attributes,
) -> (c: Character)
    ensures
        character_well_formed(c),
        c.name@ == name@,
        c.kin == kin,
        c.profession == profession,
        c.weakness == weakness,
        c.attributes == attributes,
{
    let derived_ratings = calculate_derived_ratings(&attributes);

    let innate_abilities = kin.innate_abilities();
    let skills = assign_skills_for_profession(&profession);

    let mut heroic_abilities: Vec<String> = Vec::new();
    let mut spells: Vec<String> = Vec::new();
    assign_profession_abilities_and_spells(&profession, &mut heroic_abilities, &mut spells);

    let mut inventory: Vec<Item> = Vec::new();
    let mut tiny_items: Vec<Item> = Vec::new();
    let mut weapons_at_hand: Vec<Weapon> = Vec::new();
    let mut armor: Option<ArmorItem> = None;
    let mut helmet: Option<ArmorItem> = None;
    let mut memento: String = String::new();
    let mut gold: u32 = 0;
    let mut silver: u32 = 0;
    let mut copper: u32 = 0;
    assign_starting_gear_coins_memento(
        &profession,
        &mut inventory,
        &mut tiny_items,
        &mut weapons_at_hand,
        &mut armor,
        &mut helmet,
        &mut memento,
        &mut gold,
        &mut silver,
        &mut copper,
    );

    let age = match &profession {
        Profession::MageElementalist => "Old".to_string(),
        Profession::Hunter | Profession::Knight => "Adult".to_string(),
        Profession::Thief | Profession::Fighter => "Young".to_string(),
    };
    let appearance = match &profession {
        Profession::MageElementalist => "Tall and wiry. Long white beard and bushy eyebrows. Inquisitive eyes.".to_string(),
        Profession::Hunter => "Smooth and confident walk. Clear eyes that suspiciously scrutinize everyone. Eager and swift in thought and action.".to_string(),
        Profession::Knight => "Strong, sturdy, and stubborn. Waddling walk. Quick to anger when provoked, especially if someone insults your family or honor. You seldom smile.".to_string(),
        Profession::Thief => "Innocent face with shrewd, constantly observing eyes. Light and silent on your feet. You see opportunity in any situation.".to_string(),
        Profession::Fighter => "Scarred, bulging muscles. You look loyally at friends, but menacingly at foes. You take good care of your clothes, and often wear fragrant perfumes.".to_string(),
    };

    let current_hp = derived_ratings.hit_points_max;
    let current_wp = derived_ratings.willpower_points_max;

    Character {
        name,
        kin,
        age,
        profession,
        appearance,
        weakness,
        attributes,
        derived_ratings,
        skills,
        innate_abilities,
        heroic_abilities,
        spells,
        inventory,
        tiny_items,
        weapons_at_hand,
        armor,
        helmet,
        memento,
        gold,
        silver,
        copper,
        current_hp,
        current_wp,
        conditions: Vec::new(),
    }
}

/// Generates one complete character: rolls the attributes, picks kin,
/// profession and weakness uniformly at random, and assembles the
/// aggregate.
pub fn generate_character(name: String) -> (c: Character)
    ensures
        character_well_formed(c),
        c.name@ == name@,
        3 <= c.attributes.strength <= 18,
        3 <= c.attributes.constitution <= 18,
        3 <= c.attributes.agility <= 18,
        3 <= c.attributes.intelligence <= 18,
        3 <= c.attributes.willpower <= 18,
        3 <= c.attributes.charisma <= 18,
{
    let attributes = generate_attributes();
    let kin = Kin::random();
    let profession = Profession::random();
    let weakness = Weakness::random();
    build_character(name, kin, profession, weakness, attributes)
}

} // verus!
