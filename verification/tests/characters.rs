use dragonbane_chargen::attributes::{generate_attributes, Attributes};
use dragonbane_chargen::character::{build_character, generate_character};
use dragonbane_chargen::derived::calculate_derived_ratings;
use dragonbane_chargen::kin::Kin;
use dragonbane_chargen::profession::Profession;
use dragonbane_chargen::weakness::Weakness;

#[test]
fn generated_attributes_stay_in_range() {
    for _ in 0..500 {
        let a = generate_attributes();
        for score in [
            a.strength,
            a.constitution,
            a.agility,
            a.intelligence,
            a.willpower,
            a.charisma,
        ] {
            assert!(3 <= score && score <= 18);
        }
    }
}

#[test]
fn derived_ratings_follow_the_attributes() {
    let a = Attributes {
        strength: 8,
        constitution: 15,
        agility: 17,
        intelligence: 16,
        willpower: 12,
        charisma: 10,
    };
    let r = calculate_derived_ratings(&a);
    assert_eq!(r.hit_points_max, 15);
    assert_eq!(r.willpower_points_max, 12);
    assert_eq!(r.movement, 10);
    assert_eq!(r.damage_bonus_str, "-");
    assert_eq!(r.damage_bonus_agl, "D6");
}

#[test]
fn damage_bonus_tier_boundaries() {
    let base = Attributes {
        strength: 3,
        constitution: 10,
        agility: 3,
        intelligence: 10,
        willpower: 10,
        charisma: 10,
    };
    let expect = |score: u8, label: &str| {
        let mut a = base.clone();
        a.strength = score;
        a.agility = score;
        let r = calculate_derived_ratings(&a);
        assert_eq!(r.damage_bonus_str, label, "strength {}", score);
        assert_eq!(r.damage_bonus_agl, label, "agility {}", score);
    };
    expect(12, "-");
    expect(13, "D4");
    expect(15, "D4");
    expect(16, "D6");
    expect(18, "D6");
}

#[test]
fn generated_characters_seed_pools_from_maxima() {
    for _ in 0..200 {
        let c = generate_character("Nameless".to_string());
        assert_eq!(c.derived_ratings.hit_points_max, c.attributes.constitution);
        assert_eq!(c.derived_ratings.willpower_points_max, c.attributes.willpower);
        assert_eq!(c.current_hp, c.derived_ratings.hit_points_max);
        assert_eq!(c.current_wp, c.derived_ratings.willpower_points_max);
        assert!(c.conditions.is_empty());
    }
}

#[test]
fn built_character_carries_the_chosen_template() {
    let a = Attributes {
        strength: 13,
        constitution: 14,
        agility: 17,
        intelligence: 12,
        willpower: 11,
        charisma: 10,
    };
    let c = build_character(
        "Orla Moonsilver".to_string(),
        Kin::Elf,
        Profession::Hunter,
        Weakness::Bigoted,
        a,
    );
    assert_eq!(c.name, "Orla Moonsilver");
    assert_eq!(c.kin, Kin::Elf);
    assert_eq!(c.profession, Profession::Hunter);
    assert_eq!(c.weakness, Weakness::Bigoted);
    assert_eq!(c.age, "Adult");
    assert!(c.appearance.starts_with("Smooth and confident walk."));
    assert_eq!(c.current_hp, 14);
    assert_eq!(c.current_wp, 11);
    assert_eq!(c.silver, 6);
    assert_eq!(c.memento, "Fang from the troll that slew your sister.");
    assert_eq!(c.skills.len(), 30);
    assert_eq!(c.heroic_abilities.len(), 1);
    assert!(c.spells.is_empty());
    assert_eq!(c.innate_abilities.len(), 1);
}

#[test]
fn age_band_follows_the_profession() {
    let a = Attributes {
        strength: 10,
        constitution: 10,
        agility: 10,
        intelligence: 10,
        willpower: 10,
        charisma: 10,
    };
    let cases = [
        (Profession::MageElementalist, "Old"),
        (Profession::Hunter, "Adult"),
        (Profession::Knight, "Adult"),
        (Profession::Thief, "Young"),
        (Profession::Fighter, "Young"),
    ];
    for (p, age) in cases {
        let c = build_character(
            "Nameless".to_string(),
            Kin::Human,
            p,
            Weakness::Curious,
            a.clone(),
        );
        assert_eq!(c.age, age);
    }
}

#[test]
fn mage_character_has_spells_and_no_armor() {
    let a = Attributes {
        strength: 8,
        constitution: 12,
        agility: 9,
        intelligence: 16,
        willpower: 15,
        charisma: 10,
    };
    let c = build_character(
        "Archmaster Aodhan".to_string(),
        Kin::Human,
        Profession::MageElementalist,
        Weakness::Fainthearted,
        a,
    );
    assert!(c.armor.is_none());
    assert!(c.helmet.is_none());
    assert!(c.heroic_abilities.is_empty());
    assert!(!c.spells.is_empty());
    assert_eq!(c.skills.len(), 31);
    assert_eq!(c.silver, 7);
}
