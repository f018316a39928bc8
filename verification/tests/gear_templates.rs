use dragonbane_chargen::gear::{
    assign_starting_gear_coins_memento, ArmorItem, Item, Weapon,
};
use dragonbane_chargen::profession::{assign_profession_abilities_and_spells, Profession};

struct GearBundle {
    inventory: Vec<Item>,
    tiny_items: Vec<Item>,
    weapons: Vec<Weapon>,
    armor: Option<ArmorItem>,
    helmet: Option<ArmorItem>,
    memento: String,
    gold: u32,
    silver: u32,
    copper: u32,
}

fn gear_for(p: &Profession) -> GearBundle {
    let mut bundle = GearBundle {
        inventory: Vec::new(),
        tiny_items: Vec::new(),
        weapons: Vec::new(),
        armor: None,
        helmet: None,
        memento: String::new(),
        gold: 0,
        silver: 0,
        copper: 0,
    };
    assign_starting_gear_coins_memento(
        p,
        &mut bundle.inventory,
        &mut bundle.tiny_items,
        &mut bundle.weapons,
        &mut bundle.armor,
        &mut bundle.helmet,
        &mut bundle.memento,
        &mut bundle.gold,
        &mut bundle.silver,
        &mut bundle.copper,
    );
    bundle
}

#[test]
fn hunter_gear_scenario() {
    let g = gear_for(&Profession::Hunter);

    let bow = g
        .weapons
        .iter()
        .find(|w| w.skill_used == "Bows")
        .expect("hunter has a bow-class weapon");
    assert_eq!(bow.grip, "2h");
    assert_eq!(bow.damage, "D12");

    let knife = g
        .weapons
        .iter()
        .find(|w| w.skill_used == "Knives")
        .expect("hunter has a knife-class weapon");
    assert_eq!(knife.grip, "1h");
    assert_eq!(knife.range, "1");

    let armor = g.armor.expect("hunter wears armor");
    assert_eq!(armor.name, "Leather");
    assert_eq!(armor.armor_rating, 1);
    assert!(g.helmet.is_none());

    assert_eq!(g.gold, 0);
    assert_eq!(g.silver, 6);
    assert_eq!(g.copper, 0);
}

#[test]
fn knight_gear_scenario() {
    let g = gear_for(&Profession::Knight);

    assert_eq!(g.gold, 1);
    assert_eq!(g.silver, 0);
    assert_eq!(g.copper, 0);

    let armor = g.armor.expect("knight wears armor");
    assert_eq!(armor.name, "Plate");
    assert_eq!(armor.armor_rating, 6);
    assert!(armor.bane_on.len() >= 3);
    assert!(armor.bane_on.contains(&"Sneaking".to_string()));
    assert!(armor.bane_on.contains(&"Acrobatics".to_string()));
    assert!(armor.bane_on.contains(&"Evade".to_string()));

    assert!(g.helmet.is_none());
}

#[test]
fn mage_gear_and_spells_scenario() {
    let g = gear_for(&Profession::MageElementalist);

    assert!(g.armor.is_none());
    assert!(g.helmet.is_none());

    let mut heroic = Vec::new();
    let mut spells = Vec::new();
    assign_profession_abilities_and_spells(
        &Profession::MageElementalist,
        &mut heroic,
        &mut spells,
    );
    assert!(heroic.is_empty());
    assert!(!spells.is_empty());
    // the three true spells name a rank, a casting requirement, a range
    // and a duration class; the remaining entries are magic tricks
    for spell in spells.iter().take(3) {
        assert!(spell.contains("Rank 1"));
        assert!(spell.contains("Word/Gesture"));
        assert!(spell.contains("m"));
        assert!(spell.contains("Instant") || spell.contains("Shift"));
    }
}

#[test]
fn every_other_profession_gets_one_heroic_ability() {
    for p in [
        Profession::Hunter,
        Profession::Knight,
        Profession::Thief,
        Profession::Fighter,
    ] {
        let mut heroic = Vec::new();
        let mut spells = Vec::new();
        assign_profession_abilities_and_spells(&p, &mut heroic, &mut spells);
        assert_eq!(heroic.len(), 1);
        assert!(spells.is_empty());
    }
}

#[test]
fn thief_gear_details() {
    let g = gear_for(&Profession::Thief);
    assert_eq!(g.weapons.len(), 3);
    assert_eq!(g.weapons[0].name, "Dagger");
    assert!(g.weapons.iter().all(|w| w.skill_used == "Knives"));
    assert_eq!(g.silver, 4);
    assert!(g.inventory.iter().any(|it| it.name == "Lockpicks" && it.weight == 1));
    assert!(g.tiny_items.iter().all(|it| it.weight == 0));
}

#[test]
fn fighter_gear_details() {
    let g = gear_for(&Profession::Fighter);
    assert_eq!(g.weapons.len(), 2);
    assert_eq!(g.weapons[0].name, "Long Spear");
    assert_eq!(g.weapons[0].damage, "2D8");
    assert_eq!(g.weapons[1].name, "Short Spear");
    let armor = g.armor.expect("fighter wears armor");
    assert_eq!(armor.name, "Studded Leather");
    assert_eq!(armor.armor_rating, 2);
    assert_eq!(g.memento, "Blue bottle of perfume.");
    assert_eq!(g.silver, 2);
}

#[test]
fn gear_assignment_is_deterministic() {
    for p in [
        Profession::MageElementalist,
        Profession::Hunter,
        Profession::Knight,
        Profession::Thief,
        Profession::Fighter,
    ] {
        let a = gear_for(&p);
        let b = gear_for(&p);
        assert_eq!(a.inventory, b.inventory);
        assert_eq!(a.tiny_items, b.tiny_items);
        assert_eq!(a.weapons, b.weapons);
        assert_eq!(a.armor, b.armor);
        assert_eq!(a.helmet, b.helmet);
        assert_eq!(a.memento, b.memento);
        assert_eq!((a.gold, a.silver, a.copper), (b.gold, b.silver, b.copper));
    }
}

#[test]
fn gear_assignment_overwrites_previous_contents() {
    let mut g = gear_for(&Profession::Knight);
    // reassign on the same buffers with a different profession
    assign_starting_gear_coins_memento(
        &Profession::MageElementalist,
        &mut g.inventory,
        &mut g.tiny_items,
        &mut g.weapons,
        &mut g.armor,
        &mut g.helmet,
        &mut g.memento,
        &mut g.gold,
        &mut g.silver,
        &mut g.copper,
    );
    assert_eq!(g.weapons.len(), 1);
    assert_eq!(g.weapons[0].name, "Staff");
    assert!(g.armor.is_none());
    assert_eq!((g.gold, g.silver, g.copper), (0, 7, 0));
    assert_eq!(g.memento, "Worn diary full of your experiences and discoveries.");
}
