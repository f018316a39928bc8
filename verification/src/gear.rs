//! Starting gear, coinage, and memento: the per-profession equipment
//! templates.

use vstd::prelude::*;

use crate::profession::Profession;

verus! {

/// A general inventory entry; weight 0 marks a tiny, weightless item.
#[derive(Debug, Clone, PartialEq)]
pub struct Item {
    pub name: String,
    pub quantity: u32,
    pub weight: u8,
    pub description: String,
}

/// A weapon held at hand.
#[derive(Debug, Clone, PartialEq)]
pub struct Weapon {
    pub name: String,
    pub grip: String,
    pub range: String,
    pub damage: String,
    pub durability: u8,
    pub features: Vec<String>,
    pub skill_used: String,
}

/// A piece of armor or a helmet.
#[derive(Debug, Clone, PartialEq)]
pub struct ArmorItem {
    pub name: String,
    pub armor_rating: u8,
    pub bane_on: Vec<String>,
}

/// An item entry with the given name, quantity, weight and description.
pub open spec fn item_is(
    it: Item,
    name: Seq<char>,
    quantity: u32,
    weight: u8,
    description: Seq<char>,
) -> bool {
    &&& it.name@ == name
    &&& it.quantity == quantity
    &&& it.weight == weight
    &&& it.description@ == description
}

pub open spec fn is_torch(it: Item) -> bool {
    item_is(it, "Torch"@, 1, 1, "Lights the way."@)
}

pub open spec fn is_rope(it: Item) -> bool {
    item_is(it, "Rope"@, 1, 1, "10 meters of rope."@)
}

pub open spec fn is_flint_and_tinder(it: Item) -> bool {
    item_is(it, "Flint & Tinder"@, 1, 0, "Starts fires."@)
}

pub open spec fn is_spellbook(it: Item) -> bool {
    item_is(it, "Spellbook"@, 1, 1, "Contains known spells and magical research."@)
}

pub open spec fn is_quiver(it: Item) -> bool {
    item_is(it, "Quiver"@, 1, 1, "Holds arrows for the longbow."@)
}

pub open spec fn is_lockpicks(it: Item) -> bool {
    item_is(it, "Lockpicks"@, 1, 1, "Set of lockpicks."@)
}

pub open spec fn is_staff(w: Weapon) -> bool {
    &&& w.name@ == "Staff"@
    &&& w.grip@ == "2h"@
    &&& w.range@ == "2"@
    &&& w.damage@ == "D8"@
    &&& w.durability == 9
    &&& w.features@.len() == 1
    &&& w.features@[0]@ == "Bludgeoning"@
    &&& w.skill_used@ == "Staves"@
}

pub open spec fn is_longbow(w: Weapon) -> bool {
    &&& w.name@ == "Longbow"@
    &&& w.grip@ == "2h"@
    &&& w.range@ == "100"@
    &&& w.damage@ == "D12"@
    &&& w.durability == 6
    &&& w.features@.len() == 1
    &&& w.features@[0]@ == "Piercing"@
    &&& w.skill_used@ == "Bows"@
}

pub open spec fn is_hunter_knife(w: Weapon) -> bool {
    &&& w.name@ == "Knife"@
    &&& w.grip@ == "1h"@
    &&& w.range@ == "1"@
    &&& w.damage@ == "D8"@
    &&& w.durability == 3
    &&& w.features@.len() == 2
    &&& w.features@[0]@ == "Subtle"@
    &&& w.features@[1]@ == "Piercing"@
    &&& w.skill_used@ == "Knives"@
}

pub open spec fn is_battleaxe(w: Weapon) -> bool {
    &&& w.name@ == "Battleaxe"@
    &&& w.grip@ == "1h"@
    &&& w.range@ == "2"@
    &&& w.damage@ == "2D8"@
    &&& w.durability == 9
    &&& w.features@.len() == 1
    &&& w.features@[0]@ == "Slashing"@
    &&& w.skill_used@ == "Axes"@
}

pub open spec fn is_short_sword(w: Weapon) -> bool {
    &&& w.name@ == "Short Sword"@
    &&& w.grip@ == "1h"@
    &&& w.range@ == "2"@
    &&& w.damage@ == "D10"@
    &&& w.durability == 12
    &&& w.features@.len() == 2
    &&& w.features@[0]@ == "Slashing"@
    &&& w.features@[1]@ == "Piercing"@
    &&& w.skill_used@ == "Swords"@
}

pub open spec fn is_small_shield(w: Weapon) -> bool {
    &&& w.name@ == "Small Shield"@
    &&& w.grip@ == "1h"@
    &&& w.range@ == "N/A"@
    &&& w.damage@ == "D8"@
    &&& w.durability == 15
    &&& w.features@.len() == 1
    &&& w.features@[0]@ == "Bludgeoning"@
    &&& w.skill_used@ == "Swords"@
}

pub open spec fn is_dagger(w: Weapon) -> bool {
    &&& w.name@ == "Dagger"@
    &&& w.grip@ == "1h"@
    &&& w.range@ == "8"@
    &&& w.damage@ == "D8"@
    &&& w.durability == 9
    &&& w.features@.len() == 3
    &&& w.features@[0]@ == "Subtle"@
    &&& w.features@[1]@ == "Piercing"@
    &&& w.features@[2]@ == "Slashing"@
    &&& w.skill_used@ == "Knives"@
}

/// The thief's throwing knife; `name` distinguishes the two entries that
/// share their stats.
pub open spec fn is_thief_knife(w: Weapon, name: Seq<char>) -> bool {
    &&& w.name@ == name
    &&& w.grip@ == "1h"@
    &&& w.range@ == "8"@
    &&& w.damage@ == "D8"@
    &&& w.durability == 6
    &&& w.features@.len() == 2
    &&& w.features@[0]@ == "Subtle"@
    &&& w.features@[1]@ == "Piercing"@
    &&& w.skill_used@ == "Knives"@
}

pub open spec fn is_long_spear(w: Weapon) -> bool {
    &&& w.name@ == "Long Spear"@
    &&& w.grip@ == "2h"@
    &&& w.range@ == "4"@
    &&& w.damage@ == "2D8"@
    &&& w.durability == 9
    &&& w.features@.len() == 2
    &&& w.features@[0]@ == "Long"@
    &&& w.features@[1]@ == "Piercing"@
    &&& w.skill_used@ == "Spears"@
}

pub open spec fn is_short_spear(w: Weapon) -> bool {
    &&& w.name@ == "Short Spear"@
    &&& w.grip@ == "1h"@
    &&& w.range@ == "36"@
    &&& w.damage@ == "D10"@
    &&& w.durability == 9
    &&& w.features@.len() == 1
    &&& w.features@[0]@ == "Piercing"@
    &&& w.skill_used@ == "Spears"@
}

pub open spec fn is_leather_armor(a: ArmorItem) -> bool {
    &&& a.name@ == "Leather"@
    &&& a.armor_rating == 1
    &&& a.bane_on@.len() == 0
}

pub open spec fn is_plate_armor(a: ArmorItem) -> bool {
    &&& a.name@ == "Plate"@
    &&& a.armor_rating == 6
    &&& a.bane_on@.len() == 3
    &&& a.bane_on@[0]@ == "Sneaking"@
    &&& a.bane_on@[1]@ == "Acrobatics"@
    &&& a.bane_on@[2]@ == "Evade"@
}

pub open spec fn is_studded_leather_armor(a: ArmorItem) -> bool {
    &&& a.name@ == "Studded Leather"@
    &&& a.armor_rating == 2
    &&& a.bane_on@.len() == 1
    &&& a.bane_on@[0]@ == "Sneaking"@
}

/// The complete starting-gear bundle a profession template yields:
/// inventory, tiny items, weapons at hand, armor and helmet slots,
/// memento text, and the coinage triple.
pub open spec fn gear_ok(
    p: Profession,
    inventory: Seq<Item>,
    tiny_items: Seq<Item>,
    weapons: Seq<Weapon>,
    armor: Option<ArmorItem>,
    helmet: Option<ArmorItem>,
    memento: Seq<char>,
    gold: u32,
    silver: u32,
    copper: u32,
) -> bool {
    match p {
        Profession::MageElementalist => {
            &&& memento == "Worn diary full of your experiences and discoveries."@
            &&& gold == 0 && silver == 7 && copper == 0
            &&& weapons.len() == 1 && is_staff(weapons[0])
            &&& armor is None
            &&& helmet is None
            &&& inventory.len() == 2 && is_spellbook(inventory[0]) && is_torch(inventory[1])
            &&& tiny_items.len() == 1 && is_flint_and_tinder(tiny_items[0])
        },
        Profession::Hunter => {
            &&& memento == "Fang from the troll that slew your sister."@
            &&& gold == 0 && silver == 6 && copper == 0
            &&& weapons.len() == 2 && is_longbow(weapons[0]) && is_hunter_knife(weapons[1])
            &&& (match armor {
                Option::Some(a) => is_leather_armor(a),
                Option::None => false,
            })
            &&& helmet is None
            &&& inventory.len() == 3 && is_quiver(inventory[0]) && is_torch(inventory[1])
                && is_rope(inventory[2])
            &&& tiny_items.len() == 1 && is_flint_and_tinder(tiny_items[0])
        },
        Profession::Knight => {
            &&& memento == "A fine pipe made of black horn (a gift from your father)."@
            &&& gold == 1 && silver == 0 && copper == 0
            &&& weapons.len() == 3 && is_battleaxe(weapons[0]) && is_short_sword(weapons[1])
                && is_small_shield(weapons[2])
            &&& (match armor {
                Option::Some(a) => is_plate_armor(a),
                Option::None => false,
            })
            &&& helmet is None
            &&& inventory.len() == 1 && is_torch(inventory[0])
            &&& tiny_items.len() == 1 && is_flint_and_tinder(tiny_items[0])
        },
        Profession::Thief => {
            &&& memento == "A treasure map you \"found.\""@
            &&& gold == 0 && silver == 4 && copper == 0
            &&& weapons.len() == 3 && is_dagger(weapons[0]) && is_thief_knife(
                weapons[1],
                "Knife"@,
            ) && is_thief_knife(weapons[2], "Knife "@)
            &&& (match armor {
                Option::Some(a) => is_leather_armor(a),
                Option::None => false,
            })
            &&& helmet is None
            &&& inventory.len() == 3 && is_lockpicks(inventory[0]) && is_torch(inventory[1])
                && is_rope(inventory[2])
            &&& tiny_items.len() == 1 && is_flint_and_tinder(tiny_items[0])
        },
        Profession::Fighter => {
            &&& memento == "Blue bottle of perfume."@
            &&& gold == 0 && silver == 2 && copper == 0
            &&& weapons.len() == 2 && is_long_spear(weapons[0]) && is_short_spear(weapons[1])
            &&& (match armor {
                Option::Some(a) => is_studded_leather_armor(a),
                Option::None => false,
            })
            &&& helmet is None
            &&& inventory.len() == 1 && is_torch(inventory[0])
            &&& tiny_items.len() == 1 && is_flint_and_tinder(tiny_items[0])
        },
    }
}

/// Builds a torch inventory entry.
fn torch() -> (it: Item)
    ensures
        is_torch(it),
{
    Item {
        name: "Torch".to_string(),
        quantity: 1,
        weight: 1,
        description: "Lights the way.".to_string(),
    }
}

/// Builds a rope inventory entry.
fn rope() -> (it: Item)
    ensures
        is_rope(it),
{
    Item {
        name: "Rope".to_string(),
        quantity: 1,
        weight: 1,
        description: "10 meters of rope.".to_string(),
    }
}

/// Builds a flint-and-tinder tiny item.
fn flint_and_tinder() -> (it: Item)
    ensures
        is_flint_and_tinder(it),
{
    Item {
        name: "Flint & Tinder".to_string(),
        quantity: 1,
        weight: 0,
        description: "Starts fires.".to_string(),
    }
}

/// Fills the gear, coinage and memento fields from the profession
/// template. Any previous contents are discarded, so repeated assignment
/// for the same profession yields identical results.
pub fn assign_starting_gear_coins_memento(
    profession: &Profession,
    inventory: &mut Vec<Item>,
    tiny_items: &mut Vec<Item>,
    weapons_at_hand: &mut Vec<Weapon>,
    armor: &mut Option<ArmorItem>,
    helmet: &mut Option<ArmorItem>,
    memento: &mut String,
    gold: &mut u32,
    silver: &mut u32,
    copper: &mut u32,
)
    ensures
        gear_ok(
            *profession,
            final(inventory)@,
            final(tiny_items)@,
            final(weapons_at_hand)@,
            *final(armor),
            *final(helmet),
            final(memento)@,
            *final(gold),
            *final(silver),
            *final(copper),
        ),
{
    inventory.clear();
    tiny_items.clear();
    weapons_at_hand.clear();
    *armor = None;
    *helmet = None;

    match profession {
        Profession::MageElementalist => {
            *memento = "Worn diary full of your experiences and discoveries.".to_string();
            *gold = 0;
            *silver = 7;
            *copper = 0;

            weapons_at_hand.push(Weapon {
                name: "Staff".to_string(),
                grip: "2h".to_string(),
                range: "2".to_string(),
                damage: "D8".to_string(),
                durability: 9,
                features: vec!["Bludgeoning".to_string()],
                skill_used: "Staves".to_string(),
            });

            inventory.push(Item {
                name: "Spellbook".to_string(),
                quantity: 1,
                weight: 1,
                description: "Contains known spells and magical research.".to_string(),
            });
            inventory.push(torch());
            tiny_items.push(flint_and_tinder());
        }
        Profession::Hunter => {
            *memento = "Fang from the troll that slew your sister.".to_string();
            *gold = 0;
            *silver = 6;
            *copper = 0;

            weapons_at_hand.push(Weapon {
                name: "Longbow".to_string(),
                grip: "2h".to_string(),
                range: "100".to_string(),
                damage: "D12".to_string(),
                durability: 6,
                features: vec!["Piercing".to_string()],
                skill_used: "Bows".to_string(),
            });
            weapons_at_hand.push(Weapon {
                name: "Knife".to_string(),
                grip: "1h".to_string(),
                range: "1".to_string(),
                damage: "D8".to_string(),
                durability: 3,
                features: vec!["Subtle".to_string(), "Piercing".to_string()],
                skill_used: "Knives".to_string(),
            });

            *armor = Some(ArmorItem {
                name: "Leather".to_string(),
                armor_rating: 1,
                bane_on: Vec::new(),
            });

            inventory.push(Item {
                name: "Quiver".to_string(),
                quantity: 1,
                weight: 1,
                description: "Holds arrows for the longbow.".to_string(),
            });
            inventory.push(torch());
            inventory.push(rope());
            tiny_items.push(flint_and_tinder());
        }
        Profession::Knight => {
            *memento = "A fine pipe made of black horn (a gift from your father).".to_string();
            *gold = 1;
            *silver = 0;
            *copper = 0;

            weapons_at_hand.push(Weapon {
                name: "Battleaxe".to_string(),
                grip: "1h".to_string(),
                range: "2".to_string(),
                damage: "2D8".to_string(),
                durability: 9,
                features: vec!["Slashing".to_string()],
                skill_used: "Axes".to_string(),
            });
            weapons_at_hand.push(Weapon {
                name: "Short Sword".to_string(),
                grip: "1h".to_string(),
                range: "2".to_string(),
                damage: "D10".to_string(),
                durability: 12,
                features: vec!["Slashing".to_string(), "Piercing".to_string()],
                skill_used: "Swords".to_string(),
            });
            weapons_at_hand.push(Weapon {
                name: "Small Shield".to_string(),
                grip: "1h".to_string(),
                range: "N/A".to_string(),
                damage: "D8".to_string(),
                durability: 15,
                features: vec!["Bludgeoning".to_string()],
                skill_used: "Swords".to_string(),
            });

            *armor = Some(ArmorItem {
                name: "Plate".to_string(),
                armor_rating: 6,
                bane_on: vec![
                    "Sneaking".to_string(),
                    "Acrobatics".to_string(),
                    "Evade".to_string(),
                ],
            });

            inventory.push(torch());
            tiny_items.push(flint_and_tinder());
        }
        Profession::Thief => {
            *memento = "A treasure map you \"found.\"".to_string();
            *gold = 0;
            *silver = 4;
            *copper = 0;

            weapons_at_hand.push(Weapon {
                name: "Dagger".to_string(),
                grip: "1h".to_string(),
                range: "8".to_string(),
                damage: "D8".to_string(),
                durability: 9,
                features: vec![
                    "Subtle".to_string(),
                    "Piercing".to_string(),
                    "Slashing".to_string(),
                ],
                skill_used: "Knives".to_string(),
            });
            weapons_at_hand.push(Weapon {
                name: "Knife".to_string(),
                grip: "1h".to_string(),
                range: "8".to_string(),
                damage: "D8".to_string(),
                durability: 6,
                features: vec!["Subtle".to_string(), "Piercing".to_string()],
                skill_used: "Knives".to_string(),
            });
            weapons_at_hand.push(Weapon {
                name: "Knife ".to_string(),
                grip: "1h".to_string(),
                range: "8".to_string(),
                damage: "D8".to_string(),
                durability: 6,
                features: vec!["Subtle".to_string(), "Piercing".to_string()],
                skill_used: "Knives".to_string(),
            });

            *armor = Some(ArmorItem {
                name: "Leather".to_string(),
                armor_rating: 1,
                bane_on: Vec::new(),
            });

            inventory.push(Item {
                name: "Lockpicks".to_string(),
                quantity: 1,
                weight: 1,
                description: "Set of lockpicks.".to_string(),
            });
            inventory.push(torch());
            inventory.push(rope());
            tiny_items.push(flint_and_tinder());
        }
        Profession::Fighter => {
            *memento = "Blue bottle of perfume.".to_string();
            *gold = 0;
            *silver = 2;
            *copper = 0;

            weapons_at_hand.push(Weapon {
                name: "Long Spear".to_string(),
                grip: "2h".to_string(),
                range: "4".to_string(),
                damage: "2D8".to_string(),
                durability: 9,
                features: vec!["Long".to_string(), "Piercing".to_string()],
                skill_used: "Spears".to_string(),
            });
            weapons_at_hand.push(Weapon {
                name: "Short Spear".to_string(),
                grip: "1h".to_string(),
                range: "36".to_string(),
                damage: "D10".to_string(),
                durability: 9,
                features: vec!["Piercing".to_string()],
                skill_used: "Spears".to_string(),
            });

            *armor = Some(ArmorItem {
                name: "Studded Leather".to_string(),
                armor_rating: 2,
                bane_on: vec!["Sneaking".to_string()],
            });

            inventory.push(torch());
            tiny_items.push(flint_and_tinder());
        }
    }
}

/// Two items of the same template entry are identical in every field.
pub open spec fn item_like(a: Item, b: Item) -> bool {
    &&& a.name@ == b.name@
    &&& a.quantity == b.quantity
    &&& a.weight == b.weight
    &&& a.description@ == b.description@
}

/// Two weapons of the same template entry are identical in every field.
pub open spec fn weapon_like(a: Weapon, b: Weapon) -> bool {
    &&& a.name@ == b.name@
    &&& a.grip@ == b.grip@
    &&& a.range@ == b.range@
    &&& a.damage@ == b.damage@
    &&& a.durability == b.durability
    &&& a.features@.len() == b.features@.len()
    &&& forall|j: int| 0 <= j < a.features@.len() ==> a.features@[j]@ == b.features@[j]@
    &&& a.skill_used@ == b.skill_used@
}

/// Two armor pieces of the same template entry are identical in every
/// field.
pub open spec fn armor_like(a: ArmorItem, b: ArmorItem) -> bool {
    &&& a.name@ == b.name@
    &&& a.armor_rating == b.armor_rating
    &&& a.bane_on@.len() == b.bane_on@.len()
    &&& forall|j: int| 0 <= j < a.bane_on@.len() ==> a.bane_on@[j]@ == b.bane_on@[j]@
}

/// The determinism law of the gear template: two gear bundles produced for
/// the same profession agree on coinage, memento, the whole weapon list,
/// armor and helmet presence and contents, and both item lists.
pub proof fn lemma_gear_deterministic(
    p: Profession,
    inv1: Seq<Item>,
    tiny1: Seq<Item>,
    w1: Seq<Weapon>,
    armor1: Option<ArmorItem>,
    helmet1: Option<ArmorItem>,
    memento1: Seq<char>,
    gold1: u32,
    silver1: u32,
    copper1: u32,
    inv2: Seq<Item>,
    tiny2: Seq<Item>,
    w2: Seq<Weapon>,
    armor2: Option<ArmorItem>,
    helmet2: Option<ArmorItem>,
    memento2: Seq<char>,
    gold2: u32,
    silver2: u32,
    copper2: u32,
)
    requires
        gear_ok(p, inv1, tiny1, w1, armor1, helmet1, memento1, gold1, silver1, copper1),
        gear_ok(p, inv2, tiny2, w2, armor2, helmet2, memento2, gold2, silver2, copper2),
    ensures
        gold1 == gold2 && silver1 == silver2 && copper1 == copper2,
        memento1 == memento2,
        w1.len() == w2.len(),
        forall|i: int| 0 <= i < w1.len() ==> weapon_like(#[trigger] w1[i], w2[i]),
        armor1 is Some <==> armor2 is Some,
        (armor1 is Some && armor2 is Some) ==> armor_like(armor1->Some_0, armor2->Some_0),
        helmet1 is None && helmet2 is None,
        inv1.len() == inv2.len(),
        forall|i: int| 0 <= i < inv1.len() ==> item_like(#[trigger] inv1[i], inv2[i]),
        tiny1.len() == tiny2.len(),
        forall|i: int| 0 <= i < tiny1.len() ==> item_like(#[trigger] tiny1[i], tiny2[i]),
{
}

} // verus!
