use dragonbane_chargen::kin::Kin;
use dragonbane_chargen::profession::Profession;
use dragonbane_chargen::weakness::Weakness;

fn weakness_table_position(w: &Weakness) -> usize {
    match w {
        Weakness::Arrogant => 0,
        Weakness::Greedy => 1,
        Weakness::Suspicious => 2,
        Weakness::ShortTempered => 3,
        Weakness::Stubborn => 4,
        Weakness::Vain => 5,
        Weakness::Cowardly => 6,
        Weakness::Jealous => 7,
        Weakness::Loudmouthed => 8,
        Weakness::Lazy => 9,
        Weakness::Fainthearted => 10,
        Weakness::Superstitious => 11,
        Weakness::Gullible => 12,
        Weakness::Bigoted => 13,
        Weakness::Reckless => 14,
        Weakness::Gluttonous => 15,
        Weakness::Foolhardy => 16,
        Weakness::Forgetful => 17,
        Weakness::Curious => 18,
    }
}

#[test]
fn weakness_draw_covers_all_nineteen_entries() {
    let mut counts = [0u32; 19];
    let trials = 19_000;
    for _ in 0..trials {
        let w = Weakness::random();
        counts[weakness_table_position(&w)] += 1;
    }
    // every entry appears, and none hoards the draws: a loose uniformity
    // check that a correct uniform draw passes with overwhelming margin
    for &c in counts.iter() {
        assert!(c > 0);
        assert!(c < trials / 4);
    }
}

#[test]
fn kin_draw_covers_all_six_entries() {
    let mut seen = [false; 6];
    for _ in 0..6_000 {
        let k = Kin::random();
        let i = match k {
            Kin::Human => 0,
            Kin::Halfling => 1,
            Kin::Dwarf => 2,
            Kin::Elf => 3,
            Kin::Mallard => 4,
            Kin::Wolfkin => 5,
        };
        seen[i] = true;
    }
    assert!(seen.iter().all(|&s| s));
}

#[test]
fn profession_draw_covers_all_five_entries() {
    let mut seen = [false; 5];
    for _ in 0..5_000 {
        let p = Profession::random();
        let i = match p {
            Profession::MageElementalist => 0,
            Profession::Hunter => 1,
            Profession::Knight => 2,
            Profession::Thief => 3,
            Profession::Fighter => 4,
        };
        seen[i] = true;
    }
    assert!(seen.iter().all(|&s| s));
}

#[test]
fn kin_innate_ability_texts() {
    let human = Kin::Human.innate_abilities();
    assert_eq!(human.len(), 1);
    assert!(human[0].starts_with("Adaptive"));

    let mallard = Kin::Mallard.innate_abilities();
    assert_eq!(mallard.len(), 2);
    assert!(mallard[0].starts_with("Ill-tempered"));
    assert!(mallard[1].starts_with("Webbed Feet"));

    let elf = Kin::Elf.innate_abilities();
    assert_eq!(elf.len(), 1);
    assert_eq!(
        elf[0],
        "Inner Peace (Meditate during stretch rest for D6 extra HP, D6 extra WP, and recover an additional condition. Unresponsive during meditation.)"
    );
}

#[test]
fn kin_innate_abilities_are_deterministic() {
    for k in [
        Kin::Human,
        Kin::Halfling,
        Kin::Dwarf,
        Kin::Elf,
        Kin::Mallard,
        Kin::Wolfkin,
    ] {
        assert_eq!(k.innate_abilities(), k.innate_abilities());
    }
}
