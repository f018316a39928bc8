use dragonbane_chargen::dice::{roll_d, roll_ndx};

#[test]
fn roll_d_zero_sides_returns_zero() {
    for _ in 0..100 {
        assert_eq!(roll_d(0), 0);
    }
}

#[test]
fn roll_d_stays_in_range() {
    for sides in [1u8, 2, 6, 19, 20, 100] {
        for _ in 0..500 {
            let r = roll_d(sides);
            assert!(1 <= r && r <= sides);
        }
    }
}

#[test]
fn roll_d_one_side_is_always_one() {
    for _ in 0..100 {
        assert_eq!(roll_d(1), 1);
    }
}

#[test]
fn roll_d_six_covers_every_face() {
    let mut seen = [false; 6];
    for _ in 0..10_000 {
        let r = roll_d(6);
        assert!(1 <= r && r <= 6);
        seen[(r - 1) as usize] = true;
    }
    assert!(seen.iter().all(|&s| s));
}

#[test]
fn roll_ndx_three_d6_stays_in_range() {
    for _ in 0..2_000 {
        let r = roll_ndx(3, 6);
        assert!(3 <= r && r <= 18);
    }
}

#[test]
fn roll_ndx_zero_dice_is_zero() {
    assert_eq!(roll_ndx(0, 6), 0);
}

#[test]
fn roll_ndx_zero_sides_is_zero() {
    assert_eq!(roll_ndx(3, 0), 0);
}
