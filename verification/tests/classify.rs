use mag_display::level::{Sample, SignalLevel};

fn sample(x: i32, y: i32, z: i32) -> Sample {
    Sample { x, y, z }
}

fn level_of(x: i32, y: i32, z: i32) -> SignalLevel {
    SignalLevel::from(sample(x, y, z))
}

#[test]
fn zero_vector_is_level0() {
    assert_eq!(level_of(0, 0, 0), SignalLevel::Level0);
}

#[test]
fn noise_floor_is_level0() {
    assert_eq!(level_of(20_000, 0, 0), SignalLevel::Level0);
    assert_eq!(level_of(-20_000, 0, 0), SignalLevel::Level0);
    // 12000-16000-0 has magnitude exactly 20000.
    assert_eq!(level_of(12_000, 16_000, 0), SignalLevel::Level0);
}

#[test]
fn just_below_first_floor_is_level0() {
    assert_eq!(level_of(94_999, 0, 0), SignalLevel::Level0);
}

#[test]
fn first_floor_is_level1() {
    // Magnitude 95000 rescales to exactly 0.5, which rounds away from zero.
    assert_eq!(level_of(95_000, 0, 0), SignalLevel::Level1);
}

#[test]
fn one_rescale_unit_is_level1() {
    // Magnitude 170000 rescales to exactly 1.
    assert_eq!(level_of(170_000, 0, 0), SignalLevel::Level1);
    // 102000-136000-0 has magnitude exactly 170000 as well.
    assert_eq!(level_of(102_000, 136_000, 0), SignalLevel::Level1);
}

#[test]
fn two_rescale_units_is_level2() {
    assert_eq!(level_of(320_000, 0, 0), SignalLevel::Level2);
}

#[test]
fn four_rescale_units_is_level4() {
    assert_eq!(level_of(620_000, 0, 0), SignalLevel::Level4);
}

#[test]
fn large_magnitude_clamps_to_level5() {
    assert_eq!(level_of(1_000_000, 0, 0), SignalLevel::Level5);
    assert_eq!(level_of(i32::MAX, i32::MAX, i32::MAX), SignalLevel::Level5);
    assert_eq!(level_of(i32::MIN, i32::MIN, i32::MIN), SignalLevel::Level5);
}

#[test]
fn every_level_boundary_rounds_half_up() {
    assert_eq!(level_of(244_999, 0, 0), SignalLevel::Level1);
    assert_eq!(level_of(245_000, 0, 0), SignalLevel::Level2);
    assert_eq!(level_of(394_999, 0, 0), SignalLevel::Level2);
    assert_eq!(level_of(395_000, 0, 0), SignalLevel::Level3);
    assert_eq!(level_of(544_999, 0, 0), SignalLevel::Level3);
    assert_eq!(level_of(545_000, 0, 0), SignalLevel::Level4);
    assert_eq!(level_of(694_999, 0, 0), SignalLevel::Level4);
    assert_eq!(level_of(695_000, 0, 0), SignalLevel::Level5);
}

#[test]
fn negative_axes_classify_by_magnitude() {
    assert_eq!(level_of(-95_000, 0, 0), SignalLevel::Level1);
    assert_eq!(level_of(0, -320_000, 0), SignalLevel::Level2);
    assert_eq!(level_of(0, 0, -1_000_000), SignalLevel::Level5);
}

#[test]
fn level_is_monotone_in_magnitude() {
    let magnitudes = [
        0, 10_000, 94_999, 95_000, 170_000, 244_999, 245_000, 320_000, 395_000, 500_000, 620_000,
        694_999, 695_000, 1_000_000, 2_000_000,
    ];
    let mut last: u8 = 0;
    for m in magnitudes {
        let ord = level_of(m, 0, 0).ordinal();
        assert!(last <= ord);
        last = ord;
    }
}

#[test]
fn ordinal_orders_the_six_levels() {
    assert_eq!(SignalLevel::Level0.ordinal(), 0);
    assert_eq!(SignalLevel::Level1.ordinal(), 1);
    assert_eq!(SignalLevel::Level2.ordinal(), 2);
    assert_eq!(SignalLevel::Level3.ordinal(), 3);
    assert_eq!(SignalLevel::Level4.ordinal(), 4);
    assert_eq!(SignalLevel::Level5.ordinal(), 5);
}
