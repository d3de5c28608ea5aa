use fexdice::feat::{resolve_feat, FeatResult};
use fexdice::roll::{
    final_total, format_roll, next_step, roll_2d10_closed, roll_2d10_open, roll_with_modifier,
    DiceResult, Next, RollError, MAX_EXPLOSIONS,
};

fn sample(base: (u8, u8), explosions: Vec<(u8, u8)>, raw_total: i32, is_fumble: bool) -> DiceResult {
    let exploded = !explosions.is_empty();
    DiceResult { base_rolls: base, explosions, raw_total, is_fumble, exploded }
}

#[test]
fn test_d10_range() {
    for _ in 0..100 {
        let (d1, d2, sum) = roll_2d10_closed();
        assert!(d1 >= 1 && d1 <= 10, "d10 out of range: {}", d1);
        assert!(d2 >= 1 && d2 <= 10, "d10 out of range: {}", d2);
        assert_eq!(sum, d1 as i32 + d2 as i32);
    }
}

#[test]
fn test_dice_result_unmodified_sum() {
    let result = sample((5, 7), vec![], 12, false);
    assert_eq!(result.unmodified_sum(), 12);
}

#[test]
fn test_fumble_detection() {
    let result = sample((1, 1), vec![], 2, true);
    assert!(result.is_fumble);
    assert_eq!(result.unmodified_sum(), 2);
}

#[test]
fn test_format_basic_roll() {
    let result = sample((6, 8), vec![], 14, false);
    let formatted = format_roll(&result, None);
    assert!(formatted.contains("[6, 8]"));
    assert!(formatted.contains("= 14"));
}

#[test]
fn test_format_with_modifier() {
    let result = sample((6, 8), vec![], 14, false);
    let formatted = format_roll(&result, Some(5));
    assert!(formatted.contains("+ 5"));
    assert!(formatted.contains("**19**"));
}

#[test]
fn test_format_explosion() {
    let result = sample((10, 10), vec![(8, 7)], 35, false);
    let formatted = format_roll(&result, None);
    assert!(formatted.contains("💥"));
    assert!(formatted.contains("[8, 7] = 15"));
    assert!(formatted.contains("= 35"));
}

#[test]
fn explosion_trace_exact() {
    let result = DiceResult::from_dice((10, 10), vec![(8, 7)]);
    assert_eq!(result.raw_total, 35);
    assert_eq!(format_roll(&result, None), "[10, 10] = 20 💥 → [8, 7] = 15 = 35");
}

#[test]
fn chained_explosion_trace_exact() {
    let result = DiceResult::from_dice((9, 10), vec![(10, 10), (3, 4)]);
    assert_eq!(result.raw_total, 46);
    assert_eq!(
        format_roll(&result, Some(-2)),
        "[9, 10] = 19 💥 → [10, 10] = 20 💥 → [3, 4] = 7 = 46  -2 = **44**"
    );
}

#[test]
fn fumble_trace_exact() {
    let result = DiceResult::from_dice((1, 1), vec![]);
    assert_eq!(format_roll(&result, Some(0)), "[1, 1] = 2 + 0 = **2** ⚠️ FUMBLE!");
}

#[test]
fn from_dice_totals_and_flags() {
    let r = DiceResult::from_dice((1, 1), vec![]);
    assert!(r.is_fumble);
    assert!(!r.exploded);
    assert_eq!(r.raw_total, 2);
    let r = DiceResult::from_dice((10, 9), vec![(9, 10), (1, 1)]);
    assert!(!r.is_fumble);
    assert!(r.exploded);
    assert_eq!(r.raw_total, 19 + 19 + 2);
    let r = DiceResult::from_dice((1, 2), vec![]);
    assert!(!r.is_fumble);
    assert_eq!(r.raw_total, 3);
}

#[test]
fn open_rolls_keep_their_shape() {
    for _ in 0..2000 {
        let r = roll_2d10_open().unwrap();
        let mut dice = vec![r.base_rolls];
        dice.extend(r.explosions.iter().copied());
        for (a, b) in &dice {
            assert!((1..=10).contains(a) && (1..=10).contains(b));
        }
        let sum: i32 = dice.iter().map(|(a, b)| *a as i32 + *b as i32).sum();
        assert_eq!(r.raw_total, sum);
        assert_eq!(r.is_fumble, r.base_rolls == (1, 1));
        assert_eq!(r.explosions.is_empty(), r.unmodified_sum() < 19);
        assert_eq!(r.exploded, !r.explosions.is_empty());
        for (i, (a, b)) in dice.iter().enumerate() {
            if i + 1 < dice.len() {
                assert!(a + b >= 19);
            } else {
                assert!(a + b < 19);
            }
        }
    }
}

#[test]
fn modifier_composition() {
    let r = DiceResult::from_dice((6, 8), vec![]);
    assert_eq!(final_total(&r, 5), Some(19));
    assert_eq!(resolve_feat(19, r.is_fumble), FeatResult::PartialSuccess);
    assert_eq!(final_total(&r, -2), Some(12));
    assert_eq!(resolve_feat(12, r.is_fumble), FeatResult::Failure);
}

#[test]
fn modifier_out_of_range() {
    let r = DiceResult::from_dice((6, 8), vec![]);
    assert_eq!(final_total(&r, i32::MAX), None);
    assert_eq!(final_total(&r, i32::MAX - 14), Some(i32::MAX));
    assert_eq!(roll_with_modifier(i32::MAX).unwrap_err(), RollError::TotalOutOfRange);
}

#[test]
fn roll_with_modifier_adds_it() {
    for m in [-20, -2, 0, 5, 40] {
        let (r, t) = roll_with_modifier(m).unwrap();
        assert_eq!(t, r.raw_total + m);
        assert_eq!(r.is_fumble, r.base_rolls == (1, 1));
    }
}

#[test]
fn cloned_result_is_equal() {
    let r = DiceResult::from_dice((10, 10), vec![(8, 7)]);
    let c = r.clone();
    assert_eq!(c.base_rolls, r.base_rolls);
    assert_eq!(c.explosions, r.explosions);
    assert_eq!(c.raw_total, r.raw_total);
}

#[test]
fn step_after_each_pair() {
    assert_eq!(next_step(0, (9, 9)), Next::Stop);
    assert_eq!(next_step(0, (1, 1)), Next::Stop);
    assert_eq!(next_step(0, (9, 10)), Next::Roll);
    assert_eq!(next_step(0, (10, 10)), Next::Roll);
    assert_eq!(next_step(3, (10, 9)), Next::Roll);
    assert_eq!(next_step(MAX_EXPLOSIONS - 1, (10, 10)), Next::Roll);
    assert_eq!(next_step(MAX_EXPLOSIONS, (10, 10)), Next::Limit);
    assert_eq!(next_step(MAX_EXPLOSIONS, (8, 7)), Next::Stop);
}
