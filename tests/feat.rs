use fexdice::feat::{format_feat_result, resolve_feat, FeatResult};

#[test]
fn test_fumble_always_critical_failure() {
    // Even with high modifiers, fumble is critical failure
    assert_eq!(resolve_feat(50, true), FeatResult::CriticalFailure);
    assert_eq!(resolve_feat(2, true), FeatResult::CriticalFailure);
}

#[test]
fn test_failure_range() {
    assert_eq!(resolve_feat(3, false), FeatResult::Failure);
    assert_eq!(resolve_feat(10, false), FeatResult::Failure);
    assert_eq!(resolve_feat(15, false), FeatResult::Failure);
}

#[test]
fn test_partial_success_range() {
    assert_eq!(resolve_feat(16, false), FeatResult::PartialSuccess);
    assert_eq!(resolve_feat(17, false), FeatResult::PartialSuccess);
    assert_eq!(resolve_feat(19, false), FeatResult::PartialSuccess);
}

#[test]
fn test_success_levels() {
    // 1 SL: 20-22
    assert_eq!(resolve_feat(20, false), FeatResult::Success { success_levels: 1 });
    assert_eq!(resolve_feat(22, false), FeatResult::Success { success_levels: 1 });

    // 2 SL: 23-26
    assert_eq!(resolve_feat(23, false), FeatResult::Success { success_levels: 2 });
    assert_eq!(resolve_feat(26, false), FeatResult::Success { success_levels: 2 });

    // 3 SL: 27-30
    assert_eq!(resolve_feat(27, false), FeatResult::Success { success_levels: 3 });
    assert_eq!(resolve_feat(30, false), FeatResult::Success { success_levels: 3 });

    // 4 SL: 31-34
    assert_eq!(resolve_feat(31, false), FeatResult::Success { success_levels: 4 });
    assert_eq!(resolve_feat(34, false), FeatResult::Success { success_levels: 4 });
}

#[test]
fn test_critical_success() {
    assert_eq!(resolve_feat(35, false), FeatResult::CriticalSuccess);
    assert_eq!(resolve_feat(50, false), FeatResult::CriticalSuccess);
    assert_eq!(resolve_feat(100, false), FeatResult::CriticalSuccess);
}

#[test]
fn test_success_levels_method() {
    assert_eq!(FeatResult::CriticalFailure.success_levels(), 0);
    assert_eq!(FeatResult::Failure.success_levels(), 0);
    assert_eq!(FeatResult::PartialSuccess.success_levels(), 0);
    assert_eq!(FeatResult::Success { success_levels: 3 }.success_levels(), 3);
    assert_eq!(FeatResult::CriticalSuccess.success_levels(), 5);
}

#[test]
fn test_is_success() {
    assert!(!FeatResult::CriticalFailure.is_success());
    assert!(!FeatResult::Failure.is_success());
    assert!(!FeatResult::PartialSuccess.is_success());
    assert!(FeatResult::Success { success_levels: 1 }.is_success());
    assert!(FeatResult::CriticalSuccess.is_success());
}

#[test]
fn fumble_overrides_any_total() {
    for t in [-100, 0, 35, 1000, i32::MIN, i32::MAX] {
        assert_eq!(resolve_feat(t, true), FeatResult::CriticalFailure);
    }
}

#[test]
fn table_boundaries() {
    assert_eq!(resolve_feat(15, false), FeatResult::Failure);
    assert_eq!(resolve_feat(16, false), FeatResult::PartialSuccess);
    assert_eq!(resolve_feat(22, false), FeatResult::Success { success_levels: 1 });
    assert_eq!(resolve_feat(23, false), FeatResult::Success { success_levels: 2 });
    assert_eq!(resolve_feat(34, false), FeatResult::Success { success_levels: 4 });
    assert_eq!(resolve_feat(35, false), FeatResult::CriticalSuccess);
    assert_eq!(resolve_feat(-100, false), FeatResult::Failure);
    assert_eq!(resolve_feat(i32::MIN, false), FeatResult::Failure);
    assert_eq!(resolve_feat(i32::MAX, false), FeatResult::CriticalSuccess);
}

#[test]
fn every_total_in_one_row() {
    let rows: [(i32, i32); 7] = [(i32::MIN, 15), (16, 19), (20, 22), (23, 26), (27, 30), (31, 34), (35, i32::MAX)];
    for t in -60..80 {
        let hits = rows.iter().filter(|(lo, hi)| *lo <= t && t <= *hi).count();
        assert_eq!(hits, 1);
        let levels = resolve_feat(t, false).success_levels();
        let row = rows.iter().position(|(lo, hi)| *lo <= t && t <= *hi).unwrap();
        let expected = [0u8, 0, 1, 2, 3, 4, 5][row];
        assert_eq!(levels, expected);
    }
}

#[test]
fn classify_twice_same() {
    for t in [-5, 15, 16, 20, 27, 35] {
        for f in [false, true] {
            assert_eq!(resolve_feat(t, f), resolve_feat(t, f));
        }
    }
}

#[test]
fn names_and_markers() {
    assert_eq!(FeatResult::CriticalFailure.name(), "CRITICAL FAILURE");
    assert_eq!(FeatResult::Failure.name(), "FAILURE");
    assert_eq!(FeatResult::PartialSuccess.name(), "PARTIAL SUCCESS");
    assert_eq!(FeatResult::Success { success_levels: 3 }.name(), "SUCCESS (3 SL)");
    assert_eq!(FeatResult::CriticalSuccess.name(), "CRITICAL SUCCESS (5 SL)");
    assert_eq!(FeatResult::CriticalFailure.emoji(), "💀");
    assert_eq!(FeatResult::Success { success_levels: 2 }.emoji(), "✅");
    assert_eq!(FeatResult::Failure.description(), "Task not accomplished.");
}

#[test]
fn feat_text_layout() {
    let r = resolve_feat(24, false);
    assert_eq!(
        format_feat_result(&r, 24),
        "✅ **SUCCESS (2 SL)** (Total: 24)\nTask accomplished! Spend Success Levels on Boons."
    );
    let f = resolve_feat(-3, true);
    assert_eq!(
        format_feat_result(&f, -3),
        "💀 **CRITICAL FAILURE** (Total: -3)\nFumble! Danger, broken equipment, or +4 to enemies' next roll."
    );
}
