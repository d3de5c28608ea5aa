//! The FEAT table: a final total and a fumble flag become a graded outcome.
use vstd::prelude::*;
use vstd::string::StringExecFns;
use crate::text::{int_text, push_int};

verus! {

/// The graded outcome of a FEAT check.
#[derive(Debug, Clone, PartialEq, Eq, Structural)]
pub enum FeatResult {
    /// Unmodified roll of two ones: automatic failure with consequences.
    CriticalFailure,
    /// Final total of 15 or less: the task is not accomplished.
    Failure,
    /// Final total 16 to 19: bare minimum success with a cost.
    PartialSuccess,
    /// Final total 20 to 34: accomplished, with 1 to 4 success levels.
    Success { success_levels: u8 },
    /// Final total 35 or more: the best outcome, worth 5 success levels.
    CriticalSuccess,
}

/// The FEAT table, with the fumble rule taking priority over any total.
pub open spec fn feat_of(total: int, is_fumble: bool) -> FeatResult {
    if is_fumble {
        FeatResult::CriticalFailure
    } else if total <= 15 {
        FeatResult::Failure
    } else if total <= 19 {
        FeatResult::PartialSuccess
    } else if total <= 22 {
        FeatResult::Success { success_levels: 1 }
    } else if total <= 26 {
        FeatResult::Success { success_levels: 2 }
    } else if total <= 30 {
        FeatResult::Success { success_levels: 3 }
    } else if total <= 34 {
        FeatResult::Success { success_levels: 4 }
    } else {
        FeatResult::CriticalSuccess
    }
}

/// The closed range of totals that row `k` of the table covers, `k < 7`;
/// the first row is open below and the last open above.
pub open spec fn in_row(k: int, t: int) -> bool {
    if k == 0 {
        t <= 15
    } else if k == 1 {
        16 <= t <= 19
    } else if k == 2 {
        20 <= t <= 22
    } else if k == 3 {
        23 <= t <= 26
    } else if k == 4 {
        27 <= t <= 30
    } else if k == 5 {
        31 <= t <= 34
    } else if k == 6 {
        35 <= t
    } else {
        false
    }
}

/// The outcome that row `k` of the table gives when there is no fumble.
pub open spec fn row_outcome(k: int) -> FeatResult {
    if k == 0 {
        FeatResult::Failure
    } else if k == 1 {
        FeatResult::PartialSuccess
    } else if 2 <= k <= 5 {
        FeatResult::Success { success_levels: (k - 1) as u8 }
    } else {
        FeatResult::CriticalSuccess
    }
}

impl FeatResult {
    /// Success levels carried by each outcome.
    pub open spec fn levels(&self) -> u8 {
        match self {
            FeatResult::Success { success_levels } => *success_levels,
            FeatResult::CriticalSuccess => 5,
            _ => 0,
        }
    }

    pub open spec fn emoji_of(&self) -> Seq<char> {
        match self {
            FeatResult::CriticalFailure => "💀"@,
            FeatResult::Failure => "❌"@,
            FeatResult::PartialSuccess => "⚠️"@,
            FeatResult::Success { .. } => "✅"@,
            FeatResult::CriticalSuccess => "🌟"@,
        }
    }

    pub open spec fn name_of(&self) -> Seq<char> {
        match self {
            FeatResult::CriticalFailure => "CRITICAL FAILURE"@,
            FeatResult::Failure => "FAILURE"@,
            FeatResult::PartialSuccess => "PARTIAL SUCCESS"@,
            FeatResult::Success { success_levels } => "SUCCESS ("@ + int_text(
                *success_levels as int,
            ) + " SL)"@,
            FeatResult::CriticalSuccess => "CRITICAL SUCCESS (5 SL)"@,
        }
    }

    pub open spec fn description_of(&self) -> Seq<char> {
        match self {
            FeatResult::CriticalFailure => "Fumble! Danger, broken equipment, or +4 to enemies' next roll."@,
            FeatResult::Failure => "Task not accomplished."@,
            FeatResult::PartialSuccess => "Bare minimum success with cost/complication, or failure."@,
            FeatResult::Success { .. } => "Task accomplished! Spend Success Levels on Boons."@,
            FeatResult::CriticalSuccess => "Best possible outcome! 5 Success Levels for Boons."@,
        }
    }

    /// The number of success levels: the carried count for `Success`, 5 for
    /// `CriticalSuccess`, 0 otherwise.
    pub fn success_levels(&self) -> (r: u8)
        ensures
            r == self.levels(),
    {
        match self {
            FeatResult::CriticalFailure => 0,
            FeatResult::Failure => 0,
            FeatResult::PartialSuccess => 0,
            FeatResult::Success { success_levels } => *success_levels,
            FeatResult::CriticalSuccess => 5,
        }
    }

    /// Whether this is any kind of success.
    pub fn is_success(&self) -> (r: bool)
        ensures
            r == (self is Success || self is CriticalSuccess),
    {
        match self {
            FeatResult::Success { .. } => true,
            FeatResult::CriticalSuccess => true,
            _ => false,
        }
    }

    /// A one-symbol marker for the outcome.
    pub fn emoji(&self) -> (r: &'static str)
        ensures
            r@ == self.emoji_of(),
    {
        match self {
            FeatResult::CriticalFailure => "💀",
            FeatResult::Failure => "❌",
            FeatResult::PartialSuccess => "⚠️",
            FeatResult::Success { .. } => "✅",
            FeatResult::CriticalSuccess => "🌟",
        }
    }

    /// The display name, with the success levels of a `Success`.
    pub fn name(&self) -> (r: String)
        ensures
            r@ == self.name_of(),
    {
        match self {
            FeatResult::CriticalFailure => String::from_str("CRITICAL FAILURE"),
            FeatResult::Failure => String::from_str("FAILURE"),
            FeatResult::PartialSuccess => String::from_str("PARTIAL SUCCESS"),
            FeatResult::Success { success_levels } => {
                let mut s = String::from_str("SUCCESS (");
                push_int(&mut s, *success_levels as i64);
                s.append(" SL)");
                s
            },
            FeatResult::CriticalSuccess => String::from_str("CRITICAL SUCCESS (5 SL)"),
        }
    }

    /// What the outcome means at the table.
    pub fn description(&self) -> (r: &'static str)
        ensures
            r@ == self.description_of(),
    {
        match self {
            FeatResult::CriticalFailure => "Fumble! Danger, broken equipment, or +4 to enemies' next roll.",
            FeatResult::Failure => "Task not accomplished.",
            FeatResult::PartialSuccess => "Bare minimum success with cost/complication, or failure.",
            FeatResult::Success { .. } => "Task accomplished! Spend Success Levels on Boons.",
            FeatResult::CriticalSuccess => "Best possible outcome! 5 Success Levels for Boons.",
        }
    }
}

/// Classifies a final total (after all modifiers); a fumble is a critical
/// failure whatever the total.
pub fn resolve_feat(total: i32, is_fumble: bool) -> (r: FeatResult)
    ensures
        r == feat_of(total as int, is_fumble),
{
    if is_fumble {
        return FeatResult::CriticalFailure;
    }
    if total <= 15 {
        FeatResult::Failure
    } else if total <= 19 {
        FeatResult::PartialSuccess
    } else if total <= 22 {
        FeatResult::Success { success_levels: 1 }
    } else if total <= 26 {
        FeatResult::Success { success_levels: 2 }
    } else if total <= 30 {
        FeatResult::Success { success_levels: 3 }
    } else if total <= 34 {
        FeatResult::Success { success_levels: 4 }
    } else {
        FeatResult::CriticalSuccess
    }
}

/// The text of a classified roll:
/// `<emoji> **<name>** (Total: <total>)` and, on the next line, the description.
pub open spec fn feat_text(result: FeatResult, total: int) -> Seq<char> {
    result.emoji_of() + " **"@ + result.name_of() + "** (Total: "@ + int_text(total) + ")\n"@
        + result.description_of()
}

/// Renders a classified roll for display.
pub fn format_feat_result(result: &FeatResult, total: i32) -> (r: String)
    ensures
        r@ == feat_text(*result, total as int),
{
    let mut s = String::from_str(result.emoji());
    s.append(" **");
    let name = result.name();
    s.append(name.as_str());
    s.append("** (Total: ");
    push_int(&mut s, total as i64);
    s.append(")\n");
    s.append(result.description());
    assert(s@ =~= feat_text(*result, total as int));
    s
}

/// Every integer total falls in exactly one row of the table, and without a
/// fumble the outcome is that row's outcome.
pub proof fn lemma_rows_partition(t: int)
    ensures
        exists|k: int| 0 <= k < 7 && in_row(k, t),
        forall|j: int, k: int| 0 <= j < 7 && 0 <= k < 7 && in_row(j, t) && in_row(k, t) ==> j == k,
        forall|k: int| 0 <= k < 7 && in_row(k, t) ==> feat_of(t, false) == row_outcome(k),
{
    let k = if t <= 15 {
        0
    } else if t <= 19 {
        1
    } else if t <= 22 {
        2
    } else if t <= 26 {
        3
    } else if t <= 30 {
        4
    } else if t <= 34 {
        5
    } else {
        6
    };
    assert(in_row(k, t));
}

/// A fumble is a critical failure whatever the total.
pub proof fn lemma_fumble_overrides(t: int)
    ensures
        feat_of(t, true) == FeatResult::CriticalFailure,
{
}

/// Classification keeps no memory: equal inputs give equal outcomes.
pub proof fn lemma_classify_pure(t1: int, f1: bool, t2: int, f2: bool)
    requires
        t1 == t2,
        f1 == f2,
    ensures
        feat_of(t1, f1) == feat_of(t2, f2),
{
}

/// Success levels: 1 to 4 for a `Success` from the table, 5 at a critical
/// success, 0 for every other outcome.
pub proof fn lemma_table_levels(t: int, f: bool)
    ensures
        1 <= feat_of(t, f).levels() <= 4 <==> feat_of(t, f) is Success,
        feat_of(t, f).levels() == 5 <==> feat_of(t, f) is CriticalSuccess,
{
}

} // verus!
