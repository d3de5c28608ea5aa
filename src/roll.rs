//! The 2d10 roll: two ten-sided dice, chained explosions on a pair summing
//! to 19 or 20, and a fumble on a pair of ones.
use rand::Rng;
use vstd::prelude::*;
use vstd::string::StringExecFns;
use crate::text::{int_text, push_int};

verus! {

/// A pair summing to at least this much explodes: another pair is rolled and added.
pub const EXPLODE_AT: u8 = 19;

/// The most explosion pairs one roll may chain before it is abandoned as a
/// broken random source; a fair die reaches it with negligible probability.
pub const MAX_EXPLOSIONS: usize = 10000;

/// Why a roll could not produce a result.
#[derive(Debug, Clone, Copy, PartialEq, Eq, Structural)]
pub enum RollError {
    /// The explosion chain reached `MAX_EXPLOSIONS` pairs without stopping.
    ExplosionLimit,
    /// The raw total plus the modifier does not fit in an `i32`.
    TotalOutOfRange,
}

/// Result of a 2d10 open-ended roll.
#[derive(Debug)]
pub struct DiceResult {
    /// The two initial d10 rolls.
    pub base_rolls: (u8, u8),
    /// The explosion pairs, in the order they were rolled.
    pub explosions: Vec<(u8, u8)>,
    /// Raw total before modifiers.
    pub raw_total: i32,
    /// Whether the base pair was two ones.
    pub is_fumble: bool,
    /// Whether at least one explosion occurred.
    pub exploded: bool,
}

pub open spec fn is_die(v: u8) -> bool {
    1 <= v <= 10
}

pub open spec fn pair_dice(p: (u8, u8)) -> bool {
    is_die(p.0) && is_die(p.1)
}

pub open spec fn pair_sum(p: (u8, u8)) -> int {
    p.0 + p.1
}

/// Sum of every die of every pair in `s`.
pub open spec fn chain_total(s: Seq<(u8, u8)>) -> int
    decreases s.len(),
{
    if s.len() == 0 {
        0
    } else {
        chain_total(s.drop_last()) + pair_sum(s.last())
    }
}

/// The base pair followed by the explosion pairs.
pub open spec fn links(base: (u8, u8), chain: Seq<(u8, u8)>) -> Seq<(u8, u8)> {
    seq![base] + chain
}

/// Each pair but the last triggered the next one; the last did not explode.
pub open spec fn chain_shape(base: (u8, u8), chain: Seq<(u8, u8)>) -> bool {
    let l = links(base, chain);
    &&& forall|i: int| 0 <= i < l.len() - 1 ==> pair_sum(#[trigger] l[i]) >= EXPLODE_AT
    &&& pair_sum(l.last()) < EXPLODE_AT
}

impl Clone for DiceResult {
    fn clone(&self) -> (r: DiceResult)
        ensures
            r.base_rolls == self.base_rolls,
            r.chain() == self.chain(),
            r.raw_total == self.raw_total,
            r.is_fumble == self.is_fumble,
            r.exploded == self.exploded,
    {
        let mut explosions: Vec<(u8, u8)> = Vec::new();
        let mut i: usize = 0;
        while i < self.explosions.len()
            invariant
                i <= self.chain().len(),
                explosions@ == self.chain().subrange(0, i as int),
            decreases self.chain().len() - i,
        {
            explosions.push(self.explosions[i]);
            i = i + 1;
            assert(explosions@ =~= self.chain().subrange(0, i as int));
        }
        assert(explosions@ =~= self.chain());
        DiceResult {
            base_rolls: self.base_rolls,
            explosions,
            raw_total: self.raw_total,
            is_fumble: self.is_fumble,
            exploded: self.exploded,
        }
    }
}

impl DiceResult {
    pub open spec fn chain(&self) -> Seq<(u8, u8)> {
        self.explosions@
    }

    /// Every die shows a value from 1 to 10.
    pub open spec fn dice_ok(&self) -> bool {
        &&& pair_dice(self.base_rolls)
        &&& forall|i: int| 0 <= i < self.chain().len() ==> pair_dice(#[trigger] self.chain()[i])
    }

    /// The derived fields agree with the dice.
    pub open spec fn totals_ok(&self) -> bool {
        &&& self.raw_total == pair_sum(self.base_rolls) + chain_total(self.chain())
        &&& self.is_fumble == (self.base_rolls == (1u8, 1u8))
        &&& self.exploded == (self.chain().len() > 0)
    }

    /// A result that an open-ended roll can produce.
    pub open spec fn wf(&self) -> bool {
        &&& self.dice_ok()
        &&& self.totals_ok()
        &&& chain_shape(self.base_rolls, self.chain())
        &&& self.chain().len() <= MAX_EXPLOSIONS
    }

    /// The unmodified sum of the base dice (used for fumble/explosion checks).
    pub fn unmodified_sum(&self) -> (r: u8)
        requires
            pair_sum(self.base_rolls) <= 255,
        ensures
            r == pair_sum(self.base_rolls),
    {
        self.base_rolls.0 + self.base_rolls.1
    }
}

proof fn lemma_chain_total_push(s: Seq<(u8, u8)>, p: (u8, u8))
    ensures
        chain_total(s.push(p)) == chain_total(s) + pair_sum(p),
{
    assert(s.push(p).drop_last() =~= s);
}

/// Relies on rand's `thread_rng().gen_range(1..=10)`: a uniform value in the
/// closed range from 1 to 10 (the range is not empty, so it does not panic).
#[verifier::external_body]
fn roll_d10() -> (r: u8)
    ensures
        is_die(r),
{
    rand::thread_rng().gen_range(1..=10)
}

impl DiceResult {
    /// Builds the result of rolling `base_rolls` and then `explosions`:
    /// the raw total is every die added up, the fumble flag tells whether
    /// the base pair is two ones.
    pub fn from_dice(base_rolls: (u8, u8), explosions: Vec<(u8, u8)>) -> (r: DiceResult)
        requires
            pair_dice(base_rolls),
            forall|i: int| 0 <= i < explosions@.len() ==> pair_dice(#[trigger] explosions@[i]),
            explosions@.len() <= MAX_EXPLOSIONS,
        ensures
            r.base_rolls == base_rolls,
            r.chain() == explosions@,
            r.dice_ok(),
            r.totals_ok(),
    {
        let mut total: i32 = (base_rolls.0 + base_rolls.1) as i32;
        let mut i: usize = 0;
        while i < explosions.len()
            invariant
                i <= explosions@.len() <= MAX_EXPLOSIONS,
                forall|j: int| 0 <= j < explosions@.len() ==> pair_dice(#[trigger] explosions@[j]),
                total == pair_sum(base_rolls) + chain_total(explosions@.subrange(0, i as int)),
                total <= 20 * (i + 1),
            decreases explosions@.len() - i,
        {
            let p = explosions[i];
            proof {
                lemma_chain_total_push(explosions@.subrange(0, i as int), p);
                assert(explosions@.subrange(0, i as int).push(p) =~= explosions@.subrange(0, i + 1));
            }
            total = total + (p.0 + p.1) as i32;
            i = i + 1;
        }
        assert(explosions@.subrange(0, i as int) =~= explosions@);
        let is_fumble = base_rolls.0 == 1 && base_rolls.1 == 1;
        let exploded = explosions.len() > 0;
        DiceResult { base_rolls, explosions, raw_total: total, is_fumble, exploded }
    }
}

/// What an open-ended roll does after a pair has been rolled.
#[derive(Debug, Clone, Copy, PartialEq, Eq, Structural)]
pub enum Next {
    /// The pair did not explode: the roll is complete.
    Stop,
    /// The pair exploded: roll another pair and add it.
    Roll,
    /// The pair exploded, but the chain already holds `MAX_EXPLOSIONS` pairs.
    Limit,
}

/// The decision after pair `last`, with `n` explosion pairs already in the chain.
pub open spec fn next_of(n: int, last: (u8, u8)) -> Next {
    if pair_sum(last) < EXPLODE_AT {
        Next::Stop
    } else if n >= MAX_EXPLOSIONS {
        Next::Limit
    } else {
        Next::Roll
    }
}

/// Decides what follows pair `last` (the base pair, or the latest explosion
/// pair) when the chain holds `n` explosion pairs.
pub fn next_step(n: usize, last: (u8, u8)) -> (r: Next)
    ensures
        r == next_of(n as int, last),
{
    if (last.0 as u16) + (last.1 as u16) < EXPLODE_AT as u16 {
        Next::Stop
    } else if n >= MAX_EXPLOSIONS {
        Next::Limit
    } else {
        Next::Roll
    }
}

/// Rolls 2d10 open-ended: after each pair `next_step` decides whether the
/// roll stops, another pair is rolled and added, or the chain has reached
/// `MAX_EXPLOSIONS` and the roll fails with `ExplosionLimit`. Two ones on
/// the base pair is a fumble.
pub fn roll_2d10_open() -> (r: Result<DiceResult, RollError>)
    ensures
        r matches Ok(d) ==> d.wf(),
        r matches Err(e) ==> e == RollError::ExplosionLimit,
{
    let d1 = roll_d10();
    let d2 = roll_d10();
    let base = (d1, d2);
    let mut explosions: Vec<(u8, u8)> = Vec::new();
    let mut step = next_step(0, base);
    while step == Next::Roll
        invariant
            pair_dice(base),
            explosions@.len() <= MAX_EXPLOSIONS,
            forall|j: int| 0 <= j < explosions@.len() ==> pair_dice(#[trigger] explosions@[j]),
            step == next_of(explosions@.len() as int, links(base, explosions@).last()),
            forall|i: int|
                0 <= i < links(base, explosions@).len() - 1 ==> pair_sum(
                    #[trigger] links(base, explosions@)[i],
                ) >= EXPLODE_AT,
        decreases MAX_EXPLOSIONS - explosions@.len(),
    {
        let e1 = roll_d10();
        let e2 = roll_d10();
        let ghost prev = explosions@;
        explosions.push((e1, e2));
        assert(links(base, explosions@) =~= links(base, prev).push((e1, e2)));
        step = next_step(explosions.len(), (e1, e2));
    }
    match step {
        Next::Limit => Err(RollError::ExplosionLimit),
        _ => Ok(DiceResult::from_dice(base, explosions)),
    }
}

/// Every die of a roll that an open-ended roll produced lies between 1 and 10.
pub proof fn lemma_dice_in_range(r: DiceResult)
    requires
        r.wf(),
    ensures
        1 <= r.base_rolls.0 <= 10 && 1 <= r.base_rolls.1 <= 10,
        forall|i: int|
            0 <= i < r.chain().len() ==> 1 <= (#[trigger] r.chain()[i]).0 <= 10 && 1
                <= r.chain()[i].1 <= 10,
{
    assert forall|i: int| 0 <= i < r.chain().len() implies 1 <= (#[trigger] r.chain()[i]).0 <= 10
        && 1 <= r.chain()[i].1 <= 10 by {
        assert(pair_dice(r.chain()[i]));
    }
}

/// The final total: the raw total plus `modifier`, when it fits in an `i32`.
pub fn final_total(result: &DiceResult, modifier: i32) -> (r: Option<i32>)
    ensures
        r == (if i32::MIN <= result.raw_total + modifier <= i32::MAX {
            Some((result.raw_total + modifier) as i32)
        } else {
            None::<i32>
        }),
{
    result.raw_total.checked_add(modifier)
}

/// Rolls 2d10 open-ended and adds `modifier` to the raw total. The modifier
/// plays no part in the dice or the fumble flag.
pub fn roll_with_modifier(modifier: i32) -> (r: Result<(DiceResult, i32), RollError>)
    ensures
        r matches Ok((d, t)) ==> d.wf() && t == d.raw_total + modifier,
        r matches Err(e) ==> e == RollError::ExplosionLimit || e == RollError::TotalOutOfRange,
        r matches Err(e) && e == RollError::TotalOutOfRange ==> modifier > i32::MAX - 20 * (
        MAX_EXPLOSIONS + 1),
{
    let result = match roll_2d10_open() {
        Ok(d) => d,
        Err(e) => return Err(e),
    };
    proof {
        lemma_raw_total_bounds(result);
    }
    match final_total(&result, modifier) {
        Some(t) => Ok((result, t)),
        None => Err(RollError::TotalOutOfRange),
    }
}

/// Rolls 2d10 without explosions (used for initiative): both dice and their sum.
pub fn roll_2d10_closed() -> (r: (u8, u8, i32))
    ensures
        is_die(r.0),
        is_die(r.1),
        r.2 == r.0 + r.1,
{
    let d1 = roll_d10();
    let d2 = roll_d10();
    (d1, d2, (d1 + d2) as i32)
}

/// A chain of explosions is empty exactly when the base pair sums below 19.
pub proof fn lemma_chain_empty_iff(base: (u8, u8), chain: Seq<(u8, u8)>)
    requires
        chain_shape(base, chain),
    ensures
        chain.len() == 0 <==> pair_sum(base) < EXPLODE_AT,
{
    let l = links(base, chain);
    assert(l[0] == base);
    if chain.len() > 0 {
        assert(pair_sum(l[0]) >= EXPLODE_AT);
    } else {
        assert(l.last() == base);
    }
}

/// The raw total of a result made from dice lies between 2 and 20 for each pair.
pub proof fn lemma_raw_total_bounds(r: DiceResult)
    requires
        r.dice_ok(),
        r.totals_ok(),
    ensures
        2 * (r.chain().len() + 1) <= r.raw_total <= 20 * (r.chain().len() + 1),
{
    lemma_chain_total_bounds(r.chain());
}

proof fn lemma_chain_total_bounds(s: Seq<(u8, u8)>)
    requires
        forall|i: int| 0 <= i < s.len() ==> pair_dice(#[trigger] s[i]),
    ensures
        2 * s.len() <= chain_total(s) <= 20 * s.len(),
    decreases s.len(),
{
    if s.len() > 0 {
        let t = s.drop_last();
        assert forall|i: int| 0 <= i < t.len() implies pair_dice(#[trigger] t[i]) by {
            assert(t[i] == s[i]);
        }
        lemma_chain_total_bounds(t);
        assert(pair_dice(s[s.len() - 1]));
    }
}

/// `[d1, d2] = sum` for one pair.
pub open spec fn pair_text(p: (u8, u8)) -> Seq<char> {
    "["@ + int_text(p.0 as int) + ", "@ + int_text(p.1 as int) + "] = "@ + int_text(pair_sum(p))
}

/// One explosion link, marked when it triggered a further explosion.
pub open spec fn link_text(p: (u8, u8)) -> Seq<char> {
    if pair_sum(p) >= EXPLODE_AT {
        pair_text(p) + " 💥"@
    } else {
        pair_text(p)
    }
}

/// The explosion links in roll order, joined by arrows.
pub open spec fn chain_text(s: Seq<(u8, u8)>) -> Seq<char>
    decreases s.len(),
{
    if s.len() == 0 {
        Seq::empty()
    } else if s.len() == 1 {
        link_text(s[0])
    } else {
        chain_text(s.drop_last()) + " → "@ + link_text(s.last())
    }
}

/// The signed modifier and the final total it gives.
pub open spec fn modifier_text(raw_total: int, m: i32) -> Seq<char> {
    " "@ + (if m >= 0 {
        "+"@
    } else {
        Seq::empty()
    }) + " "@ + int_text(m as int) + " = **"@ + int_text(raw_total + m) + "**"@
}

/// The trace of a roll: the base pair and its sum; if it exploded, each
/// link in order and the raw total; the modifier and final total if one is
/// given; and a fumble marker.
pub open spec fn roll_text(r: DiceResult, modifier: Option<i32>) -> Seq<char> {
    pair_text(r.base_rolls) + (if r.chain().len() > 0 {
        " 💥 → "@ + chain_text(r.chain()) + " = "@ + int_text(r.raw_total as int)
    } else {
        Seq::empty()
    }) + (match modifier {
        Some(m) => modifier_text(r.raw_total as int, m),
        None => Seq::empty(),
    }) + (if r.is_fumble {
        " ⚠️ FUMBLE!"@
    } else {
        Seq::empty()
    })
}

fn push_pair(out: &mut String, p: (u8, u8))
    ensures
        final(out)@ == old(out)@ + pair_text(p),
{
    out.append("[");
    push_int(out, p.0 as i64);
    out.append(", ");
    push_int(out, p.1 as i64);
    out.append("] = ");
    push_int(out, p.0 as i64 + p.1 as i64);
    assert(final(out)@ =~= old(out)@ + pair_text(p));
}

fn push_chain(out: &mut String, chain: &Vec<(u8, u8)>)
    ensures
        final(out)@ == old(out)@ + chain_text(chain@),
{
    let mut i: usize = 0;
    while i < chain.len()
        invariant
            i <= chain@.len(),
            out@ == old(out)@ + chain_text(chain@.subrange(0, i as int)),
        decreases chain@.len() - i,
    {
        let p = chain[i];
        let ghost before = chain@.subrange(0, i as int);
        if i > 0 {
            out.append(" → ");
        }
        push_pair(out, p);
        if p.0 as u16 + p.1 as u16 >= EXPLODE_AT as u16 {
            out.append(" 💥");
        }
        proof {
            let after = chain@.subrange(0, i + 1);
            assert(after.drop_last() =~= before);
            assert(after.last() == p);
            if i == 0 {
                assert(before =~= Seq::<(u8, u8)>::empty());
            }
        }
        i = i + 1;
        assert(out@ =~= old(out)@ + chain_text(chain@.subrange(0, i as int)));
    }
    assert(chain@.subrange(0, i as int) =~= chain@);
}

fn push_modifier(out: &mut String, raw_total: i32, m: i32)
    ensures
        final(out)@ == old(out)@ + modifier_text(raw_total as int, m),
{
    out.append(" ");
    if m >= 0 {
        out.append("+");
    }
    out.append(" ");
    push_int(out, m as i64);
    out.append(" = **");
    push_int(out, raw_total as i64 + m as i64);
    out.append("**");
    assert(final(out)@ =~= old(out)@ + modifier_text(raw_total as int, m));
}

/// Renders a roll's trace for display, with the modifier if one is given.
pub fn format_roll(result: &DiceResult, modifier: Option<i32>) -> (r: String)
    ensures
        r@ == roll_text(*result, modifier),
{
    let mut out = String::new();
    push_pair(&mut out, result.base_rolls);
    if result.explosions.len() > 0 {
        out.append(" 💥 → ");
        push_chain(&mut out, &result.explosions);
        out.append(" = ");
        push_int(&mut out, result.raw_total as i64);
    }
    match modifier {
        Some(m) => push_modifier(&mut out, result.raw_total, m),
        None => {},
    }
    if result.is_fumble {
        out.append(" ⚠️ FUMBLE!");
    }
    assert(out@ =~= roll_text(*result, modifier));
    out
}

} // verus!
