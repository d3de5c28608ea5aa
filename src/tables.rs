//! The game's smaller tables that sit around a roll: attack damage, weapon
//! and spell fumbles, magical resonance and opposed rolls.
use vstd::prelude::*;

verus! {

/// What an attack's final total does.
#[derive(Debug, Clone, Copy, PartialEq, Eq, Structural)]
pub enum AttackDamage {
    /// Below 20: the attack misses.
    Miss,
    /// A hit, with no damage rating given to compute damage from.
    Hit,
    /// A hit: the damage rating plus the points over 20, capped at twice the rating.
    Damage { total: i64, bonus: i64 },
}

/// Damage of an attack: at 20 or more a hit; with a positive damage rating
/// `dr` it deals `dr` plus the points over 20, that bonus capped at `2 * dr`.
pub open spec fn attack_damage_of(final_total: int, dr: int) -> AttackDamage {
    if final_total < 20 {
        AttackDamage::Miss
    } else if dr <= 0 {
        AttackDamage::Hit
    } else {
        let over = final_total - 20;
        let bonus = if over < 2 * dr {
            over
        } else {
            2 * dr
        };
        AttackDamage::Damage { total: (dr + bonus) as i64, bonus: bonus as i64 }
    }
}

/// Resolves an attack's damage from its final total and damage rating.
pub fn attack_damage(final_total: i32, damage_rating: i32) -> (r: AttackDamage)
    ensures
        r == attack_damage_of(final_total as int, damage_rating as int),
{
    if final_total < 20 {
        AttackDamage::Miss
    } else if damage_rating <= 0 {
        AttackDamage::Hit
    } else {
        let over: i64 = final_total as i64 - 20;
        let cap: i64 = 2 * damage_rating as i64;
        let bonus: i64 = if over < cap {
            over
        } else {
            cap
        };
        AttackDamage::Damage { total: damage_rating as i64 + bonus, bonus }
    }
}

/// The weapon classes of the weapon fumble table.
#[derive(Debug, Clone, Copy, PartialEq, Eq, Structural)]
pub enum WeaponType {
    Brawl,
    ShortEdged,
    LongEdged,
    TwoHanded,
    Polearm,
}

/// Modifier that a weapon class adds to a weapon fumble roll.
pub open spec fn weapon_modifier_of(w: WeaponType) -> i32 {
    match w {
        WeaponType::Brawl => 0,
        WeaponType::ShortEdged => 2,
        WeaponType::LongEdged => 4,
        WeaponType::TwoHanded => 6,
        WeaponType::Polearm => 10,
    }
}

pub fn weapon_modifier(w: WeaponType) -> (r: i32)
    ensures
        r == weapon_modifier_of(w),
{
    match w {
        WeaponType::Brawl => 0,
        WeaponType::ShortEdged => 2,
        WeaponType::LongEdged => 4,
        WeaponType::TwoHanded => 6,
        WeaponType::Polearm => 10,
    }
}

/// Half of `x`, rounded toward zero.
pub open spec fn half_toward_zero(x: int) -> int {
    if x >= 0 {
        x / 2
    } else {
        -((-x) / 2)
    }
}

/// Total of a weapon fumble roll: the closed 2d10 sum plus the weapon
/// modifier, less half the skill ranks (rounded toward zero).
pub fn weapon_fumble_total(dice_total: i32, weapon_mod: i32, skill_ranks: i32) -> (r: i64)
    ensures
        r == dice_total + weapon_mod - half_toward_zero(skill_ranks as int),
{
    let half: i32 = skill_ranks / 2;
    dice_total as i64 + weapon_mod as i64 - half as i64
}

/// The weapon fumble table.
pub open spec fn weapon_fumble_effect_of(total: int) -> Seq<char> {
    if total <= 15 {
        "📋 Make Assessment Roll next Upkeep"@
    } else if total <= 20 {
        "📋 Assessment + choose 1: Drop weapon OR Take 1 SL critical to self"@
    } else if total <= 25 {
        "📋 Assessment + choose 2: Drop, 2 SL critical to self, Hit ally"@
    } else if total <= 30 {
        "📋 Assessment + choose 2: Drop, 2 SL critical, Hit ally, Weapon breaks"@
    } else {
        "💀 Assessment + choose 2: Drop, 3 SL critical, Hit ally, Weapon breaks"@
    }
}

pub fn weapon_fumble_effect(total: i64) -> (r: &'static str)
    ensures
        r@ == weapon_fumble_effect_of(total as int),
{
    if total <= 15 {
        "📋 Make Assessment Roll next Upkeep"
    } else if total <= 20 {
        "📋 Assessment + choose 1: Drop weapon OR Take 1 SL critical to self"
    } else if total <= 25 {
        "📋 Assessment + choose 2: Drop, 2 SL critical to self, Hit ally"
    } else if total <= 30 {
        "📋 Assessment + choose 2: Drop, 2 SL critical, Hit ally, Weapon breaks"
    } else {
        "💀 Assessment + choose 2: Drop, 3 SL critical, Hit ally, Weapon breaks"
    }
}

/// The spell kinds of the spell fumble table.
#[derive(Debug, Clone, Copy, PartialEq, Eq, Structural)]
pub enum SpellType {
    Healing,
    Utility,
    Enchantment,
    Alteration,
    Dark,
}

/// Modifier that a spell kind adds to a spell fumble roll.
pub open spec fn spell_modifier_of(s: SpellType) -> i32 {
    match s {
        SpellType::Healing => 0,
        SpellType::Utility => 2,
        SpellType::Enchantment => 4,
        SpellType::Alteration => 6,
        SpellType::Dark => 6,
    }
}

pub fn spell_modifier(s: SpellType) -> (r: i32)
    ensures
        r == spell_modifier_of(s),
{
    match s {
        SpellType::Healing => 0,
        SpellType::Utility => 2,
        SpellType::Enchantment => 4,
        SpellType::Alteration => 6,
        SpellType::Dark => 6,
    }
}

/// Total of a spell fumble roll: the closed 2d10 sum plus the spell tier and
/// the spell kind's modifier, less the caster's ranks.
pub fn spell_fumble_total(dice_total: i32, tier: i32, spell_mod: i32, ranks: i32) -> (r: i64)
    ensures
        r == dice_total + tier + spell_mod - ranks,
{
    dice_total as i64 + tier as i64 + spell_mod as i64 - ranks as i64
}

/// The spell fumble table.
pub open spec fn spell_fumble_effect_of(total: int) -> Seq<char> {
    if total <= 18 {
        "💫 Lose Mana Points"@
    } else if total <= 22 {
        "💫 Lose Mana, Stunned 1 round"@
    } else if total <= 26 {
        "💫 Stunned 1 round + choose 1: Lose double Mana OR Spell delays 2 rounds"@
    } else if total <= 30 {
        "💫 Stunned 2 rounds + choose 1: Lose double Mana OR Spell hits different target"@
    } else if total <= 34 {
        "⚡ Stunned 3 rounds + choose 2: Lose triple Mana, wrong target, Magical Resonance (+4)"@
    } else {
        "💀 Stunned 4 rounds + choose 2: Lose triple Mana + Weary, wrong target, Resonance (+10), KO 6h"@
    }
}

pub fn spell_fumble_effect(total: i64) -> (r: &'static str)
    ensures
        r@ == spell_fumble_effect_of(total as int),
{
    if total <= 18 {
        "💫 Lose Mana Points"
    } else if total <= 22 {
        "💫 Lose Mana, Stunned 1 round"
    } else if total <= 26 {
        "💫 Stunned 1 round + choose 1: Lose double Mana OR Spell delays 2 rounds"
    } else if total <= 30 {
        "💫 Stunned 2 rounds + choose 1: Lose double Mana OR Spell hits different target"
    } else if total <= 34 {
        "⚡ Stunned 3 rounds + choose 2: Lose triple Mana, wrong target, Magical Resonance (+4)"
    } else {
        "💀 Stunned 4 rounds + choose 2: Lose triple Mana + Weary, wrong target, Resonance (+10), KO 6h"
    }
}

/// Magical resonance: the base dice show a double no higher than the spell's tier.
pub fn magical_resonance(d1: u8, d2: u8, tier: i32) -> (r: bool)
    ensures
        r == (d1 == d2 && d1 as int <= tier as int),
{
    d1 == d2 && (d1 as i32) <= tier
}

/// Who wins an opposed roll.
#[derive(Debug, Clone, Copy, PartialEq, Eq, Structural)]
pub enum Opposed {
    BothFumbled,
    FirstFumbled,
    SecondFumbled,
    FirstWins,
    SecondWins,
    Tie,
}

/// A fumble loses whatever the totals; otherwise the higher total wins.
pub open spec fn opposed_of(fumble1: bool, total1: int, fumble2: bool, total2: int) -> Opposed {
    if fumble1 && fumble2 {
        Opposed::BothFumbled
    } else if fumble1 {
        Opposed::FirstFumbled
    } else if fumble2 {
        Opposed::SecondFumbled
    } else if total1 > total2 {
        Opposed::FirstWins
    } else if total2 > total1 {
        Opposed::SecondWins
    } else {
        Opposed::Tie
    }
}

/// Decides an opposed roll from each side's fumble flag and final total.
pub fn opposed_winner(fumble1: bool, total1: i32, fumble2: bool, total2: i32) -> (r: Opposed)
    ensures
        r == opposed_of(fumble1, total1 as int, fumble2, total2 as int),
{
    if fumble1 && fumble2 {
        Opposed::BothFumbled
    } else if fumble1 {
        Opposed::FirstFumbled
    } else if fumble2 {
        Opposed::SecondFumbled
    } else if total1 > total2 {
        Opposed::FirstWins
    } else if total2 > total1 {
        Opposed::SecondWins
    } else {
        Opposed::Tie
    }
}

impl Opposed {
    pub open spec fn message_of(&self) -> Seq<char> {
        match self {
            Opposed::BothFumbled => "💀 Both fumbled!"@,
            Opposed::FirstFumbled => "💀 Participant 1 fumbled! **Participant 2 wins**"@,
            Opposed::SecondFumbled => "💀 Participant 2 fumbled! **Participant 1 wins**"@,
            Opposed::FirstWins => "🏆 **Participant 1 wins!**"@,
            Opposed::SecondWins => "🏆 **Participant 2 wins!**"@,
            Opposed::Tie => "⚔️ **Tie!** Neither wins, re-roll or find another solution"@,
        }
    }

    /// The announcement of an opposed roll's outcome.
    pub fn message(&self) -> (r: &'static str)
        ensures
            r@ == self.message_of(),
    {
        match self {
            Opposed::BothFumbled => "💀 Both fumbled!",
            Opposed::FirstFumbled => "💀 Participant 1 fumbled! **Participant 2 wins**",
            Opposed::SecondFumbled => "💀 Participant 2 fumbled! **Participant 1 wins**",
            Opposed::FirstWins => "🏆 **Participant 1 wins!**",
            Opposed::SecondWins => "🏆 **Participant 2 wins!**",
            Opposed::Tie => "⚔️ **Tie!** Neither wins, re-roll or find another solution",
        }
    }
}

/// The winner's side does not depend on which participant is called first.
pub proof fn lemma_opposed_symmetric(f1: bool, t1: int, f2: bool, t2: int)
    ensures
        opposed_of(f1, t1, f2, t2) == match opposed_of(f2, t2, f1, t1) {
            Opposed::FirstFumbled => Opposed::SecondFumbled,
            Opposed::SecondFumbled => Opposed::FirstFumbled,
            Opposed::FirstWins => Opposed::SecondWins,
            Opposed::SecondWins => Opposed::FirstWins,
            other => other,
        },
{
}

} // verus!
