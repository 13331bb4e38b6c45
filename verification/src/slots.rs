//! The slot machine: reel symbols and the payout table.

use crate::rng::draw_u8;
use rand::rngs::SmallRng;
use vstd::prelude::*;

verus! {

/// Fixed stake of one spin, in cookies.
pub const SLOT_BET: u64 = 100;

/// Symbols for the slot machine reels.
#[derive(Debug, Clone, Copy, PartialEq, Eq, Structural)]
pub enum Symbol {
    Cherry,
    Lemon,
    Bell,
    Diamond,
    Seven,
}

/// The symbol a roll in `0..100` lands on: cherry below 35, lemon below 65, bell
/// below 85, diamond below 95, seven otherwise (weights 35/30/20/10/5).
pub open spec fn spec_symbol_of_roll(roll: u8) -> Symbol {
    if roll < 35 {
        Symbol::Cherry
    } else if roll < 65 {
        Symbol::Lemon
    } else if roll < 85 {
        Symbol::Bell
    } else if roll < 95 {
        Symbol::Diamond
    } else {
        Symbol::Seven
    }
}

/// Out of the hundred equally likely rolls, how many land on each symbol.
pub open spec fn symbol_weight(s: Symbol) -> int {
    match s {
        Symbol::Cherry => 35,
        Symbol::Lemon => 30,
        Symbol::Bell => 20,
        Symbol::Diamond => 10,
        Symbol::Seven => 5,
    }
}

/// The first roll that lands on each symbol; the rolls of a symbol run from
/// there for `symbol_weight` values.
pub open spec fn first_roll(s: Symbol) -> int {
    match s {
        Symbol::Cherry => 0,
        Symbol::Lemon => 35,
        Symbol::Bell => 65,
        Symbol::Diamond => 85,
        Symbol::Seven => 95,
    }
}

/// The reel weights: each symbol is hit by a run of `symbol_weight` of the
/// hundred rolls, so a seven comes up on 5 rolls in 100, and the weights add
/// up to the hundred rolls.
pub proof fn lemma_symbol_weights(roll: u8, s: Symbol)
    requires
        roll < 100,
    ensures
        spec_symbol_of_roll(roll) == s <==> first_roll(s) <= roll < first_roll(s) + symbol_weight(s),
        symbol_weight(Symbol::Cherry) + symbol_weight(Symbol::Lemon) + symbol_weight(Symbol::Bell)
            + symbol_weight(Symbol::Diamond) + symbol_weight(Symbol::Seven) == 100,
        symbol_weight(Symbol::Cherry) == 35 && symbol_weight(Symbol::Lemon) == 30
            && symbol_weight(Symbol::Bell) == 20 && symbol_weight(Symbol::Diamond) == 10
            && symbol_weight(Symbol::Seven) == 5,
        (spec_symbol_of_roll(roll) == Symbol::Cherry) <==> roll < 35,
        (spec_symbol_of_roll(roll) == Symbol::Seven) <==> 95 <= roll,
{
}

impl Symbol {
    /// The reel glyph of the symbol.
    pub fn label(&self) -> (s: &'static str)
        ensures
            s@ == match *self {
                Symbol::Cherry => "🍒"@,
                Symbol::Lemon => "🍋"@,
                Symbol::Bell => "🔔"@,
                Symbol::Diamond => "💎"@,
                Symbol::Seven => "7️⃣"@,
            },
    {
        match self {
            Symbol::Cherry => "🍒",
            Symbol::Lemon => "🍋",
            Symbol::Bell => "🔔",
            Symbol::Diamond => "💎",
            Symbol::Seven => "7️⃣",
        }
    }

    /// The symbol selected by a weighted roll in `0..100`.
    pub fn from_roll(roll: u8) -> (s: Symbol)
        ensures
            s == spec_symbol_of_roll(roll),
    {
        if roll < 35 {
            Symbol::Cherry
        } else if roll < 65 {
            Symbol::Lemon
        } else if roll < 85 {
            Symbol::Bell
        } else if roll < 95 {
            Symbol::Diamond
        } else {
            Symbol::Seven
        }
    }

    /// Draws one reel symbol: a roll in `0..100` mapped through the weights.
    pub fn random(rng: &mut SmallRng) -> (s: Symbol)
        ensures
            exists|roll: u8| roll < 100 && s == spec_symbol_of_roll(roll),
    {
        let roll = draw_u8(rng, 0, 99);
        Symbol::from_roll(roll)
    }
}

/// Gross return of a spin: three of a kind pays 5 (cherries), 3 (lemons),
/// 7 (bells), 25 (diamonds) or 100 (sevens) times the stake; otherwise any
/// cherry returns half the stake; otherwise nothing.
pub open spec fn spec_slot_payout(reels: [Symbol; 3]) -> int {
    triple_payout(reels[0], reels[1], reels[2])
}

/// Compute slot payout based on three reels (gross, not net).
pub fn slot_payout(reels: &[Symbol; 3]) -> (gross: u64)
    ensures
        gross == spec_slot_payout(*reels),
{
    if reels[0] == reels[1] && reels[1] == reels[2] {
        match reels[0] {
            Symbol::Cherry => SLOT_BET * 5,
            Symbol::Lemon => SLOT_BET * 3,
            Symbol::Bell => SLOT_BET * 7,
            Symbol::Diamond => SLOT_BET * 25,
            Symbol::Seven => SLOT_BET * 100,
        }
    } else if reels[0] == Symbol::Cherry || reels[1] == Symbol::Cherry || reels[2]
        == Symbol::Cherry {
        SLOT_BET / 2
    } else {
        0
    }
}

/// A spin returns more than its stake exactly when all three reels match.
pub proof fn lemma_slot_wins_only_on_triples(reels: [Symbol; 3])
    ensures
        spec_slot_payout(reels) > SLOT_BET <==> (reels[0] == reels[1] && reels[1] == reels[2]),
        spec_slot_payout(reels) <= 100 * SLOT_BET,
{
}

/// The gross return of the reels `a`, `b`, `c` (see `spec_slot_payout`).
pub open spec fn triple_payout(a: Symbol, b: Symbol, c: Symbol) -> int {
    if a == b && b == c {
        match a {
            Symbol::Cherry => 5 * SLOT_BET,
            Symbol::Lemon => 3 * SLOT_BET,
            Symbol::Bell => 7 * SLOT_BET,
            Symbol::Diamond => 25 * SLOT_BET,
            Symbol::Seven => 100 * SLOT_BET,
        }
    } else if a == Symbol::Cherry || b == Symbol::Cherry || c == Symbol::Cherry {
        SLOT_BET as int / 2
    } else {
        0
    }
}

/// The gross return of the spin `a`, `b`, `c` weighted by how many of the
/// 100 x 100 x 100 equally likely roll triples land on it.
pub open spec fn weighted_payout(a: Symbol, b: Symbol, c: Symbol) -> int {
    symbol_weight(a) * symbol_weight(b) * symbol_weight(c) * triple_payout(a, b, c)
}

/// Weighted gross return over the roll triples whose first two reels show
/// `a` and `b`.
pub open spec fn pair_payout(a: Symbol, b: Symbol) -> int {
    weighted_payout(a, b, Symbol::Cherry) + weighted_payout(a, b, Symbol::Lemon) + weighted_payout(
        a,
        b,
        Symbol::Bell,
    ) + weighted_payout(a, b, Symbol::Diamond) + weighted_payout(a, b, Symbol::Seven)
}

/// Weighted gross return over the roll triples whose first reel shows `a`.
pub open spec fn row_payout(a: Symbol) -> int {
    pair_payout(a, Symbol::Cherry) + pair_payout(a, Symbol::Lemon) + pair_payout(a, Symbol::Bell)
        + pair_payout(a, Symbol::Diamond) + pair_payout(a, Symbol::Seven)
}

/// Gross return summed over all million roll triples.
pub open spec fn total_weighted_payout() -> int {
    row_payout(Symbol::Cherry) + row_payout(Symbol::Lemon) + row_payout(Symbol::Bell) + row_payout(
        Symbol::Diamond,
    ) + row_payout(Symbol::Seven)
}

/// The house keeps an edge on the slot machine: over the million equally
/// likely roll triples a spin returns 73,012,500 cookies in all, about 73
/// cookies on average for a stake of 100.
pub proof fn lemma_slots_favour_the_house()
    ensures
        total_weighted_payout() == 73_012_500,
        total_weighted_payout() < SLOT_BET * 1_000_000,
{
    assert(pair_payout(Symbol::Cherry, Symbol::Cherry) == 25_418_750) by (nonlinear_arith);
    assert(pair_payout(Symbol::Cherry, Symbol::Lemon) == 5_250_000) by (nonlinear_arith);
    assert(pair_payout(Symbol::Cherry, Symbol::Bell) == 3_500_000) by (nonlinear_arith);
    assert(pair_payout(Symbol::Cherry, Symbol::Diamond) == 1_750_000) by (nonlinear_arith);
    assert(pair_payout(Symbol::Cherry, Symbol::Seven) == 875_000) by (nonlinear_arith);
    assert(pair_payout(Symbol::Lemon, Symbol::Cherry) == 5_250_000) by (nonlinear_arith);
    assert(pair_payout(Symbol::Lemon, Symbol::Lemon) == 9_675_000) by (nonlinear_arith);
    assert(pair_payout(Symbol::Lemon, Symbol::Bell) == 1_050_000) by (nonlinear_arith);
    assert(pair_payout(Symbol::Lemon, Symbol::Diamond) == 525_000) by (nonlinear_arith);
    assert(pair_payout(Symbol::Lemon, Symbol::Seven) == 262_500) by (nonlinear_arith);
    assert(pair_payout(Symbol::Bell, Symbol::Cherry) == 3_500_000) by (nonlinear_arith);
    assert(pair_payout(Symbol::Bell, Symbol::Lemon) == 1_050_000) by (nonlinear_arith);
    assert(pair_payout(Symbol::Bell, Symbol::Bell) == 6_300_000) by (nonlinear_arith);
    assert(pair_payout(Symbol::Bell, Symbol::Diamond) == 350_000) by (nonlinear_arith);
    assert(pair_payout(Symbol::Bell, Symbol::Seven) == 175_000) by (nonlinear_arith);
    assert(pair_payout(Symbol::Diamond, Symbol::Cherry) == 1_750_000) by (nonlinear_arith);
    assert(pair_payout(Symbol::Diamond, Symbol::Lemon) == 525_000) by (nonlinear_arith);
    assert(pair_payout(Symbol::Diamond, Symbol::Bell) == 350_000) by (nonlinear_arith);
    assert(pair_payout(Symbol::Diamond, Symbol::Diamond) == 2_675_000) by (nonlinear_arith);
    assert(pair_payout(Symbol::Diamond, Symbol::Seven) == 87_500) by (nonlinear_arith);
    assert(pair_payout(Symbol::Seven, Symbol::Cherry) == 875_000) by (nonlinear_arith);
    assert(pair_payout(Symbol::Seven, Symbol::Lemon) == 262_500) by (nonlinear_arith);
    assert(pair_payout(Symbol::Seven, Symbol::Bell) == 175_000) by (nonlinear_arith);
    assert(pair_payout(Symbol::Seven, Symbol::Diamond) == 87_500) by (nonlinear_arith);
    assert(pair_payout(Symbol::Seven, Symbol::Seven) == 1_293_750) by (nonlinear_arith);
    assert(row_payout(Symbol::Cherry) == 36_793_750);
    assert(row_payout(Symbol::Lemon) == 16_762_500);
    assert(row_payout(Symbol::Bell) == 11_375_000);
    assert(row_payout(Symbol::Diamond) == 5_387_500);
    assert(row_payout(Symbol::Seven) == 2_693_750);
}

/// The payout table as the game documents it, for a stake of 100: three
/// cherries pay 500, three lemons 300, three bells 700, three diamonds 2,500
/// and three sevens 10,000; any other spin with a cherry returns 50 and the
/// rest nothing.
pub proof fn lemma_slot_payout_table(a: Symbol, b: Symbol, c: Symbol)
    ensures
        SLOT_BET == 100,
        spec_slot_payout([Symbol::Cherry, Symbol::Cherry, Symbol::Cherry]) == 500,
        spec_slot_payout([Symbol::Lemon, Symbol::Lemon, Symbol::Lemon]) == 300,
        spec_slot_payout([Symbol::Bell, Symbol::Bell, Symbol::Bell]) == 700,
        spec_slot_payout([Symbol::Diamond, Symbol::Diamond, Symbol::Diamond]) == 2500,
        spec_slot_payout([Symbol::Seven, Symbol::Seven, Symbol::Seven]) == 10000,
        !(a == b && b == c) && (a == Symbol::Cherry || b == Symbol::Cherry || c == Symbol::Cherry)
            ==> spec_slot_payout([a, b, c]) == 50,
        !(a == b && b == c) && a != Symbol::Cherry && b != Symbol::Cherry && c != Symbol::Cherry
            ==> spec_slot_payout([a, b, c]) == 0,
{
}

} // verus!
