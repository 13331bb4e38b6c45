//! European roulette: pocket colours and bet resolution.

use vstd::prelude::*;

verus! {

/// Colour of a roulette pocket.
#[derive(Debug, Clone, Copy, PartialEq, Eq, Structural)]
pub enum RouletteColor {
    Red,
    Black,
    Green,
}

/// The red pockets of a European wheel.
pub open spec fn is_red_pocket(number: int) -> bool {
    ||| number == 1 || number == 3 || number == 5 || number == 7 || number == 9
    ||| number == 12 || number == 14 || number == 16 || number == 18
    ||| number == 19 || number == 21 || number == 23 || number == 25 || number == 27
    ||| number == 30 || number == 32 || number == 34 || number == 36
}

/// Colour of pocket `number`: zero is green, the standard red pockets are red,
/// every other number is black.
pub open spec fn spec_roulette_color(number: int) -> RouletteColor {
    if number == 0 {
        RouletteColor::Green
    } else if is_red_pocket(number) {
        RouletteColor::Red
    } else {
        RouletteColor::Black
    }
}

/// Standard European roulette number-to-color mapping.
pub fn roulette_color(number: u8) -> (color: RouletteColor)
    ensures
        color == spec_roulette_color(number as int),
{
    if number == 0 {
        RouletteColor::Green
    } else {
        match number {
            1 | 3 | 5 | 7 | 9 | 12 | 14 | 16 | 18 | 19 | 21 | 23 | 25 | 27 | 30 | 32 | 34
            | 36 => RouletteColor::Red,
            _ => RouletteColor::Black,
        }
    }
}


/// Available bet types in roulette.
#[derive(Debug, Clone, Copy, PartialEq, Eq, Structural)]
pub enum RouletteBetType {
    Red,
    Black,
    Green,
    Odd,
    Even,
    /// Pockets 1 to 18.
    Low,
    /// Pockets 19 to 36.
    High,
}

impl RouletteBetType {
    /// Human-readable name of the bet.
    pub fn label(&self) -> (s: &'static str)
        ensures
            s@ == match *self {
                RouletteBetType::Red => "Red"@,
                RouletteBetType::Black => "Black"@,
                RouletteBetType::Green => "Green (0)"@,
                RouletteBetType::Odd => "Odd"@,
                RouletteBetType::Even => "Even"@,
                RouletteBetType::Low => "Low (1-18)"@,
                RouletteBetType::High => "High (19-36)"@,
            },
    {
        match self {
            RouletteBetType::Red => "Red",
            RouletteBetType::Black => "Black",
            RouletteBetType::Green => "Green (0)",
            RouletteBetType::Odd => "Odd",
            RouletteBetType::Even => "Even",
            RouletteBetType::Low => "Low (1-18)",
            RouletteBetType::High => "High (19-36)",
        }
    }

    /// Gross return per cookie wagered on a winning bet: 14 on green, 2 otherwise.
    pub open spec fn spec_payout_multiplier(self) -> u64 {
        match self {
            RouletteBetType::Green => 14,
            _ => 2,
        }
    }

    /// Gross return per cookie wagered on a winning bet (the stake included).
    pub fn payout_multiplier(&self) -> (m: u64)
        ensures
            m == self.spec_payout_multiplier(),
    {
        match self {
            RouletteBetType::Green => 14,
            _ => 2,
        }
    }
}

/// Whether `bet` wins when the ball lands on `number`.
pub open spec fn spec_roulette_bet_wins(bet: RouletteBetType, number: int) -> bool {
    match bet {
        RouletteBetType::Red => spec_roulette_color(number) == RouletteColor::Red,
        RouletteBetType::Black => spec_roulette_color(number) == RouletteColor::Black,
        RouletteBetType::Green => spec_roulette_color(number) == RouletteColor::Green,
        RouletteBetType::Odd => number > 0 && number % 2 == 1,
        RouletteBetType::Even => number > 0 && number % 2 == 0,
        RouletteBetType::Low => 1 <= number <= 18,
        RouletteBetType::High => 19 <= number <= 36,
    }
}

/// Check if a roulette bet wins for the given number.
pub fn roulette_bet_wins(bet: RouletteBetType, number: u8) -> (wins: bool)
    ensures
        wins == spec_roulette_bet_wins(bet, number as int),
{
    let color = roulette_color(number);
    match bet {
        RouletteBetType::Red => color == RouletteColor::Red,
        RouletteBetType::Black => color == RouletteColor::Black,
        RouletteBetType::Green => color == RouletteColor::Green,
        RouletteBetType::Odd => number > 0 && number % 2 == 1,
        RouletteBetType::Even => number > 0 && number % 2 == 0,
        RouletteBetType::Low => number >= 1 && number <= 18,
        RouletteBetType::High => number >= 19 && number <= 36,
    }
}

/// On every pocket of the wheel exactly one of the three colour bets wins, and
/// green wins exactly on zero.
pub proof fn lemma_colour_bets_partition(number: int)
    requires
        0 <= number <= 36,
    ensures
        (spec_roulette_bet_wins(RouletteBetType::Red, number) as int)
            + (spec_roulette_bet_wins(RouletteBetType::Black, number) as int)
            + (spec_roulette_bet_wins(RouletteBetType::Green, number) as int) == 1,
        spec_roulette_bet_wins(RouletteBetType::Green, number) <==> number == 0,
{
}

/// Zero loses every bet but green; every other pocket is exactly one of odd or
/// even, and exactly one of low or high.
pub proof fn lemma_zero_and_outside_bets(number: int)
    requires
        0 <= number <= 36,
    ensures
        number == 0 ==> forall|b: RouletteBetType|
            b != RouletteBetType::Green ==> !#[trigger] spec_roulette_bet_wins(b, number),
        number != 0 ==> (spec_roulette_bet_wins(RouletteBetType::Odd, number)
            != spec_roulette_bet_wins(RouletteBetType::Even, number)),
        number != 0 ==> (spec_roulette_bet_wins(RouletteBetType::Low, number)
            != spec_roulette_bet_wins(RouletteBetType::High, number)),
{
}

/// How many of the pockets `0..n` a bet wins on.
pub open spec fn winning_pockets(bet: RouletteBetType, n: nat) -> int
    decreases n,
{
    if n == 0 {
        0
    } else {
        winning_pockets(bet, (n - 1) as nat) + if spec_roulette_bet_wins(bet, n - 1) {
            1int
        } else {
            0
        }
    }
}

/// The house keeps an edge on every roulette bet: of the 37 equally likely
/// pockets, green wins on one and pays 14 times the stake, every other bet
/// wins on 18 and pays twice the stake, so a cookie staked returns 14/37 or
/// 36/37 of a cookie on average.
pub proof fn lemma_roulette_favours_the_house(bet: RouletteBetType)
    ensures
        winning_pockets(bet, 37) == if bet == RouletteBetType::Green {
            1int
        } else {
            18
        },
        bet.spec_payout_multiplier() * winning_pockets(bet, 37) == if bet
            == RouletteBetType::Green {
            14int
        } else {
            36
        },
        bet.spec_payout_multiplier() * winning_pockets(bet, 37) < 37,
{
    reveal_with_fuel(winning_pockets, 38);
    let m = bet.spec_payout_multiplier() as int;
    let w = winning_pockets(bet, 37);
    assert(m * w == if bet == RouletteBetType::Green {
        14int
    } else {
        36
    }) by (nonlinear_arith)
        requires
            bet == RouletteBetType::Green ==> m == 14 && w == 1,
            bet != RouletteBetType::Green ==> m == 2 && w == 18,
    ;
}

/// The red pockets follow the wheel's rule: from 1 to 10 and from 19 to 28 the
/// odd numbers are red, from 11 to 18 and from 29 to 36 the even ones; every
/// other pocket but zero is black, and there are 18 of each colour.
pub proof fn lemma_red_pockets(number: int)
    requires
        1 <= number <= 36,
    ensures
        (spec_roulette_color(number) == RouletteColor::Red) <==> (((1 <= number <= 10 || 19 <= number
            <= 28) && number % 2 == 1) || ((11 <= number <= 18 || 29 <= number <= 36) && number % 2
            == 0)),
        (spec_roulette_color(number) == RouletteColor::Black) <==> (spec_roulette_color(number)
            != RouletteColor::Red),
        winning_pockets(RouletteBetType::Red, 37) == 18,
        winning_pockets(RouletteBetType::Black, 37) == 18,
{
    reveal_with_fuel(winning_pockets, 38);
}

/// The outside bets: odd wins on the odd pockets and even on the even ones,
/// zero excepted; low wins on 1 to 18 and high on 19 to 36.
pub proof fn lemma_outside_bets_rules(number: int)
    requires
        0 <= number <= 36,
    ensures
        spec_roulette_bet_wins(RouletteBetType::Odd, number) <==> (number != 0 && number % 2 == 1),
        spec_roulette_bet_wins(RouletteBetType::Even, number) <==> (number != 0 && number % 2 == 0),
        spec_roulette_bet_wins(RouletteBetType::Low, number) <==> (1 <= number && number <= 18),
        spec_roulette_bet_wins(RouletteBetType::High, number) <==> (19 <= number),
        spec_roulette_bet_wins(RouletteBetType::Red, number) <==> (spec_roulette_color(number)
            == RouletteColor::Red),
        spec_roulette_bet_wins(RouletteBetType::Black, number) <==> (spec_roulette_color(number)
            == RouletteColor::Black),
        RouletteBetType::Green.spec_payout_multiplier() == 14,
        RouletteBetType::Red.spec_payout_multiplier() == 2,
{
}

} // verus!
