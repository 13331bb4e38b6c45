//! The casino: lifetime statistics, the last result of each game, and the rules
//! of slots, coin flip, dice, roulette and blackjack.
//!
//! Stakes are whole cookies. A natural blackjack pays one and a half times its
//! stake, so the amount handed back to the player is kept in half-cookies.

use crate::blackjack::{
    dealer_draws, hand_within_limits, records_hand, showdown, spec_natural_outcome,
    spec_net_halves, spec_returned_halves, spec_showdown, BlackjackHand, BlackjackOutcome,
    BlackjackPhase, BlackjackResult, MAX_WAGER,
};
use crate::cards::{ace_count, hand_value, raw_total, spec_hand_value, Card};
use crate::rng::{draw_bool, draw_u8};
use crate::roulette::{
    roulette_bet_wins, roulette_color, spec_roulette_bet_wins, spec_roulette_color,
    RouletteBetType, RouletteColor,
};
use crate::slots::{slot_payout, spec_slot_payout, Symbol, SLOT_BET};
use crate::wager::{spec_parsed_wager, wager_buffer_ok, WagerBuffer};
use rand::rngs::SmallRng;
use vstd::prelude::*;

verus! {

/// Smallest coin flip stake, in cookies.
pub const COINFLIP_MIN_BET: u64 = 10;

/// Smallest dice stake, in cookies.
pub const DICE_MIN_BET: u64 = 10;

/// Smallest roulette stake, in cookies.
pub const ROULETTE_MIN_BET: u64 = 10;

/// Smallest blackjack stake, in cookies.
pub const BLACKJACK_MIN_BET: u64 = 25;

/// Outcome of a single slot spin; `payout` is the net change in cookies
/// (negative means loss).
#[derive(Debug, Clone, Copy)]
pub struct SlotResult {
    pub reels: [Symbol; 3],
    pub payout: i64,
}

/// Outcome of a coin flip; `net` in cookies.
#[derive(Debug, Clone, Copy)]
pub struct CoinFlipResult {
    pub won: bool,
    pub net: i64,
}

/// Outcome of a dice wager; `net` in cookies.
#[derive(Debug, Clone, Copy)]
pub struct DiceResult {
    pub rolled: u8,
    pub guessed: u8,
    pub won: bool,
    pub net: i64,
}

/// Outcome of a roulette spin; `wager` and `net` in cookies.
#[derive(Debug, Clone, Copy)]
pub struct RouletteResult {
    pub number: u8,
    pub color: RouletteColor,
    pub bet_type: RouletteBetType,
    pub wager: u64,
    pub won: bool,
    pub net: i64,
}

/// The casino's games.
#[derive(Debug, Clone, Copy, PartialEq, Eq, Structural)]
pub enum CasinoGame {
    SlotMachine,
    CoinFlip,
    DiceWager,
    Roulette,
    Blackjack,
}

/// Tracks the casino UI state (active game, pending bets, last results, lifetime stats).
pub struct CasinoState {
    /// Which casino game is currently active (None = menu).
    pub active_game: Option<CasinoGame>,
    pub last_slot: Option<SlotResult>,
    pub last_coin: Option<CoinFlipResult>,
    pub last_dice: Option<DiceResult>,
    pub last_roulette: Option<RouletteResult>,
    /// Last completed blackjack result.
    pub last_blackjack: Option<BlackjackResult>,
    /// Active blackjack hand in progress.
    pub blackjack_hand: Option<BlackjackHand>,
    /// Current wager input buffer (string of digits).
    pub wager_input: WagerBuffer,
    /// Dice guess input (1-6, 0 when none).
    pub dice_guess: u8,
    pub entering_wager: bool,
    pub entering_dice_guess: bool,
    pub roulette_bet_type: Option<RouletteBetType>,
    /// Total number of slot spins ever made.
    pub total_spins: u32,
    /// Total cookies wagered across all casino games (saturating).
    pub total_wagered: u64,
    /// Total handed back to the player, stakes of winning bets included, in
    /// half-cookies (saturating).
    pub total_won_halves: u64,
}

/// `a + b`, saturating at `u64::MAX`.
pub open spec fn sat_add(a: u64, b: int) -> u64 {
    if a + b > u64::MAX {
        u64::MAX
    } else {
        (a + b) as u64
    }
}

fn add_saturating(a: u64, b: u64) -> (s: u64)
    ensures
        s == sat_add(a, b as int),
{
    a.saturating_add(b)
}

/// What the casino has handed back less what was staked, in half-cookies.
pub open spec fn profit_halves(s: CasinoState) -> int {
    s.total_won_halves - 2 * s.total_wagered
}

/// Every field but the blackjack ones and the two money totals agree.
pub open spec fn same_outside_blackjack(a: CasinoState, b: CasinoState) -> bool {
    &&& a.active_game == b.active_game
    &&& a.last_slot == b.last_slot
    &&& a.last_coin == b.last_coin
    &&& a.last_dice == b.last_dice
    &&& a.last_roulette == b.last_roulette
    &&& a.wager_input@ == b.wager_input@
    &&& a.dice_guess == b.dice_guess
    &&& a.entering_wager == b.entering_wager
    &&& a.entering_dice_guess == b.entering_dice_guess
    &&& a.roulette_bet_type == b.roulette_bet_type
    &&& a.total_spins == b.total_spins
}

/// `after` finishes the resolved hand `h` of `before` with outcome `o`: the
/// hand is recorded as the last result and its return is added to the winnings.
pub open spec fn finishes_hand(
    before: CasinoState,
    after: CasinoState,
    h: BlackjackHand,
    o: BlackjackOutcome,
) -> bool {
    &&& after.last_blackjack matches Some(r) && records_hand(r, h, o)
    &&& after.total_won_halves == sat_add(
        before.total_won_halves,
        spec_returned_halves(o, h.wager),
    )
    &&& after.total_wagered == before.total_wagered
    &&& same_outside_blackjack(before, after)
}

/// `after` is `before` once the player, holding `player`, stands: the dealer
/// draws to 17 or more, the totals are compared and the hand is finished.
pub open spec fn stands_to(before: CasinoState, player: Seq<Card>, after: CasinoState) -> bool {
    &&& before.blackjack_hand matches Some(h)
    &&& after.blackjack_hand matches Some(a)
    &&& a.player_cards@ == player
    &&& a.wager == h.wager
    &&& a.phase == BlackjackPhase::Resolved
    &&& dealer_draws(h.dealer_cards@, a.dealer_cards@)
    &&& a.outcome == Some(
        spec_showdown(spec_hand_value(player), spec_hand_value(a.dealer_cards@)),
    )
    &&& finishes_hand(before, after, a, a.outcome->0)
}

/// `after` is `before` once a hand for `wager` cookies has been dealt from
/// `cards` (player, player, dealer, dealer): a natural 21 for the player is
/// settled at once, any other hand waits for the player.
pub open spec fn deals_to(before: CasinoState, after: CasinoState, wager: u64, cards: [Card; 4]) -> bool {
    let player = seq![cards[0], cards[1]];
    let dealer = seq![cards[2], cards[3]];
    let pv = spec_hand_value(player);
    let dv = spec_hand_value(dealer);
    &&& after.blackjack_hand matches Some(h)
    &&& h.player_cards@ == player
    &&& h.dealer_cards@ == dealer
    &&& h.wager == wager
    &&& after.total_wagered == sat_add(before.total_wagered, wager as int)
    &&& same_outside_blackjack(before, after)
    &&& if pv == 21 {
        &&& h.phase == BlackjackPhase::Resolved
        &&& h.outcome == Some(spec_natural_outcome(dv))
        &&& after.last_blackjack matches Some(r)
        &&& records_hand(r, h, spec_natural_outcome(dv))
        &&& after.total_won_halves == sat_add(
            before.total_won_halves,
            spec_returned_halves(spec_natural_outcome(dv), wager),
        )
    } else {
        &&& h.phase == BlackjackPhase::PlayerTurn
        &&& h.outcome is None
        &&& after.last_blackjack is None
        &&& after.total_won_halves == before.total_won_halves
    }
}

/// `after` is `before` once the player, whose hand waits for a decision, draws
/// `card`: over 21 the hand busts, at exactly 21 the player stands, below 21
/// the hand keeps waiting for the player (`in_play`).
pub open spec fn hits_to(before: CasinoState, card: Card, after: CasinoState, in_play: bool) -> bool {
    let h = before.blackjack_hand->0;
    let player = h.player_cards@.push(card);
    let v = spec_hand_value(player);
    &&& 1 <= card.rank <= 13
    &&& if v > 21 {
        let busted = BlackjackHand {
            player_cards: after.blackjack_hand->0.player_cards,
            dealer_cards: after.blackjack_hand->0.dealer_cards,
            wager: h.wager,
            phase: BlackjackPhase::Resolved,
            outcome: Some(BlackjackOutcome::PlayerBust),
        };
        &&& !in_play
        &&& after.blackjack_hand matches Some(a)
        &&& a.player_cards@ == player
        &&& a.dealer_cards@ == h.dealer_cards@
        &&& a.wager == h.wager
        &&& a.phase == BlackjackPhase::Resolved
        &&& a.outcome == Some(BlackjackOutcome::PlayerBust)
        &&& finishes_hand(before, after, a, BlackjackOutcome::PlayerBust)
    } else if v == 21 {
        &&& !in_play
        &&& stands_to(before, player, after)
    } else {
        &&& in_play
        &&& after.blackjack_hand matches Some(a)
        &&& a.player_cards@ == player
        &&& a.dealer_cards@ == h.dealer_cards@
        &&& a.wager == h.wager
        &&& a.phase == BlackjackPhase::PlayerTurn
        &&& a.outcome == h.outcome
        &&& after.last_blackjack == before.last_blackjack
        &&& after.total_wagered == before.total_wagered
        &&& after.total_won_halves == before.total_won_halves
        &&& same_outside_blackjack(before, after)
    }
}

/// A hand's value stays small while it is under 22, so its raw total does too.
proof fn lemma_small_value_small_total(hand: Seq<Card>)
    requires
        spec_hand_value(hand) < 22,
    ensures
        raw_total(hand) <= 242,
        raw_total(hand) - 10 * ace_count(hand) <= spec_hand_value(hand),
        raw_total(hand) - 10 * ace_count(hand) >= hand.len(),
{
    crate::cards::lemma_raw_total_bounds(hand);
}

impl Default for CasinoState {
    fn default() -> (s: Self)
        ensures
            s.is_fresh(),
    {
        CasinoState::new()
    }
}

impl CasinoState {
    /// No game open, no results, an empty wager, zeroed statistics.
    pub open spec fn is_fresh(&self) -> bool {
        &&& self.active_game is None
        &&& self.last_slot is None
        &&& self.last_coin is None
        &&& self.last_dice is None
        &&& self.last_roulette is None
        &&& self.last_blackjack is None
        &&& self.blackjack_hand is None
        &&& self.wager_input@ == Seq::<char>::empty()
        &&& self.dice_guess == 0
        &&& !self.entering_wager
        &&& !self.entering_dice_guess
        &&& self.roulette_bet_type is None
        &&& self.total_spins == 0
        &&& self.total_wagered == 0
        &&& self.total_won_halves == 0
    }

    /// A casino with no game open and zeroed statistics.
    pub fn new() -> (s: Self)
        ensures
            s.is_fresh(),
            s.wf(),
    {
        CasinoState {
            active_game: None,
            last_slot: None,
            last_coin: None,
            last_dice: None,
            last_roulette: None,
            last_blackjack: None,
            blackjack_hand: None,
            wager_input: WagerBuffer::new(),
            dice_guess: 0,
            entering_wager: false,
            entering_dice_guess: false,
            roulette_bet_type: None,
            total_spins: 0,
            total_wagered: 0,
            total_won_halves: 0,
        }
    }

    /// The blackjack hand, if any, is within the limits its value is computed in.
    pub open spec fn wf(&self) -> bool {
        self.blackjack_hand matches Some(h) ==> hand_within_limits(h)
    }

    /// Spin the slot machine with the given reels. Returns the gross payout in
    /// cookies (0 = total loss).
    pub fn spin_slots_with(&mut self, reels: [Symbol; 3]) -> (gross: u64)
        requires
            old(self).total_spins < u32::MAX,
        ensures
            gross == spec_slot_payout(reels),
            old(self).total_wagered + SLOT_BET <= u64::MAX && old(self).total_won_halves + 2 * gross
                <= u64::MAX ==> profit_halves(*final(self)) == profit_halves(*old(self)) + 2 * (gross
                - SLOT_BET),
            *final(self) == (CasinoState {
                last_slot: Some(SlotResult { reels, payout: (gross - SLOT_BET) as i64 }),
                total_spins: (old(self).total_spins + 1) as u32,
                total_wagered: sat_add(old(self).total_wagered, SLOT_BET as int),
                total_won_halves: sat_add(old(self).total_won_halves, 2 * gross),
                ..*old(self)
            }),
    {
        let gross = slot_payout(&reels);
        let net = gross as i64 - SLOT_BET as i64;
        self.last_slot = Some(SlotResult { reels, payout: net });
        self.total_spins = self.total_spins + 1;
        self.total_wagered = add_saturating(self.total_wagered, SLOT_BET);
        self.total_won_halves = add_saturating(self.total_won_halves, 2 * gross);
        gross
    }

    /// Spin the slot machine. Returns the gross payout (0 = total loss).
    pub fn spin_slots(&mut self, rng: &mut SmallRng) -> (gross: u64)
        requires
            old(self).total_spins < u32::MAX,
        ensures
            final(self).last_slot matches Some(r) && gross == spec_slot_payout(r.reels)
                && *final(self) == (CasinoState {
                last_slot: Some(SlotResult { reels: r.reels, payout: (gross - SLOT_BET) as i64 }),
                total_spins: (old(self).total_spins + 1) as u32,
                total_wagered: sat_add(old(self).total_wagered, SLOT_BET as int),
                total_won_halves: sat_add(old(self).total_won_halves, 2 * gross),
                ..*old(self)
            }),
            old(self).total_wagered + SLOT_BET <= u64::MAX && old(self).total_won_halves + 2 * gross
                <= u64::MAX ==> profit_halves(*final(self)) == profit_halves(*old(self)) + 2 * (gross
                - SLOT_BET),
    {
        let a = Symbol::random(rng);
        let b = Symbol::random(rng);
        let c = Symbol::random(rng);
        self.spin_slots_with([a, b, c])
    }

    /// Settle a coin flip of `wager` cookies whose outcome is `won`. Returns the
    /// net cookie change.
    /// Stakes are at most `MAX_WAGER`, the most the twelve-digit wager entry can
    /// hold (`parsed_wager` never gives more).
    pub fn flip_coin_with(&mut self, wager: u64, won: bool) -> (net: i64)
        requires
            wager <= MAX_WAGER,
        ensures
            net == if won {
                wager as int
            } else {
                -wager
            },
            *final(self) == (CasinoState {
                last_coin: Some(CoinFlipResult { won, net }),
                total_wagered: sat_add(old(self).total_wagered, wager as int),
                total_won_halves: if won {
                    sat_add(old(self).total_won_halves, 4 * wager)
                } else {
                    old(self).total_won_halves
                },
                ..*old(self)
            }),
            old(self).total_wagered + wager <= u64::MAX && old(self).total_won_halves + 4 * wager
                <= u64::MAX ==> profit_halves(*final(self)) == profit_halves(*old(self)) + 2 * net,
    {
        let net = if won {
            wager as i64
        } else {
            -(wager as i64)
        };
        self.last_coin = Some(CoinFlipResult { won, net });
        self.total_wagered = add_saturating(self.total_wagered, wager);
        if won {
            self.total_won_halves = add_saturating(self.total_won_halves, 4 * wager);
        }
        net
    }

    /// Flip a coin with the given wager. Returns net cookie change.
    /// Stakes are at most `MAX_WAGER`, the most the twelve-digit wager entry can
    /// hold (`parsed_wager` never gives more).
    pub fn flip_coin(&mut self, wager: u64, rng: &mut SmallRng) -> (net: i64)
        requires
            wager <= MAX_WAGER,
        ensures
            final(self).last_coin matches Some(r) && *final(self) == (CasinoState {
                last_coin: Some(CoinFlipResult { won: r.won, net }),
                total_wagered: sat_add(old(self).total_wagered, wager as int),
                total_won_halves: if r.won {
                    sat_add(old(self).total_won_halves, 4 * wager)
                } else {
                    old(self).total_won_halves
                },
                ..*old(self)
            }) && net == if r.won {
                wager as int
            } else {
                -wager
            },
            old(self).total_wagered + wager <= u64::MAX && old(self).total_won_halves + 4 * wager
                <= u64::MAX ==> profit_halves(*final(self)) == profit_halves(*old(self)) + 2 * net,
    {
        let won = draw_bool(rng);
        self.flip_coin_with(wager, won)
    }

    /// Settle a dice wager on `guess` when the die shows `rolled`. A correct
    /// guess returns five times the stake. Returns the net cookie change.
    /// Stakes are at most `MAX_WAGER`, the most the twelve-digit wager entry can
    /// hold (`parsed_wager` never gives more).
    pub fn roll_dice_with(&mut self, wager: u64, guess: u8, rolled: u8) -> (net: i64)
        requires
            wager <= MAX_WAGER,
        ensures
            net == if rolled == guess {
                4 * wager
            } else {
                -wager
            },
            *final(self) == (CasinoState {
                last_dice: Some(DiceResult { rolled, guessed: guess, won: rolled == guess, net }),
                total_wagered: sat_add(old(self).total_wagered, wager as int),
                total_won_halves: if rolled == guess {
                    sat_add(old(self).total_won_halves, 10 * wager)
                } else {
                    old(self).total_won_halves
                },
                ..*old(self)
            }),
            old(self).total_wagered + wager <= u64::MAX && old(self).total_won_halves + 10 * wager
                <= u64::MAX ==> profit_halves(*final(self)) == profit_halves(*old(self)) + 2 * net,
    {
        let won = rolled == guess;
        let net = if won {
            4 * (wager as i64)
        } else {
            -(wager as i64)
        };
        self.last_dice = Some(DiceResult { rolled, guessed: guess, won, net });
        self.total_wagered = add_saturating(self.total_wagered, wager);
        if won {
            self.total_won_halves = add_saturating(self.total_won_halves, 10 * wager);
        }
        net
    }

    /// Roll a die and compare to guess. Returns net cookie change.
    /// Stakes are at most `MAX_WAGER`, the most the twelve-digit wager entry can
    /// hold (`parsed_wager` never gives more).
    pub fn roll_dice(&mut self, wager: u64, guess: u8, rng: &mut SmallRng) -> (net: i64)
        requires
            wager <= MAX_WAGER,
        ensures
            final(self).last_dice matches Some(r) && 1 <= r.rolled <= 6 && r.guessed == guess
                && r.won == (r.rolled == guess) && *final(self) == (CasinoState {
                last_dice: Some(DiceResult { rolled: r.rolled, guessed: guess, won: r.won, net }),
                total_wagered: sat_add(old(self).total_wagered, wager as int),
                total_won_halves: if r.won {
                    sat_add(old(self).total_won_halves, 10 * wager)
                } else {
                    old(self).total_won_halves
                },
                ..*old(self)
            }) && net == if r.won {
                4 * wager
            } else {
                -wager
            },
            old(self).total_wagered + wager <= u64::MAX && old(self).total_won_halves + 10 * wager
                <= u64::MAX ==> profit_halves(*final(self)) == profit_halves(*old(self)) + 2 * net,
    {
        let rolled = draw_u8(rng, 1, 6);
        self.roll_dice_with(wager, guess, rolled)
    }

    /// Settle a roulette bet when the ball lands on `number`. Returns the net
    /// cookie change.
    /// Stakes are at most `MAX_WAGER`, the most the twelve-digit wager entry can
    /// hold (`parsed_wager` never gives more).
    pub fn spin_roulette_with(&mut self, wager: u64, bet_type: RouletteBetType, number: u8) -> (net:
        i64)
        requires
            wager <= MAX_WAGER,
        ensures
            net == if spec_roulette_bet_wins(bet_type, number as int) {
                wager * (bet_type.spec_payout_multiplier() - 1)
            } else {
                -wager
            },
            *final(self) == (CasinoState {
                last_roulette: Some(
                    RouletteResult {
                        number,
                        color: spec_roulette_color(number as int),
                        bet_type,
                        wager,
                        won: spec_roulette_bet_wins(bet_type, number as int),
                        net,
                    },
                ),
                total_wagered: sat_add(old(self).total_wagered, wager as int),
                total_won_halves: if spec_roulette_bet_wins(bet_type, number as int) {
                    sat_add(
                        old(self).total_won_halves,
                        2 * wager * bet_type.spec_payout_multiplier(),
                    )
                } else {
                    old(self).total_won_halves
                },
                ..*old(self)
            }),
            old(self).total_wagered + wager <= u64::MAX && old(self).total_won_halves + 2 * wager
                * bet_type.spec_payout_multiplier() <= u64::MAX ==> profit_halves(*final(self))
                == profit_halves(*old(self)) + 2 * net,
    {
        let color = roulette_color(number);
        let won = roulette_bet_wins(bet_type, number);
        let multiplier = bet_type.payout_multiplier();
        let m1 = (multiplier - 1) as i64;
        proof {
            assert(0 <= m1 <= 13);
            assert(wager * m1 <= MAX_WAGER * 13) by (nonlinear_arith)
                requires
                    wager <= MAX_WAGER,
                    0 <= m1 <= 13,
            ;
            assert(2 * wager * multiplier <= 2 * MAX_WAGER * 14) by (nonlinear_arith)
                requires
                    wager <= MAX_WAGER,
                    0 <= multiplier <= 14,
            ;
            assert(2 * (wager * m1) == 2 * wager * multiplier - 2 * wager) by (nonlinear_arith)
                requires
                    m1 == multiplier - 1,
            ;
        }
        let net = if won {
            (wager as i64) * m1
        } else {
            -(wager as i64)
        };
        self.last_roulette = Some(RouletteResult { number, color, bet_type, wager, won, net });
        self.total_wagered = add_saturating(self.total_wagered, wager);
        if won {
            self.total_won_halves = add_saturating(
                self.total_won_halves,
                2 * wager * multiplier,
            );
        }
        net
    }

    /// Spin the roulette wheel with the given wager and bet type. Returns net cookie change.
    /// Stakes are at most `MAX_WAGER`, the most the twelve-digit wager entry can
    /// hold (`parsed_wager` never gives more).
    pub fn spin_roulette(&mut self, wager: u64, bet_type: RouletteBetType, rng: &mut SmallRng) -> (net:
        i64)
        requires
            wager <= MAX_WAGER,
        ensures
            final(self).last_roulette matches Some(r) && r.number <= 36 && *final(self) == (
            CasinoState {
                last_roulette: Some(
                    RouletteResult {
                        number: r.number,
                        color: spec_roulette_color(r.number as int),
                        bet_type,
                        wager,
                        won: spec_roulette_bet_wins(bet_type, r.number as int),
                        net,
                    },
                ),
                total_wagered: sat_add(old(self).total_wagered, wager as int),
                total_won_halves: if r.won {
                    sat_add(
                        old(self).total_won_halves,
                        2 * wager * bet_type.spec_payout_multiplier(),
                    )
                } else {
                    old(self).total_won_halves
                },
                ..*old(self)
            }) && net == if r.won {
                wager * (bet_type.spec_payout_multiplier() - 1)
            } else {
                -wager
            },
            old(self).total_wagered + wager <= u64::MAX && old(self).total_won_halves + 2 * wager
                * bet_type.spec_payout_multiplier() <= u64::MAX ==> profit_halves(*final(self))
                == profit_halves(*old(self)) + 2 * net,
    {
        let number = draw_u8(rng, 0, 36);
        self.spin_roulette_with(wager, bet_type, number)
    }

    /// Whether the blackjack hand on the table, if any, is within the limits
    /// the blackjack operations work in.
    pub fn within_limits(&self) -> (ok: bool)
        ensures
            ok == self.wf(),
    {
        match &self.blackjack_hand {
            None => true,
            Some(h) => {
                let player_fits = raw_total_up_to(&h.player_cards, u16::MAX as u32).is_some();
                let dealer_fits = raw_total_up_to(&h.dealer_cards, u16::MAX as u32).is_some();
                let room_to_hit = h.phase != BlackjackPhase::PlayerTurn || raw_total_up_to(
                    &h.player_cards,
                    u16::MAX as u32 - 11,
                ).is_some();
                player_fits && dealer_fits && room_to_hit && h.wager <= MAX_WAGER
            },
        }
    }

    /// Deal a new blackjack hand for `wager` cookies from the cards `cards`
    /// (player, player, dealer, dealer). Returns true if the hand was dealt; no
    /// hand is dealt while one is on the table.
    /// Stakes are at most `MAX_WAGER`, the most the twelve-digit wager entry can
    /// hold (`parsed_wager` never gives more).
    pub fn deal_blackjack_with(&mut self, wager: u64, cards: [Card; 4]) -> (dealt: bool)
        requires
            wager <= MAX_WAGER,
            old(self).wf(),
        ensures
            final(self).wf(),
            dealt == (old(self).blackjack_hand is None),
            !dealt ==> *final(self) == *old(self),
            dealt ==> deals_to(*old(self), *final(self), wager, cards),
    {
        if self.blackjack_hand.is_some() {
            return false;
        }
        let player_cards = vec![cards[0], cards[1]];
        let dealer_cards = vec![cards[2], cards[3]];
        proof {
            reveal_with_fuel(raw_total, 3);
        }
        let player_val = hand_value(player_cards.as_slice());
        let dealer_val = hand_value(dealer_cards.as_slice());
        if player_val == 21 {
            let outcome = if dealer_val == 21 {
                BlackjackOutcome::Push
            } else {
                BlackjackOutcome::PlayerBlackjack
            };
            let net_halves = outcome.net_halves(wager);
            self.total_wagered = add_saturating(self.total_wagered, wager);
            if net_halves > 0 {
                self.total_won_halves = add_saturating(
                    self.total_won_halves,
                    2 * wager + net_halves as u64,
                );
            } else if net_halves == 0 {
                self.total_won_halves = add_saturating(self.total_won_halves, 2 * wager);
            }
            self.last_blackjack = Some(
                BlackjackResult {
                    player_cards: vec![cards[0], cards[1]],
                    dealer_cards: vec![cards[2], cards[3]],
                    player_score: player_val,
                    dealer_score: dealer_val,
                    wager,
                    outcome,
                    net_halves,
                },
            );
            self.blackjack_hand = Some(
                BlackjackHand {
                    player_cards,
                    dealer_cards,
                    wager,
                    phase: BlackjackPhase::Resolved,
                    outcome: Some(outcome),
                },
            );
            return true;
        }
        self.total_wagered = add_saturating(self.total_wagered, wager);
        self.blackjack_hand = Some(
            BlackjackHand {
                player_cards,
                dealer_cards,
                wager,
                phase: BlackjackPhase::PlayerTurn,
                outcome: None,
            },
        );
        self.last_blackjack = None;
        true
    }

    /// Deal a new blackjack hand. Returns true if hand was dealt.
    /// Stakes are at most `MAX_WAGER`, the most the twelve-digit wager entry can
    /// hold (`parsed_wager` never gives more).
    pub fn deal_blackjack(&mut self, wager: u64, rng: &mut SmallRng) -> (dealt: bool)
        requires
            wager <= MAX_WAGER,
            old(self).wf(),
        ensures
            final(self).wf(),
            dealt == (old(self).blackjack_hand is None),
            !dealt ==> *final(self) == *old(self),
            dealt ==> exists|cards: [Card; 4]|
                (forall|k: int| 0 <= k < 4 ==> 1 <= #[trigger] cards[k].rank <= 13) && #[trigger] deals_to(
                    *old(self),
                    *final(self),
                    wager,
                    cards,
                ),
    {
        if self.blackjack_hand.is_some() {
            return false;
        }
        let p1 = Card::random(rng);
        let p2 = Card::random(rng);
        let d1 = Card::random(rng);
        let d2 = Card::random(rng);
        let cards = [p1, p2, d1, d2];
        let ghost before = *self;
        let dealt = self.deal_blackjack_with(wager, cards);
        proof {
            assert(forall|k: int| 0 <= k < 4 ==> 1 <= #[trigger] cards[k].rank <= 13);
            if dealt {
                assert(deals_to(before, *self, wager, cards));
            }
        }
        dealt
    }

    /// Record the resolved hand on the table as the last result and pay out.
    fn finalize_blackjack(&mut self)
        requires
            old(self).blackjack_hand matches Some(h) && h.phase == BlackjackPhase::Resolved
                && h.outcome is Some && hand_within_limits(h),
        ensures
            final(self).blackjack_hand == old(self).blackjack_hand,
            finishes_hand(
                *old(self),
                *final(self),
                old(self).blackjack_hand->0,
                old(self).blackjack_hand->0.outcome->0,
            ),
    {
        let hand = match &self.blackjack_hand {
            Some(h) => h,
            None => return ,
        };
        let outcome = match hand.outcome {
            Some(o) => o,
            None => return ,
        };
        let wager = hand.wager;
        let net_halves = outcome.net_halves(wager);
        let player_score = hand_value(hand.player_cards.as_slice());
        let dealer_score = hand_value(hand.dealer_cards.as_slice());
        let player_cards = copy_cards(&hand.player_cards);
        let dealer_cards = copy_cards(&hand.dealer_cards);
        if net_halves > 0 {
            self.total_won_halves = add_saturating(
                self.total_won_halves,
                2 * wager + net_halves as u64,
            );
        } else if net_halves == 0 {
            self.total_won_halves = add_saturating(self.total_won_halves, 2 * wager);
        }
        self.last_blackjack = Some(
            BlackjackResult {
                player_cards,
                dealer_cards,
                player_score,
                dealer_score,
                wager,
                outcome,
                net_halves,
            },
        );
    }

    /// Player stands in blackjack. Dealer plays out their hand: it draws while
    /// it is worth less than 17, then the totals are compared. Nothing happens
    /// unless a hand is waiting for the player.
    pub fn blackjack_stand(&mut self, rng: &mut SmallRng)
        requires
            old(self).wf(),
        ensures
            final(self).wf(),
            (old(self).blackjack_hand matches Some(h) && h.phase == BlackjackPhase::PlayerTurn)
                ==> stands_to(*old(self), old(self).blackjack_hand->0.player_cards@, *final(self)),
            !(old(self).blackjack_hand matches Some(h) && h.phase == BlackjackPhase::PlayerTurn)
                ==> *final(self) == *old(self),
    {
        let ghost before = *self;
        let taken = self.blackjack_hand.take();
        let mut hand = match taken {
            Some(h) => h,
            None => {
                return ;
            },
        };
        if hand.phase != BlackjackPhase::PlayerTurn {
            self.blackjack_hand = Some(hand);
            return ;
        }
        hand.phase = BlackjackPhase::DealerTurn;
        let ghost dealer_before = hand.dealer_cards@;
        let ghost player_before = hand.player_cards@;
        let ghost wager_before = hand.wager;
        let ghost state_between = *self;
        loop
            invariant_except_break
                raw_total(hand.dealer_cards@) <= u16::MAX,
                hand.dealer_cards@.len() >= dealer_before.len(),
                hand.dealer_cards@.take(dealer_before.len() as int) == dealer_before,
                forall|k: int|
                    dealer_before.len() <= k < hand.dealer_cards@.len() ==> 1
                        <= #[trigger] hand.dealer_cards@[k].rank <= 13,
                forall|k: int|
                    dealer_before.len() <= k < hand.dealer_cards@.len() ==> spec_hand_value(
                        #[trigger] hand.dealer_cards@.take(k),
                    ) < 17,
            invariant
                *self == state_between,
                hand.player_cards@ == player_before,
                hand.wager == wager_before,
                raw_total(player_before) <= u16::MAX,
            ensures
                dealer_draws(dealer_before, hand.dealer_cards@),
                raw_total(hand.dealer_cards@) <= u16::MAX,
            decreases 17 - hand.dealer_cards@.len(),
        {
            let v = hand_value(hand.dealer_cards.as_slice());
            if v >= 17 {
                break;
            }
            proof {
                lemma_small_value_small_total(hand.dealer_cards@);
            }
            let card = Card::random(rng);
            let ghost prev = hand.dealer_cards@;
            hand.dealer_cards.push(card);
            proof {
                crate::cards::lemma_raw_total_push(prev, card);
                assert(hand.dealer_cards@ == prev.push(card));
                assert(hand.dealer_cards@.take(prev.len() as int) =~= prev);
                assert(hand.dealer_cards@.take(dealer_before.len() as int) =~= prev.take(
                    dealer_before.len() as int,
                ));
                assert forall|k: int|
                    dealer_before.len() <= k < hand.dealer_cards@.len() implies spec_hand_value(
                        #[trigger] hand.dealer_cards@.take(k),
                    ) < 17 by {
                    if k < prev.len() {
                        assert(hand.dealer_cards@.take(k) =~= prev.take(k));
                    }
                }
                assert forall|k: int|
                    dealer_before.len() <= k < hand.dealer_cards@.len() implies 1
                        <= #[trigger] hand.dealer_cards@[k].rank <= 13 by {
                    if k < prev.len() {
                        assert(hand.dealer_cards@[k] == prev[k]);
                    }
                }
            }
        }
        let player_val = hand_value(hand.player_cards.as_slice());
        let dealer_val = hand_value(hand.dealer_cards.as_slice());
        let outcome = showdown(player_val, dealer_val);
        hand.phase = BlackjackPhase::Resolved;
        hand.outcome = Some(outcome);
        self.blackjack_hand = Some(hand);
        self.finalize_blackjack();
    }

    /// Player hits in blackjack (draws a card). Returns true if still in play: a
    /// total over 21 busts, and a total of exactly 21 stands automatically.
    pub fn blackjack_hit(&mut self, rng: &mut SmallRng) -> (in_play: bool)
        requires
            old(self).wf(),
        ensures
            final(self).wf(),
            !(old(self).blackjack_hand matches Some(h) && h.phase == BlackjackPhase::PlayerTurn)
                ==> *final(self) == *old(self) && !in_play,
            (old(self).blackjack_hand matches Some(h) && h.phase == BlackjackPhase::PlayerTurn)
                ==> exists|card: Card| #[trigger] hits_to(*old(self), card, *final(self), in_play),
    {
        let ghost before = *self;
        let taken = self.blackjack_hand.take();
        let mut hand = match taken {
            Some(h) => h,
            None => {
                return false;
            },
        };
        if hand.phase != BlackjackPhase::PlayerTurn {
            self.blackjack_hand = Some(hand);
            return false;
        }
        let card = Card::random(rng);
        proof {
            crate::cards::lemma_raw_total_push(hand.player_cards@, card);
        }
        hand.player_cards.push(card);
        let val = hand_value(hand.player_cards.as_slice());
        if val > 21 {
            hand.phase = BlackjackPhase::Resolved;
            hand.outcome = Some(BlackjackOutcome::PlayerBust);
            self.blackjack_hand = Some(hand);
            self.finalize_blackjack();
            proof {
                assert(hits_to(before, card, *self, false));
            }
            return false;
        }
        proof {
            lemma_small_value_small_total(hand.player_cards@);
        }
        self.blackjack_hand = Some(hand);
        if val == 21 {
            let ghost mid = *self;
            self.blackjack_stand(rng);
            proof {
                assert(hits_to(before, card, *self, false));
            }
            return false;
        }
        proof {
            assert(hits_to(before, card, *self, true));
        }
        true
    }

    /// Clear the current blackjack hand so a new one can be dealt.
    pub fn clear_blackjack_hand(&mut self)
        ensures
            final(self).blackjack_hand is None,
            final(self).last_blackjack == old(self).last_blackjack,
            final(self).total_wagered == old(self).total_wagered,
            final(self).total_won_halves == old(self).total_won_halves,
            same_outside_blackjack(*old(self), *final(self)),
    {
        self.blackjack_hand = None;
    }

    /// Net profit or loss across all casino games, in half-cookies.
    pub fn net_profit(&self) -> (n: i128)
        ensures
            n == profit_halves(*self),
    {
        self.total_won_halves as i128 - 2 * (self.total_wagered as i128)
    }

    /// Parse the wager input buffer: the wager it holds, or `None` on an
    /// empty buffer and on a value below 1. The buffer only ever holds up to
    /// twelve ASCII digits (see `WagerBuffer`), so its text always reads as a
    /// whole number of cookies no larger than `MAX_WAGER`.
    pub fn parsed_wager(&self) -> (w: Option<u64>)
        ensures
            w == spec_parsed_wager(self.wager_input@),
            wager_buffer_ok(self.wager_input@),
            w matches Some(v) ==> 1 <= v <= MAX_WAGER,
    {
        self.wager_input.parsed()
    }
}

/// The raw total of `cards` when it is at most `limit`, `None` above it.
fn raw_total_up_to(cards: &Vec<Card>, limit: u32) -> (t: Option<u32>)
    requires
        limit <= u16::MAX,
    ensures
        match t {
            Some(v) => v == raw_total(cards@) && v <= limit,
            None => raw_total(cards@) > limit,
        },
{
    let mut total: u32 = 0;
    let mut i: usize = 0;
    while i < cards.len()
        invariant
            i <= cards@.len(),
            total == raw_total(cards@.take(i as int)),
            total <= limit,
            limit <= u16::MAX,
        decreases cards@.len() - i,
    {
        proof {
            assert(cards@.take(i + 1) =~= cards@.take(i as int).push(cards@[i as int]));
            crate::cards::lemma_raw_total_push(cards@.take(i as int), cards@[i as int]);
        }
        total = total + cards[i].bj_value() as u32;
        if total > limit {
            proof {
                crate::cards::lemma_raw_total_prefix(cards@, i + 1);
            }
            return None;
        }
        i = i + 1;
    }
    proof {
        assert(cards@.take(i as int) =~= cards@);
    }
    Some(total)
}

/// A copy of a list of cards.
fn copy_cards(cards: &Vec<Card>) -> (c: Vec<Card>)
    ensures
        c@ == cards@,
{
    let mut c: Vec<Card> = Vec::new();
    let mut i: usize = 0;
    while i < cards.len()
        invariant
            i <= cards@.len(),
            c@ == cards@.take(i as int),
        decreases cards@.len() - i,
    {
        c.push(cards[i]);
        i = i + 1;
        proof {
            assert(c@ =~= cards@.take(i as int));
        }
    }
    proof {
        assert(cards@.take(i as int) =~= cards@);
    }
    c
}

} // verus!
