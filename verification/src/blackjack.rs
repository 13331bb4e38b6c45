//! Blackjack: hand phases, outcomes and their payouts.

use crate::cards::{hand_value, raw_total, spec_hand_value, Card};
use vstd::prelude::*;

verus! {

/// Phase of a blackjack hand.
#[derive(Debug, Clone, Copy, PartialEq, Eq, Structural)]
pub enum BlackjackPhase {
    Betting,
    PlayerTurn,
    DealerTurn,
    Resolved,
}

impl Default for BlackjackPhase {
    fn default() -> (p: Self)
        ensures
            p == BlackjackPhase::Betting,
    {
        BlackjackPhase::Betting
    }
}

/// Outcome of a blackjack hand.
#[derive(Debug, Clone, Copy, PartialEq, Eq, Structural)]
pub enum BlackjackOutcome {
    /// Natural 21 on the deal, pays 3 to 2.
    PlayerBlackjack,
    /// The player's total beats the dealer's, pays even money.
    PlayerWin,
    /// The dealer's total beats the player's; the stake is lost.
    DealerWin,
    /// Equal totals; the stake is returned.
    Push,
    /// The player went over 21; the stake is lost.
    PlayerBust,
    /// The dealer went over 21, pays even money.
    DealerBust,
}

/// Net result of a hand for the player, in half-cookies: a natural pays one and a
/// half times the stake, a win or a dealer bust pays the stake, a push returns it,
/// and every other outcome loses it.
pub open spec fn spec_net_halves(outcome: BlackjackOutcome, wager: u64) -> int {
    match outcome {
        BlackjackOutcome::PlayerBlackjack => 3 * wager,
        BlackjackOutcome::PlayerWin | BlackjackOutcome::DealerBust => 2 * wager,
        BlackjackOutcome::Push => 0,
        BlackjackOutcome::DealerWin | BlackjackOutcome::PlayerBust => -2 * wager,
    }
}

/// What the casino hands back at the end of a hand, in half-cookies: the stake
/// plus the winnings on a win, the stake on a push, nothing on a loss.
pub open spec fn spec_returned_halves(outcome: BlackjackOutcome, wager: u64) -> int {
    let net = spec_net_halves(outcome, wager);
    if net > 0 {
        2 * wager + net
    } else if net == 0 {
        2 * wager
    } else {
        0
    }
}

/// Outcome once the dealer has finished drawing: a dealer over 21 busts,
/// otherwise the higher total wins and equal totals push.
pub open spec fn spec_showdown(player_value: int, dealer_value: int) -> BlackjackOutcome {
    if dealer_value > 21 {
        BlackjackOutcome::DealerBust
    } else if player_value > dealer_value {
        BlackjackOutcome::PlayerWin
    } else if dealer_value > player_value {
        BlackjackOutcome::DealerWin
    } else {
        BlackjackOutcome::Push
    }
}

/// Outcome of a natural 21 on the deal: a push against a dealer natural, a
/// blackjack otherwise.
pub open spec fn spec_natural_outcome(dealer_value: int) -> BlackjackOutcome {
    if dealer_value == 21 {
        BlackjackOutcome::Push
    } else {
        BlackjackOutcome::PlayerBlackjack
    }
}

/// Largest stake, in cookies, that one bet can carry: the largest number the
/// twelve-digit wager entry can hold, so every stake the game puts up is
/// within it. The functions that settle a bet require their stake to be within
/// it, which keeps their sums in range.
pub const MAX_WAGER: u64 = 999_999_999_999;

impl BlackjackOutcome {
    /// Net result for the player in half-cookies (see `spec_net_halves`).
    /// The stake is at most `MAX_WAGER`, the most the wager entry can hold.
    pub fn net_halves(&self, wager: u64) -> (n: i64)
        requires
            wager <= MAX_WAGER,
        ensures
            n == spec_net_halves(*self, wager),
    {
        let w = wager as i64;
        match self {
            BlackjackOutcome::PlayerBlackjack => 3 * w,
            BlackjackOutcome::PlayerWin | BlackjackOutcome::DealerBust => 2 * w,
            BlackjackOutcome::Push => 0,
            BlackjackOutcome::DealerWin | BlackjackOutcome::PlayerBust => -(2 * w),
        }
    }
}

/// Outcome of the showdown between two finished hands.
pub fn showdown(player_value: u8, dealer_value: u8) -> (o: BlackjackOutcome)
    ensures
        o == spec_showdown(player_value as int, dealer_value as int),
{
    if dealer_value > 21 {
        BlackjackOutcome::DealerBust
    } else if player_value > dealer_value {
        BlackjackOutcome::PlayerWin
    } else if dealer_value > player_value {
        BlackjackOutcome::DealerWin
    } else {
        BlackjackOutcome::Push
    }
}

/// State of an in-progress blackjack hand. `wager` is in cookies.
#[derive(Debug, Clone)]
pub struct BlackjackHand {
    pub player_cards: Vec<Card>,
    pub dealer_cards: Vec<Card>,
    pub wager: u64,
    pub phase: BlackjackPhase,
    pub outcome: Option<BlackjackOutcome>,
}

/// How many of the dealer's cards lie face up: while the player is to act only
/// the first (the hole card stays hidden), afterwards all of them.
pub open spec fn spec_dealer_cards_shown(h: BlackjackHand) -> int {
    if h.phase == BlackjackPhase::PlayerTurn {
        if h.dealer_cards@.len() == 0 {
            0
        } else {
            1
        }
    } else {
        h.dealer_cards@.len() as int
    }
}

impl BlackjackHand {
    /// How many of the dealer's cards lie face up (see `spec_dealer_cards_shown`).
    pub fn dealer_cards_shown(&self) -> (n: usize)
        ensures
            n == spec_dealer_cards_shown(*self),
    {
        if self.phase == BlackjackPhase::PlayerTurn {
            if self.dealer_cards.len() == 0 {
                0
            } else {
                1
            }
        } else {
            self.dealer_cards.len()
        }
    }

    /// The dealer's score as the table shows it: hidden while the player is to
    /// act, the dealer's hand value afterwards.
    pub fn dealer_score_shown(&self) -> (score: Option<u8>)
        requires
            raw_total(self.dealer_cards@) <= u16::MAX,
        ensures
            score == if self.phase == BlackjackPhase::PlayerTurn {
                None
            } else {
                Some(spec_hand_value(self.dealer_cards@) as u8)
            },
    {
        if self.phase == BlackjackPhase::PlayerTurn {
            None
        } else {
            Some(hand_value(self.dealer_cards.as_slice()))
        }
    }
}

/// Outcome of a completed blackjack hand. `wager` is in cookies, `net_halves` in
/// half-cookies.
#[derive(Debug, Clone)]
pub struct BlackjackResult {
    pub player_cards: Vec<Card>,
    pub dealer_cards: Vec<Card>,
    pub player_score: u8,
    pub dealer_score: u8,
    pub wager: u64,
    pub outcome: BlackjackOutcome,
    pub net_halves: i64,
}

/// What a settled hand hands back, less the stake, is exactly its net result:
/// a natural pays three to two, a win or a dealer bust pays even money, a push
/// returns the stake and a loss or a bust keeps it.
pub proof fn lemma_return_less_stake_is_net(outcome: BlackjackOutcome, wager: u64)
    ensures
        spec_returned_halves(outcome, wager) - 2 * wager == spec_net_halves(outcome, wager),
        spec_returned_halves(outcome, wager) >= 0,
        outcome == BlackjackOutcome::PlayerBlackjack ==> spec_returned_halves(outcome, wager) == 5
            * wager,
        (outcome == BlackjackOutcome::PlayerWin || outcome == BlackjackOutcome::DealerBust)
            ==> spec_returned_halves(outcome, wager) == 4 * wager,
        outcome == BlackjackOutcome::Push ==> spec_returned_halves(outcome, wager) == 2 * wager,
        (outcome == BlackjackOutcome::DealerWin || outcome == BlackjackOutcome::PlayerBust)
            ==> spec_returned_halves(outcome, wager) == 0,
{
}

/// A hand whose card totals stay within the range the hand value is computed in,
/// with room for one more card while the player is still to act, and whose stake
/// is within the wager limit.
pub open spec fn hand_within_limits(h: BlackjackHand) -> bool {
    &&& raw_total(h.player_cards@) <= u16::MAX
    &&& raw_total(h.dealer_cards@) <= u16::MAX
    &&& h.phase == BlackjackPhase::PlayerTurn ==> raw_total(h.player_cards@) + 11 <= u16::MAX
    &&& h.wager <= MAX_WAGER
}

/// `r` records the finished hand `h` with outcome `o`.
pub open spec fn records_hand(r: BlackjackResult, h: BlackjackHand, o: BlackjackOutcome) -> bool {
    &&& r.player_cards@ == h.player_cards@
    &&& r.dealer_cards@ == h.dealer_cards@
    &&& r.player_score == spec_hand_value(h.player_cards@)
    &&& r.dealer_score == spec_hand_value(h.dealer_cards@)
    &&& r.wager == h.wager
    &&& r.outcome == o
    &&& r.net_halves == spec_net_halves(o, h.wager)
}

/// The dealer's cards `after` come from `before` by drawing cards until the hand
/// is worth 17 or more, stopping at the first such card.
pub open spec fn dealer_draws(before: Seq<Card>, after: Seq<Card>) -> bool {
    &&& before.len() <= after.len()
    &&& after.take(before.len() as int) == before
    &&& forall|k: int| before.len() <= k < after.len() ==> 1 <= #[trigger] after[k].rank <= 13
    &&& spec_hand_value(after) >= 17
    &&& forall|k: int|
        before.len() <= k < after.len() ==> spec_hand_value(#[trigger] after.take(k)) < 17
}

/// The showdown: a dealer over 21 busts, and only then, whatever the player
/// holds; a dealer on 21 or less loses to a higher player total, beats a lower
/// one and pushes an equal one. A showdown never reports a natural or a player
/// bust.
pub proof fn lemma_showdown_rules(player_value: int, dealer_value: int)
    ensures
        (spec_showdown(player_value, dealer_value) == BlackjackOutcome::DealerBust) <==> dealer_value
            > 21,
        dealer_value <= 21 && dealer_value > player_value ==> spec_showdown(player_value, dealer_value)
            == BlackjackOutcome::DealerWin,
        dealer_value <= 21 && player_value > dealer_value ==> spec_showdown(player_value, dealer_value)
            == BlackjackOutcome::PlayerWin,
        dealer_value <= 21 && player_value == dealer_value ==> spec_showdown(
            player_value,
            dealer_value,
        ) == BlackjackOutcome::Push,
        spec_showdown(player_value, dealer_value) != BlackjackOutcome::PlayerBlackjack,
        spec_showdown(player_value, dealer_value) != BlackjackOutcome::PlayerBust,
{
}

/// A player's natural 21 pushes against a dealer who also holds 21 and is paid
/// as a blackjack against any other dealer total.
pub proof fn lemma_natural_rules(dealer_value: int)
    ensures
        MAX_WAGER == 999_999_999_999,
        (spec_natural_outcome(dealer_value) == BlackjackOutcome::Push) <==> dealer_value == 21,
        dealer_value != 21 ==> spec_natural_outcome(dealer_value)
            == BlackjackOutcome::PlayerBlackjack,
{
}

/// The dealer stands on 17: after drawing, the dealer's hand is worth 17 or
/// more, it was worth less than 17 before each card drawn, and the dealer
/// drew no card at all from 17 or more.
pub proof fn lemma_dealer_stands_on_17(before: Seq<Card>, after: Seq<Card>)
    requires
        dealer_draws(before, after),
    ensures
        spec_hand_value(after) >= 17,
        forall|k: int| before.len() <= k < after.len() ==> spec_hand_value(#[trigger] after.take(k)) < 17,
        spec_hand_value(before) >= 17 ==> after == before,
{
    if spec_hand_value(before) >= 17 && after.len() > before.len() {
        assert(after.take(before.len() as int) == before);
    }
    if after.len() == before.len() {
        assert(after == after.take(before.len() as int));
    }
}

} // verus!
