//! Playing cards and blackjack hand values.

use crate::rng::draw_u32;
use crate::rng::draw_u8;
use rand::rngs::SmallRng;
use vstd::prelude::*;

verus! {

/// The four card suits.
#[derive(Debug, Clone, Copy, PartialEq, Eq, Structural)]
pub enum Suit {
    Hearts,
    Diamonds,
    Clubs,
    Spades,
}

impl Suit {
    /// The suit's card symbol.
    pub fn symbol(&self) -> (s: &'static str)
        ensures
            s@ == spec_suit_symbol(*self),
    {
        match self {
            Suit::Hearts => "♥",
            Suit::Diamonds => "♦",
            Suit::Clubs => "♣",
            Suit::Spades => "♠",
        }
    }

    /// Hearts and diamonds are red.
    pub fn is_red(&self) -> (red: bool)
        ensures
            red <==> (*self == Suit::Hearts || *self == Suit::Diamonds),
    {
        match self {
            Suit::Hearts | Suit::Diamonds => true,
            _ => false,
        }
    }
}

/// The card symbol of a suit.
pub open spec fn spec_suit_symbol(s: Suit) -> Seq<char> {
    match s {
        Suit::Hearts => "♥"@,
        Suit::Diamonds => "♦"@,
        Suit::Clubs => "♣"@,
        Suit::Spades => "♠"@,
    }
}

/// A playing card. `rank` is 1 for an ace, 2 to 10 for pip cards, and 11, 12, 13
/// for jack, queen and king.
#[derive(Debug, Clone, Copy, PartialEq, Eq, Structural)]
pub struct Card {
    pub rank: u8,
    pub suit: Suit,
}

/// Label of a rank: A, 2 to 10, J, Q, K, and `?` for anything else.
pub open spec fn spec_rank_label(rank: u8) -> Seq<char> {
    if rank == 1 {
        "A"@
    } else if rank == 2 {
        "2"@
    } else if rank == 3 {
        "3"@
    } else if rank == 4 {
        "4"@
    } else if rank == 5 {
        "5"@
    } else if rank == 6 {
        "6"@
    } else if rank == 7 {
        "7"@
    } else if rank == 8 {
        "8"@
    } else if rank == 9 {
        "9"@
    } else if rank == 10 {
        "10"@
    } else if rank == 11 {
        "J"@
    } else if rank == 12 {
        "Q"@
    } else if rank == 13 {
        "K"@
    } else {
        "?"@
    }
}

/// Blackjack points of a card with an ace counted as 11 and faces as 10.
pub open spec fn spec_bj_value(c: Card) -> int {
    if c.rank == 1 {
        11
    } else if 2 <= c.rank <= 10 {
        c.rank as int
    } else {
        10
    }
}

/// The suit a draw of `index` in `0..4` selects.
pub open spec fn spec_suit_of_index(index: u32) -> Suit {
    if index == 0 {
        Suit::Hearts
    } else if index == 1 {
        Suit::Diamonds
    } else if index == 2 {
        Suit::Clubs
    } else {
        Suit::Spades
    }
}

impl Card {
    /// The card built from a drawn rank and a drawn suit index
    /// (0 hearts, 1 diamonds, 2 clubs, anything else spades).
    pub fn from_draw(rank: u8, suit_index: u32) -> (c: Card)
        ensures
            c.rank == rank,
            c.suit == spec_suit_of_index(suit_index),
    {
        let suit = match suit_index {
            0 => Suit::Hearts,
            1 => Suit::Diamonds,
            2 => Suit::Clubs,
            _ => Suit::Spades,
        };
        Card { rank, suit }
    }

    /// Deals a uniformly random card: a rank in 1..=13, then a suit.
    pub fn random(rng: &mut SmallRng) -> (c: Card)
        ensures
            1 <= c.rank <= 13,
    {
        let rank = draw_u8(rng, 1, 13);
        let suit_index = draw_u32(rng, 0, 3);
        Card::from_draw(rank, suit_index)
    }

    /// Rank label: A, 2 to 10, J, Q, K (and `?` for an out-of-range rank).
    pub fn rank_label(&self) -> (s: String)
        ensures
            s@ == spec_rank_label(self.rank),
    {
        let label: &str = match self.rank {
            1 => "A",
            2 => "2",
            3 => "3",
            4 => "4",
            5 => "5",
            6 => "6",
            7 => "7",
            8 => "8",
            9 => "9",
            10 => "10",
            11 => "J",
            12 => "Q",
            13 => "K",
            _ => "?",
        };
        label.to_string()
    }

    /// Rank label followed by the suit symbol, such as `A♠`.
    pub fn display(&self) -> (s: String)
        ensures
            s@ == spec_rank_label(self.rank) + spec_suit_symbol(self.suit),
    {
        let mut s = self.rank_label();
        s.append(self.suit.symbol());
        s
    }

    /// Blackjack point value (Ace counted as 11; caller handles soft totals).
    pub fn bj_value(&self) -> (v: u8)
        ensures
            v == spec_bj_value(*self),
    {
        match self.rank {
            1 => 11,
            2..=10 => self.rank,
            _ => 10,
        }
    }
}

/// Sum of the cards' points with every ace counted as 11.
pub open spec fn raw_total(hand: Seq<Card>) -> int
    decreases hand.len(),
{
    if hand.len() == 0 {
        0
    } else {
        raw_total(hand.drop_last()) + spec_bj_value(hand.last())
    }
}

/// Number of aces in the hand.
pub open spec fn ace_count(hand: Seq<Card>) -> int
    decreases hand.len(),
{
    if hand.len() == 0 {
        0
    } else {
        ace_count(hand.drop_last()) + if hand.last().rank == 1 {
            1int
        } else {
            0
        }
    }
}

/// How many aces must count as 1 instead of 11: as few as bring the total to 21
/// or below, or all of them when that is not enough.
pub open spec fn demoted_aces(raw: int, aces: int) -> int {
    if raw <= 21 {
        0
    } else if (raw - 12) / 10 <= aces {
        (raw - 12) / 10
    } else {
        aces
    }
}

/// The total of a hand whose raw total is `raw` when `k` of its aces count as
/// 1 instead of 11.
pub open spec fn total_counting(raw: int, k: int) -> int {
    raw - 10 * k
}

/// The best blackjack total: the raw total with just enough aces counted as 1.
pub open spec fn best_total(raw: int, aces: int) -> int {
    raw - 10 * demoted_aces(raw, aces)
}

/// Value of a hand as the game reports it: its best total, capped at 255.
pub open spec fn spec_hand_value(hand: Seq<Card>) -> int {
    let t = best_total(raw_total(hand), ace_count(hand));
    if t > 255 {
        255
    } else {
        t
    }
}

/// Bounds on a raw total: at least 2 a card plus 9 more an ace, at most 11 a card.
pub(crate) proof fn lemma_raw_total_bounds(hand: Seq<Card>)
    ensures
        0 <= ace_count(hand) <= hand.len(),
        raw_total(hand) >= 2 * hand.len() + 9 * ace_count(hand),
        raw_total(hand) <= 11 * hand.len(),
    decreases hand.len(),
{
    if hand.len() > 0 {
        lemma_raw_total_bounds(hand.drop_last());
    }
}

proof fn lemma_demote_step(raw: int, aces: int)
    requires
        raw > 21,
        aces > 0,
    ensures
        best_total(raw, aces) == best_total(raw - 10, aces - 1),
{
    let n = (raw - 12) / 10;
    assert(n >= 1);
    assert((raw - 22) / 10 == n - 1) by {
        assert(raw - 12 == 10 * n + (raw - 12) % 10);
    }
}

/// Adding a card adds its points and, for an ace, one to the ace count.
pub(crate) proof fn lemma_raw_total_push(hand: Seq<Card>, c: Card)
    ensures
        raw_total(hand.push(c)) == raw_total(hand) + spec_bj_value(c),
        ace_count(hand.push(c)) == ace_count(hand) + if c.rank == 1 {
            1int
        } else {
            0
        },
{
    assert(hand.push(c).drop_last() =~= hand);
}

/// Calculate the best blackjack hand value (handles soft Aces).
pub fn hand_value(hand: &[Card]) -> (v: u8)
    requires
        raw_total(hand@) <= u16::MAX,
    ensures
        v == spec_hand_value(hand@),
{
    let mut total: u16 = 0;
    let mut aces: u16 = 0;
    let mut i: usize = 0;
    proof {
        lemma_raw_total_bounds(hand@);
    }
    while i < hand.len()
        invariant
            i <= hand@.len(),
            total == raw_total(hand@.take(i as int)),
            aces == ace_count(hand@.take(i as int)),
            raw_total(hand@) <= u16::MAX,
            hand@.len() <= u16::MAX,
        decreases hand@.len() - i,
    {
        proof {
            assert(hand@.take(i + 1) =~= hand@.take(i as int).push(hand@[i as int]));
            lemma_raw_total_push(hand@.take(i as int), hand@[i as int]);
            lemma_raw_total_prefix(hand@, i as int + 1);
            lemma_raw_total_bounds(hand@.take(i + 1));
        }
        total = total + hand[i].bj_value() as u16;
        if hand[i].rank == 1 {
            aces = aces + 1;
        }
        i = i + 1;
    }
    proof {
        assert(hand@.take(i as int) =~= hand@);
    }
    let ghost raw = total as int;
    let ghost all_aces = aces as int;
    while total > 21 && aces > 0
        invariant
            best_total(total as int, aces as int) == best_total(raw, all_aces),
        decreases aces,
    {
        proof {
            lemma_demote_step(total as int, aces as int);
        }
        total = total - 10;
        aces = aces - 1;
    }
    if total > 255 {
        255
    } else {
        total as u8
    }
}

/// Soft aces: the best total is the largest total of 21 or less that counting
/// some of the aces as 1 instead of 11 can reach; when no choice gets there,
/// it is the smallest total, with every ace counted as 1.
pub proof fn lemma_best_total_is_optimal(raw: int, aces: int)
    requires
        0 <= aces,
    ensures
        0 <= demoted_aces(raw, aces) <= aces,
        best_total(raw, aces) == total_counting(raw, demoted_aces(raw, aces)),
        best_total(raw, aces) <= 21 <==> total_counting(raw, aces) <= 21,
        best_total(raw, aces) <= 21 ==> forall|k: int|
            0 <= k <= aces && #[trigger] total_counting(raw, k) <= 21 ==> total_counting(raw, k)
                <= best_total(raw, aces),
        best_total(raw, aces) > 21 ==> best_total(raw, aces) == total_counting(raw, aces),
{
    if raw > 21 && (raw - 12) / 10 <= aces {
        let n = (raw - 12) / 10;
        assert(raw - 12 == 10 * n + (raw - 12) % 10);
    }
}

/// The first `n` cards of a hand total no more than the whole hand.
pub(crate) proof fn lemma_raw_total_prefix(hand: Seq<Card>, n: int)
    requires
        0 <= n <= hand.len(),
    ensures
        raw_total(hand.take(n)) <= raw_total(hand),
    decreases hand.len() - n,
{
    if n < hand.len() {
        lemma_raw_total_prefix(hand, n + 1);
        assert(hand.take(n + 1) =~= hand.take(n).push(hand[n]));
        lemma_raw_total_push(hand.take(n), hand[n]);
    } else {
        assert(hand.take(n) =~= hand);
    }
}

/// Card points: an ace counts 11 (before any soft-ace adjustment), the pip
/// cards 2 to 10 count their rank, and the jack, queen and king count 10.
pub proof fn lemma_card_points(c: Card)
    ensures
        c.rank == 1 ==> spec_bj_value(c) == 11,
        2 <= c.rank <= 10 ==> spec_bj_value(c) == c.rank,
        11 <= c.rank <= 13 ==> spec_bj_value(c) == 10,
        1 <= c.rank <= 13 ==> 2 <= spec_bj_value(c) <= 11,
{
}

/// An ace with a ten, jack, queen or king, in either order, is worth 21: a
/// natural blackjack.
pub proof fn lemma_ace_and_ten_make_21(ace: Card, ten: Card)
    requires
        ace.rank == 1,
        10 <= ten.rank <= 13,
    ensures
        spec_hand_value(seq![ace, ten]) == 21,
        spec_hand_value(seq![ten, ace]) == 21,
{
    reveal_with_fuel(raw_total, 3);
    reveal_with_fuel(ace_count, 3);
    assert(seq![ace, ten].drop_last() =~= seq![ace]);
    assert(seq![ace].drop_last() =~= Seq::<Card>::empty());
    assert(seq![ten, ace].drop_last() =~= seq![ten]);
    assert(seq![ten].drop_last() =~= Seq::<Card>::empty());
}

/// Two aces are worth 12: one counts 11 and the other 1.
pub proof fn lemma_two_aces_make_12(a: Card, b: Card)
    requires
        a.rank == 1,
        b.rank == 1,
    ensures
        spec_hand_value(seq![a, b]) == 12,
{
    reveal_with_fuel(raw_total, 3);
    reveal_with_fuel(ace_count, 3);
    assert(seq![a, b].drop_last() =~= seq![a]);
    assert(seq![a].drop_last() =~= Seq::<Card>::empty());
}

} // verus!
