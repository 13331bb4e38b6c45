use cookie_clicker::blackjack::{showdown, BlackjackOutcome, BlackjackPhase, MAX_WAGER};
use cookie_clicker::cards::{hand_value, Card, Suit};
use cookie_clicker::casino::CasinoState;
use cookie_clicker::roulette::{roulette_bet_wins, roulette_color, RouletteBetType, RouletteColor};
use cookie_clicker::slots::{slot_payout, Symbol, SLOT_BET};
use cookie_clicker::wager::WagerBuffer;
use rand::rngs::SmallRng;
use rand::SeedableRng;

fn card(rank: u8, suit: Suit) -> Card {
    Card { rank, suit }
}

// ── Slots ───────────────────────────────────────────────────────────────

#[test]
fn test_slot_payout_three_sevens() {
    let reels = [Symbol::Seven, Symbol::Seven, Symbol::Seven];
    assert_eq!(slot_payout(&reels), SLOT_BET * 100);
}

#[test]
fn test_slot_payout_three_diamonds() {
    let reels = [Symbol::Diamond, Symbol::Diamond, Symbol::Diamond];
    assert_eq!(slot_payout(&reels), SLOT_BET * 25);
}

#[test]
fn test_slot_payout_three_cherries() {
    let reels = [Symbol::Cherry, Symbol::Cherry, Symbol::Cherry];
    assert_eq!(slot_payout(&reels), SLOT_BET * 5);
}

#[test]
fn test_slot_payout_no_match() {
    let reels = [Symbol::Lemon, Symbol::Bell, Symbol::Diamond];
    assert_eq!(slot_payout(&reels), 0);
}

#[test]
fn slot_payout_other_triples_and_a_lone_cherry() {
    assert_eq!(slot_payout(&[Symbol::Lemon, Symbol::Lemon, Symbol::Lemon]), 300);
    assert_eq!(slot_payout(&[Symbol::Bell, Symbol::Bell, Symbol::Bell]), 700);
    assert_eq!(slot_payout(&[Symbol::Bell, Symbol::Cherry, Symbol::Seven]), 50);
    assert_eq!(slot_payout(&[Symbol::Cherry, Symbol::Cherry, Symbol::Seven]), 50);
}

#[test]
fn symbol_weights_follow_the_roll() {
    assert_eq!(Symbol::from_roll(0), Symbol::Cherry);
    assert_eq!(Symbol::from_roll(34), Symbol::Cherry);
    assert_eq!(Symbol::from_roll(35), Symbol::Lemon);
    assert_eq!(Symbol::from_roll(64), Symbol::Lemon);
    assert_eq!(Symbol::from_roll(65), Symbol::Bell);
    assert_eq!(Symbol::from_roll(85), Symbol::Diamond);
    assert_eq!(Symbol::from_roll(94), Symbol::Diamond);
    assert_eq!(Symbol::from_roll(95), Symbol::Seven);
    assert_eq!(Symbol::from_roll(99), Symbol::Seven);
    let sevens = (0u8..100).filter(|r| Symbol::from_roll(*r) == Symbol::Seven).count();
    assert_eq!(sevens, 5);
}

#[test]
fn slots_return_73_percent_over_every_roll() {
    let symbols: Vec<Symbol> = (0u8..100).map(Symbol::from_roll).collect();
    let mut total: u64 = 0;
    for a in &symbols {
        for b in &symbols {
            for c in &symbols {
                total += slot_payout(&[*a, *b, *c]);
            }
        }
    }
    assert_eq!(total, 73_012_500);
    assert!(total < SLOT_BET * 1_000_000);
}

#[test]
fn spin_slots_records_the_spin() {
    let mut casino = CasinoState::default();
    let gross = casino.spin_slots_with([Symbol::Seven, Symbol::Seven, Symbol::Seven]);
    assert_eq!(gross, 10_000);
    assert_eq!(casino.total_spins, 1);
    assert_eq!(casino.total_wagered, 100);
    assert_eq!(casino.total_won_halves, 20_000);
    assert_eq!(casino.last_slot.unwrap().payout, 9_900);
    assert_eq!(casino.net_profit(), 19_800);
    let gross = casino.spin_slots_with([Symbol::Lemon, Symbol::Bell, Symbol::Diamond]);
    assert_eq!(gross, 0);
    assert_eq!(casino.last_slot.unwrap().payout, -100);
    assert_eq!(casino.net_profit(), 19_600);
}

#[test]
fn spin_slots_with_a_seed_pays_by_the_table() {
    let mut casino = CasinoState::default();
    let mut rng = SmallRng::seed_from_u64(7);
    for _ in 0..20 {
        let gross = casino.spin_slots(&mut rng);
        let r = casino.last_slot.unwrap();
        assert_eq!(gross, slot_payout(&r.reels));
        assert_eq!(r.payout, gross as i64 - 100);
    }
    assert_eq!(casino.total_spins, 20);
    assert_eq!(casino.total_wagered, 2_000);
}

// ── Coin flip and dice ──────────────────────────────────────────────────

#[test]
fn test_coin_flip_deterministic() {
    let mut rng = SmallRng::seed_from_u64(42);
    let mut casino = CasinoState::default();
    let net = casino.flip_coin(100, &mut rng);
    // net should be either +100 or -100
    assert!(net == 100 || net == -100);
}

#[test]
fn test_dice_win() {
    let mut casino = CasinoState::default();
    let mut rng = SmallRng::seed_from_u64(0);
    let net = casino.roll_dice(50, 1, &mut rng);
    assert!(net == 200 || net == -50);
}

#[test]
fn coin_flip_settles_both_ways() {
    let mut casino = CasinoState::default();
    assert_eq!(casino.flip_coin_with(100, true), 100);
    assert_eq!(casino.total_won_halves, 400);
    assert_eq!(casino.flip_coin_with(40, false), -40);
    assert_eq!(casino.total_wagered, 140);
    assert_eq!(casino.total_won_halves, 400);
    let last = casino.last_coin.unwrap();
    assert!(!last.won);
    assert_eq!(last.net, -40);
    assert_eq!(casino.net_profit(), 2 * (100 - 40));
}

#[test]
fn dice_pays_five_times_on_a_hit() {
    let mut casino = CasinoState::default();
    assert_eq!(casino.roll_dice_with(50, 3, 3), 200);
    assert_eq!(casino.roll_dice_with(50, 3, 4), -50);
    let last = casino.last_dice.unwrap();
    assert_eq!(last.rolled, 4);
    assert_eq!(last.guessed, 3);
    assert!(!last.won);
    assert_eq!(casino.total_wagered, 100);
    assert_eq!(casino.total_won_halves, 500);
    assert_eq!(casino.net_profit(), 300);
}

#[test]
fn dice_rolls_stay_on_the_die() {
    for seed in 0..50u64 {
        let mut rng = SmallRng::seed_from_u64(seed);
        let mut casino = CasinoState::default();
        let net = casino.roll_dice(10, 6, &mut rng);
        let r = casino.last_dice.unwrap();
        assert!((1..=6).contains(&r.rolled));
        assert_eq!(r.won, r.rolled == 6);
        assert_eq!(net, if r.won { 40 } else { -10 });
    }
}

#[test]
fn totals_saturate() {
    let mut casino = CasinoState::default();
    casino.total_wagered = u64::MAX - 5;
    casino.flip_coin_with(10, false);
    assert_eq!(casino.total_wagered, u64::MAX);
}

// ── Wager parsing ───────────────────────────────────────────────────────

#[test]
fn test_parsed_wager_valid() {
    let mut casino = CasinoState::default();
    casino.wager_input = WagerBuffer::from_digits("250").unwrap();
    assert_eq!(casino.parsed_wager(), Some(250));
}

#[test]
fn test_parsed_wager_empty() {
    let casino = CasinoState::default();
    assert_eq!(casino.parsed_wager(), None);
}

#[test]
fn parsed_wager_of_digit_buffers() {
    let mut casino = CasinoState::default();
    casino.wager_input = WagerBuffer::from_digits("0").unwrap();
    assert_eq!(casino.parsed_wager(), None);
    casino.wager_input = WagerBuffer::from_digits("007").unwrap();
    assert_eq!(casino.parsed_wager(), Some(7));
    casino.wager_input = WagerBuffer::from_digits("999999999999").unwrap();
    assert_eq!(casino.parsed_wager(), Some(MAX_WAGER));
}

#[test]
fn wager_buffer_holds_only_twelve_digits() {
    assert!(WagerBuffer::from_digits("12a").is_none());
    assert!(WagerBuffer::from_digits("+5").is_none());
    assert!(WagerBuffer::from_digits("5.0").is_none());
    assert!(WagerBuffer::from_digits("1e3").is_none());
    assert!(WagerBuffer::from_digits("1234567890123").is_none());
    assert!(WagerBuffer::from_digits("").unwrap().is_empty());
    let mut b = WagerBuffer::new();
    for c in "98765432109876".chars() {
        b.push_digit(c);
    }
    assert_eq!(b.as_str(), "987654321098");
    b.pop_digit();
    assert_eq!(b.as_str(), "98765432109");
    b.clear();
    assert!(b.is_empty());
    b.pop_digit();
    assert_eq!(b.as_str(), "");
    assert_eq!(b.parsed(), None);
}

// ── Roulette ────────────────────────────────────────────────────────────

#[test]
fn test_roulette_color_zero_is_green() {
    assert_eq!(roulette_color(0), RouletteColor::Green);
}

#[test]
fn test_roulette_color_one_is_red() {
    assert_eq!(roulette_color(1), RouletteColor::Red);
}

#[test]
fn test_roulette_color_two_is_black() {
    assert_eq!(roulette_color(2), RouletteColor::Black);
}

#[test]
fn test_roulette_bet_red_wins_on_red_number() {
    assert!(roulette_bet_wins(RouletteBetType::Red, 1));
    assert!(!roulette_bet_wins(RouletteBetType::Red, 2));
    assert!(!roulette_bet_wins(RouletteBetType::Red, 0));
}

#[test]
fn test_roulette_bet_green_wins_on_zero() {
    assert!(roulette_bet_wins(RouletteBetType::Green, 0));
    assert!(!roulette_bet_wins(RouletteBetType::Green, 1));
}

#[test]
fn test_roulette_bet_odd_even() {
    assert!(roulette_bet_wins(RouletteBetType::Odd, 3));
    assert!(!roulette_bet_wins(RouletteBetType::Odd, 4));
    assert!(!roulette_bet_wins(RouletteBetType::Odd, 0)); // 0 is not odd
    assert!(roulette_bet_wins(RouletteBetType::Even, 4));
    assert!(!roulette_bet_wins(RouletteBetType::Even, 0)); // 0 is not even
}

#[test]
fn test_roulette_bet_low_high() {
    assert!(roulette_bet_wins(RouletteBetType::Low, 1));
    assert!(roulette_bet_wins(RouletteBetType::Low, 18));
    assert!(!roulette_bet_wins(RouletteBetType::Low, 19));
    assert!(roulette_bet_wins(RouletteBetType::High, 19));
    assert!(roulette_bet_wins(RouletteBetType::High, 36));
    assert!(!roulette_bet_wins(RouletteBetType::High, 18));
}

#[test]
fn test_roulette_spin() {
    let mut casino = CasinoState::default();
    let mut rng = SmallRng::seed_from_u64(42);
    let net = casino.spin_roulette(100, RouletteBetType::Red, &mut rng);
    // net should be +100 (won) or -100 (lost)
    assert!(net == 100 || net == -100);
    assert!(casino.last_roulette.is_some());
    assert_eq!(casino.total_wagered, 100);
}

#[test]
fn test_roulette_green_payout() {
    assert_eq!(RouletteBetType::Green.payout_multiplier(), 14);
    assert_eq!(RouletteBetType::Red.payout_multiplier(), 2);
}

#[test]
fn roulette_colours_of_every_pocket() {
    let reds = [1u8, 3, 5, 7, 9, 12, 14, 16, 18, 19, 21, 23, 25, 27, 30, 32, 34, 36];
    for n in 1..=36u8 {
        let expected = if reds.contains(&n) { RouletteColor::Red } else { RouletteColor::Black };
        assert_eq!(roulette_color(n), expected);
        assert!(roulette_bet_wins(RouletteBetType::Red, n) != roulette_bet_wins(RouletteBetType::Black, n));
        assert!(roulette_bet_wins(RouletteBetType::Odd, n) != roulette_bet_wins(RouletteBetType::Even, n));
        assert!(roulette_bet_wins(RouletteBetType::Low, n) != roulette_bet_wins(RouletteBetType::High, n));
    }
    for bet in [
        RouletteBetType::Red,
        RouletteBetType::Black,
        RouletteBetType::Odd,
        RouletteBetType::Even,
        RouletteBetType::Low,
        RouletteBetType::High,
    ] {
        assert!(!roulette_bet_wins(bet, 0));
    }
    assert_eq!(RouletteBetType::Green.label(), "Green (0)");
}

#[test]
fn every_roulette_bet_favours_the_house() {
    for bet in [
        RouletteBetType::Red,
        RouletteBetType::Black,
        RouletteBetType::Green,
        RouletteBetType::Odd,
        RouletteBetType::Even,
        RouletteBetType::Low,
        RouletteBetType::High,
    ] {
        let wins = (0..=36u8).filter(|n| roulette_bet_wins(bet, *n)).count() as u64;
        let expected = if bet == RouletteBetType::Green { 1 } else { 18 };
        assert_eq!(wins, expected);
        assert!(wins * bet.payout_multiplier() < 37);
    }
}

#[test]
fn roulette_green_pays_fourteen_times() {
    let mut casino = CasinoState::default();
    assert_eq!(casino.spin_roulette_with(10, RouletteBetType::Green, 0), 130);
    let r = casino.last_roulette.unwrap();
    assert_eq!(r.color, RouletteColor::Green);
    assert!(r.won);
    assert_eq!(casino.total_won_halves, 280);
    assert_eq!(casino.spin_roulette_with(10, RouletteBetType::Green, 5), -10);
    assert_eq!(casino.net_profit(), 2 * 120);
}

// ── Blackjack ───────────────────────────────────────────────────────────

#[test]
fn test_hand_value_simple() {
    let hand = vec![card(10, Suit::Hearts), card(8, Suit::Spades)];
    assert_eq!(hand_value(&hand), 18);
}

#[test]
fn test_hand_value_ace_as_eleven() {
    let hand = vec![card(1, Suit::Hearts), card(9, Suit::Spades)];
    assert_eq!(hand_value(&hand), 20); // Ace = 11
}

#[test]
fn test_hand_value_ace_as_one() {
    let hand = vec![card(1, Suit::Hearts), card(9, Suit::Spades), card(5, Suit::Clubs)];
    assert_eq!(hand_value(&hand), 15); // Ace demoted to 1
}

#[test]
fn test_hand_value_blackjack() {
    let hand = vec![card(1, Suit::Hearts), card(13, Suit::Spades)];
    assert_eq!(hand_value(&hand), 21);
}

#[test]
fn test_hand_value_double_ace() {
    let hand = vec![card(1, Suit::Hearts), card(1, Suit::Spades)];
    assert_eq!(hand_value(&hand), 12); // One ace = 11, one = 1
}

#[test]
fn hand_value_keeps_a_bust_with_every_ace_low() {
    let hand = vec![card(1, Suit::Hearts), card(13, Suit::Spades), card(12, Suit::Clubs), card(5, Suit::Clubs)];
    assert_eq!(hand_value(&hand), 26);
    let empty: Vec<Card> = Vec::new();
    assert_eq!(hand_value(&empty), 0);
}

#[test]
fn test_card_display() {
    let card1 = card(1, Suit::Spades);
    assert_eq!(card1.display(), "A♠");
    let card2 = card(13, Suit::Hearts);
    assert_eq!(card2.display(), "K♥");
}

#[test]
fn card_labels_values_and_suits() {
    assert_eq!(card(10, Suit::Diamonds).display(), "10♦");
    assert_eq!(card(11, Suit::Clubs).rank_label(), "J");
    assert_eq!(card(12, Suit::Clubs).bj_value(), 10);
    assert_eq!(card(1, Suit::Clubs).bj_value(), 11);
    assert_eq!(card(0, Suit::Clubs).rank_label(), "?");
    assert!(Suit::Hearts.is_red());
    assert!(!Suit::Spades.is_red());
    assert_eq!(Card::from_draw(5, 2), card(5, Suit::Clubs));
    assert_eq!(Card::from_draw(5, 9), card(5, Suit::Spades));
    let mut rng = SmallRng::seed_from_u64(3);
    for _ in 0..200 {
        let c = Card::random(&mut rng);
        assert!((1..=13).contains(&c.rank));
    }
}

#[test]
fn test_blackjack_deal() {
    let mut casino = CasinoState::default();
    let mut rng = SmallRng::seed_from_u64(42);
    let dealt = casino.deal_blackjack(100, &mut rng);
    assert!(dealt);
    assert!(casino.blackjack_hand.is_some());
    assert_eq!(casino.total_wagered, 100);
}

#[test]
fn test_blackjack_cannot_deal_twice() {
    let mut casino = CasinoState::default();
    let mut rng = SmallRng::seed_from_u64(42);
    casino.deal_blackjack(100, &mut rng);
    // If the hand was resolved (natural blackjack), clear it first
    if let Some(ref h) = casino.blackjack_hand {
        if h.phase != BlackjackPhase::Resolved {
            let dealt2 = casino.deal_blackjack(100, &mut rng);
            assert!(!dealt2); // Cannot deal while hand is active
        }
    }
}

#[test]
fn test_blackjack_stand_resolves() {
    let mut casino = CasinoState::default();
    let mut rng = SmallRng::seed_from_u64(99);
    casino.deal_blackjack(50, &mut rng);
    if let Some(ref h) = casino.blackjack_hand {
        if h.phase == BlackjackPhase::PlayerTurn {
            casino.blackjack_stand(&mut rng);
            let hand = casino.blackjack_hand.as_ref().unwrap();
            assert_eq!(hand.phase, BlackjackPhase::Resolved);
            assert!(hand.outcome.is_some());
            assert!(casino.last_blackjack.is_some());
        }
    }
}

#[test]
fn natural_blackjack_pays_three_to_two() {
    let mut casino = CasinoState::default();
    let cards = [card(1, Suit::Hearts), card(13, Suit::Spades), card(9, Suit::Clubs), card(7, Suit::Clubs)];
    assert!(casino.deal_blackjack_with(100, cards));
    let h = casino.blackjack_hand.as_ref().unwrap();
    assert_eq!(h.phase, BlackjackPhase::Resolved);
    assert_eq!(h.outcome, Some(BlackjackOutcome::PlayerBlackjack));
    let r = casino.last_blackjack.as_ref().unwrap();
    assert_eq!(r.net_halves, 300);
    assert_eq!(r.player_score, 21);
    assert_eq!(r.dealer_score, 16);
    assert_eq!(casino.total_wagered, 100);
    assert_eq!(casino.total_won_halves, 500);
    assert_eq!(casino.net_profit(), 300);
    // A hand on the table, even a resolved one, blocks a new deal.
    assert!(!casino.deal_blackjack_with(100, cards));
    casino.clear_blackjack_hand();
    assert!(casino.blackjack_hand.is_none());
    assert!(casino.deal_blackjack_with(100, cards));
}

#[test]
fn two_naturals_push() {
    let mut casino = CasinoState::default();
    let cards = [card(1, Suit::Hearts), card(10, Suit::Spades), card(1, Suit::Clubs), card(12, Suit::Clubs)];
    assert!(casino.deal_blackjack_with(40, cards));
    let r = casino.last_blackjack.as_ref().unwrap();
    assert_eq!(r.outcome, BlackjackOutcome::Push);
    assert_eq!(r.net_halves, 0);
    assert_eq!(casino.net_profit(), 0);
}

#[test]
fn an_open_hand_waits_for_the_player() {
    let mut casino = CasinoState::default();
    let cards = [card(10, Suit::Hearts), card(6, Suit::Spades), card(10, Suit::Clubs), card(7, Suit::Clubs)];
    assert!(casino.deal_blackjack_with(30, cards));
    let h = casino.blackjack_hand.as_ref().unwrap();
    assert_eq!(h.phase, BlackjackPhase::PlayerTurn);
    assert!(h.outcome.is_none());
    assert!(casino.last_blackjack.is_none());
    // The dealer already holds 17, so standing on 16 loses.
    let mut rng = SmallRng::seed_from_u64(1);
    casino.blackjack_stand(&mut rng);
    let h = casino.blackjack_hand.as_ref().unwrap();
    assert_eq!(h.dealer_cards.len(), 2);
    assert_eq!(h.outcome, Some(BlackjackOutcome::DealerWin));
    assert_eq!(casino.last_blackjack.as_ref().unwrap().net_halves, -60);
    assert_eq!(casino.net_profit(), -60);
    // Standing again does nothing.
    casino.blackjack_stand(&mut rng);
    assert_eq!(casino.net_profit(), -60);
}

#[test]
fn hitting_until_the_hand_ends() {
    for seed in 0..30u64 {
        let mut casino = CasinoState::default();
        let cards = [card(2, Suit::Hearts), card(3, Suit::Spades), card(10, Suit::Clubs), card(6, Suit::Clubs)];
        casino.deal_blackjack_with(20, cards);
        let mut rng = SmallRng::seed_from_u64(seed);
        while casino.blackjack_hit(&mut rng) {
            let h = casino.blackjack_hand.as_ref().unwrap();
            assert!(hand_value(&h.player_cards) < 21);
        }
        let h = casino.blackjack_hand.as_ref().unwrap();
        assert_eq!(h.phase, BlackjackPhase::Resolved);
        let pv = hand_value(&h.player_cards);
        let dv = hand_value(&h.dealer_cards);
        if pv > 21 {
            assert_eq!(h.outcome, Some(BlackjackOutcome::PlayerBust));
            assert_eq!(h.dealer_cards.len(), 2);
        } else {
            assert_eq!(pv, 21);
            assert!(dv >= 17);
        }
        assert!(!casino.blackjack_hit(&mut rng));
    }
}

#[test]
fn the_hole_card_stays_hidden_while_the_player_acts() {
    let mut casino = CasinoState::default();
    let cards = [card(10, Suit::Hearts), card(6, Suit::Spades), card(10, Suit::Clubs), card(7, Suit::Clubs)];
    casino.deal_blackjack_with(30, cards);
    let h = casino.blackjack_hand.as_ref().unwrap();
    assert_eq!(h.dealer_cards_shown(), 1);
    assert_eq!(h.dealer_score_shown(), None);
    let mut rng = SmallRng::seed_from_u64(2);
    casino.blackjack_stand(&mut rng);
    let h = casino.blackjack_hand.as_ref().unwrap();
    assert_eq!(h.dealer_cards_shown(), 2);
    assert_eq!(h.dealer_score_shown(), Some(17));
}

#[test]
fn outcomes_net_and_showdown() {
    assert_eq!(BlackjackOutcome::PlayerBlackjack.net_halves(10), 30);
    assert_eq!(BlackjackOutcome::DealerBust.net_halves(10), 20);
    assert_eq!(BlackjackOutcome::PlayerBust.net_halves(10), -20);
    assert_eq!(BlackjackOutcome::Push.net_halves(MAX_WAGER), 0);
    assert_eq!(showdown(18, 22), BlackjackOutcome::DealerBust);
    assert_eq!(showdown(19, 18), BlackjackOutcome::PlayerWin);
    assert_eq!(showdown(17, 18), BlackjackOutcome::DealerWin);
    assert_eq!(showdown(18, 18), BlackjackOutcome::Push);
}

#[test]
fn within_limits_of_a_fresh_casino() {
    let casino = CasinoState::new();
    assert!(casino.within_limits());
    assert_eq!(casino.net_profit(), 0);
}
