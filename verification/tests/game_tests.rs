use cookie_clicker::casino::{CasinoGame, CasinoState};
use cookie_clicker::catalog::{
    building_purchase_step, default_buildings, default_upgrades, upgrade_purchase_step,
    PurchaseStep, NUM_BUILDINGS, NUM_UPGRADES,
};
use cookie_clicker::clock::{
    GameClock, GoldenEffect, GoldenEvent, AUTOSAVE_TICKS, FRENZY_DURATION_TICKS, FRENZY_MULTIPLIER,
    GOLDEN_COLLECTED_COOLDOWN, GOLDEN_COLLECT_WINDOW, GOLDEN_FIRST_COOLDOWN,
};
use cookie_clicker::controls::{
    is_interrupt, main_action, CasinoAction, DiceRefusal, Key, MainAction,
};
use cookie_clicker::wager::{WagerBuffer, MAX_WAGER_DIGITS};
use cookie_clicker::display::{
    building_icon, cookie_frame, die_ascii, die_face_art, seconds_left, log_tone,
    tone_of_lowercase, upgrade_page_bounds, LogTone,
};
use cookie_clicker::history::{push_capped, MAX_LOG_ENTRIES};
use cookie_clicker::text::{byte_len, chars_of, prefixed, string_from_chars};
use rand::rngs::SmallRng;
use rand::SeedableRng;
use std::collections::VecDeque;

// ── Catalog ─────────────────────────────────────────────────────────────

#[test]
fn test_new_buildings_exist() {
    let buildings = default_buildings();
    assert_eq!(buildings.len(), 8);
    assert_eq!(buildings[4].name, "Factory");
    assert_eq!(buildings[5].name, "Bank");
    assert_eq!(buildings[6].name, "Temple");
    assert_eq!(buildings[7].name, "Wizard Tower");
}

#[test]
fn test_new_upgrades_exist() {
    let upgrades = default_upgrades();
    assert_eq!(upgrades.len(), 16);
    assert_eq!(upgrades[8].name, "Assembly Line");
    assert_eq!(upgrades[9].name, "Mass Production");
    assert_eq!(upgrades[10].name, "Investment Portfolio");
    assert_eq!(upgrades[11].name, "Compound Interest");
    assert_eq!(upgrades[12].name, "Divine Blessing");
    assert_eq!(upgrades[13].name, "Sacred Ritual");
    assert_eq!(upgrades[14].name, "Arcane Enchant");
    assert_eq!(upgrades[15].name, "Conjure Cookies");
}

#[test]
fn catalog_costs_and_rates() {
    let buildings = default_buildings();
    assert_eq!(buildings.len(), NUM_BUILDINGS);
    assert_eq!(buildings[0].name, "Cursor");
    assert_eq!(buildings[0].base_cost, 15);
    assert_eq!(buildings[0].cps_tenths, 1);
    assert_eq!(buildings[3].base_cost, 12_000);
    assert_eq!(buildings[3].cps_tenths, 470);
    assert_eq!(buildings[4].base_cost, 130_000);
    let upgrades = default_upgrades();
    assert_eq!(upgrades.len(), NUM_UPGRADES);
    for (i, u) in upgrades.iter().enumerate() {
        assert_eq!(u.building_index, i / 2);
        assert!(u.multiplier >= 2);
    }
    assert_eq!(upgrades[0].name, "Nimble Fingers");
    assert_eq!(upgrades[0].cost, 100);
}

#[test]
fn purchase_steps() {
    assert_eq!(building_purchase_step(3, 8), PurchaseStep::CheckPrice);
    assert_eq!(building_purchase_step(8, 8), PurchaseStep::NoSuchItem);
    assert_eq!(upgrade_purchase_step(None), PurchaseStep::NoSuchItem);
    assert_eq!(upgrade_purchase_step(Some(true)), PurchaseStep::AlreadyOwned);
    assert_eq!(upgrade_purchase_step(Some(false)), PurchaseStep::CheckPrice);
}

// ── Clock ───────────────────────────────────────────────────────────────

#[test]
fn golden_cookie_collection_gives_its_effect() {
    let mut clock = GameClock::new();
    clock.golden_collect_window = 30;
    clock.golden_gives_bonus = true;
    assert_eq!(clock.collect_golden_cookie(), Some(GoldenEffect::BonusCookies));
    assert_eq!(clock.golden_collect_window, 0);
    assert_eq!(clock.golden_spawn_cooldown, 400);
    assert_eq!(clock.frenzy_ticks, 0);
    // Nothing on screen: nothing happens.
    assert_eq!(clock.collect_golden_cookie(), None);
    assert_eq!(clock.golden_spawn_cooldown, GOLDEN_COLLECTED_COOLDOWN);
}

#[test]
fn frenzy_cookie_starts_a_thirty_second_frenzy() {
    let mut clock = GameClock::new();
    clock.golden_collect_window = 5;
    clock.golden_gives_bonus = false;
    assert_eq!(clock.collect_golden_cookie(), Some(GoldenEffect::Frenzy));
    assert_eq!(clock.frenzy_ticks, FRENZY_DURATION_TICKS);
    assert_eq!(clock.frenzy_multiplier, FRENZY_MULTIPLIER);
    for i in 0..FRENZY_DURATION_TICKS {
        let e = clock.tick_with(300, false);
        assert_eq!(e.frenzy_ended, i == FRENZY_DURATION_TICKS - 1);
    }
    assert_eq!(clock.frenzy_ticks, 0);
    assert_eq!(clock.frenzy_multiplier, 1);
    assert_eq!(seconds_left(FRENZY_DURATION_TICKS), 30);
}

#[test]
fn golden_cookie_appears_then_vanishes() {
    let mut clock = GameClock::new();
    assert_eq!(clock.golden_spawn_cooldown, GOLDEN_FIRST_COOLDOWN);
    for _ in 0..GOLDEN_FIRST_COOLDOWN {
        assert_eq!(clock.tick_with(500, true).golden, GoldenEvent::Quiet);
    }
    assert_eq!(clock.tick_with(500, true).golden, GoldenEvent::Appeared(GoldenEffect::BonusCookies));
    assert_eq!(clock.golden_collect_window, GOLDEN_COLLECT_WINDOW);
    for _ in 0..GOLDEN_COLLECT_WINDOW - 1 {
        assert_eq!(clock.tick_with(500, true).golden, GoldenEvent::Quiet);
    }
    assert_eq!(clock.tick_with(500, true).golden, GoldenEvent::Vanished);
    assert_eq!(clock.golden_spawn_cooldown, 500);
}

#[test]
fn random_ticks_draw_within_their_ranges() {
    let mut clock = GameClock::new();
    clock.golden_collect_window = 1;
    let mut rng = SmallRng::seed_from_u64(5);
    assert_eq!(clock.tick(&mut rng).golden, GoldenEvent::Vanished);
    assert!((300..=800).contains(&clock.golden_spawn_cooldown));
    let mut appeared = 0;
    for seed in 0..40u64 {
        let mut c = GameClock::new();
        c.golden_spawn_cooldown = 0;
        let mut rng = SmallRng::seed_from_u64(seed);
        match c.tick(&mut rng).golden {
            GoldenEvent::Appeared(_) => appeared += 1,
            other => panic!("unexpected {:?}", other),
        }
    }
    assert_eq!(appeared, 40);
}

#[test]
fn autosave_clicks_and_ascension() {
    let mut clock = GameClock::new();
    for _ in 0..AUTOSAVE_TICKS - 1 {
        clock.tick_with(300, false);
    }
    assert!(!clock.autosave_due());
    clock.tick_with(300, false);
    assert!(clock.autosave_due());
    clock.mark_saved();
    assert_eq!(clock.ticks_since_save, 0);
    clock.register_click();
    assert_eq!(clock.click_animation, 3);
    clock.tick_with(300, false);
    assert_eq!(clock.click_animation, 2);
    clock.frenzy_ticks = 10;
    clock.frenzy_multiplier = 7;
    clock.golden_collect_window = 4;
    clock.reset_for_ascension();
    assert_eq!(clock.frenzy_ticks, 0);
    assert_eq!(clock.frenzy_multiplier, 1);
    assert_eq!(clock.golden_collect_window, 0);
    assert_eq!(clock.golden_spawn_cooldown, GOLDEN_FIRST_COOLDOWN);
}

#[test]
fn animation_counter_wraps() {
    let mut clock = GameClock::new();
    clock.animation_tick = u32::MAX;
    clock.tick_with(300, false);
    assert_eq!(clock.animation_tick, 0);
    assert_eq!(cookie_frame(0), 0);
    assert_eq!(cookie_frame(4), 1);
    assert_eq!(cookie_frame(15), 3);
    assert_eq!(cookie_frame(16), 0);
}

// ── Controls ────────────────────────────────────────────────────────────

#[test]
fn main_screen_keys() {
    assert_eq!(main_action(Key::Char('q')), MainAction::Quit);
    assert_eq!(main_action(Key::Char(' ')), MainAction::Mine);
    assert_eq!(main_action(Key::Enter), MainAction::Mine);
    assert_eq!(main_action(Key::Char('3')), MainAction::BuyBuilding(2));
    assert_eq!(main_action(Key::Char('5')), MainAction::Nothing);
    assert_eq!(main_action(Key::Char('G')), MainAction::ToggleCasino);
    assert_eq!(main_action(Key::Char('s')), MainAction::Save);
    assert_eq!(main_action(Key::Char('A')), MainAction::Ascend);
    assert_eq!(main_action(Key::Backspace), MainAction::Nothing);
    assert!(is_interrupt(Key::Char('c'), true));
    assert!(!is_interrupt(Key::Char('c'), false));
}

#[test]
fn casino_menu_opens_games() {
    let mut casino = CasinoState::new();
    assert_eq!(casino.handle_key(Key::Char('f')), CasinoAction::Nothing);
    assert_eq!(casino.active_game, Some(CasinoGame::CoinFlip));
    assert_eq!(casino.handle_key(Key::Char('q')), CasinoAction::Quit);
    assert_eq!(casino.handle_key(Key::Char('g')), CasinoAction::Nothing);
    assert_eq!(casino.active_game, None);
    assert_eq!(casino.handle_key(Key::Char('s')), CasinoAction::Nothing);
    assert_eq!(casino.active_game, Some(CasinoGame::SlotMachine));
    assert_eq!(casino.handle_key(Key::Char('S')), CasinoAction::SpinSlots);
    casino.handle_key(Key::Char('G'));
    assert_eq!(casino.handle_key(Key::Char('G')), CasinoAction::LeaveCasino);
}

#[test]
fn coin_flip_wager_entry() {
    let mut casino = CasinoState::new();
    casino.handle_key(Key::Char('F'));
    casino.handle_key(Key::Char('5'));
    assert_eq!(casino.handle_key(Key::Enter), CasinoAction::CoinBetTooSmall);
    casino.handle_key(Key::Char('0'));
    assert_eq!(casino.wager_input.as_str(), "50");
    assert_eq!(casino.handle_key(Key::Char('f')), CasinoAction::FlipCoin(50));
    casino.handle_key(Key::Backspace);
    casino.handle_key(Key::Backspace);
    casino.handle_key(Key::Backspace);
    assert_eq!(casino.wager_input.as_str(), "");
    assert_eq!(casino.handle_key(Key::Enter), CasinoAction::Nothing);
    for _ in 0..20 {
        casino.handle_key(Key::Char('9'));
    }
    assert_eq!(casino.wager_input.as_str().len(), MAX_WAGER_DIGITS);
    assert_eq!(casino.handle_key(Key::Enter), CasinoAction::FlipCoin(999_999_999_999));
    casino.finish_coin_flip();
    assert!(casino.wager_input.is_empty());
}

#[test]
fn dice_wager_then_guess_then_roll() {
    let mut casino = CasinoState::new();
    casino.handle_key(Key::Char('d'));
    assert!(casino.entering_wager);
    assert_eq!(casino.dice_roll_request(), Err(DiceRefusal::NoWager));
    casino.handle_key(Key::Char('5'));
    casino.handle_key(Key::Enter);
    assert!(casino.entering_dice_guess);
    assert_eq!(casino.dice_roll_request(), Err(DiceRefusal::NoGuess));
    casino.handle_key(Key::Char('7'));
    assert_eq!(casino.dice_guess, 0);
    casino.handle_key(Key::Char('4'));
    assert_eq!(casino.dice_guess, 4);
    assert_eq!(casino.dice_roll_request(), Err(DiceRefusal::BelowMinimum));
    casino.wager_input = WagerBuffer::from_digits("25").unwrap();
    assert_eq!(casino.handle_key(Key::Enter), CasinoAction::RollDice);
    assert_eq!(casino.dice_roll_request(), Ok((25, 4)));
    casino.finish_dice_roll();
    assert!(casino.entering_wager);
    assert_eq!(casino.dice_guess, 0);
    assert!(casino.wager_input.is_empty());
}

#[test]
fn roulette_and_blackjack_screens_ignore_keys() {
    let mut casino = CasinoState::new();
    casino.active_game = Some(CasinoGame::Roulette);
    assert_eq!(casino.handle_key(Key::Char('q')), CasinoAction::Nothing);
    assert_eq!(casino.active_game, Some(CasinoGame::Roulette));
}

// ── Display ─────────────────────────────────────────────────────────────

#[test]
fn dice_glyphs_and_faces() {
    assert_eq!(die_ascii(1), "\u{2680}");
    assert_eq!(die_ascii(6), "\u{2685}");
    assert_eq!(die_ascii(7), "?");
    let face = die_face_art(5);
    assert_eq!(face[2], "\u{2502}  \u{25cf}  \u{2502}");
    for n in 1..=6u8 {
        let pips: usize = die_face_art(n).iter().map(|row| row.matches('\u{25cf}').count()).sum();
        assert_eq!(pips, n as usize);
    }
    assert_eq!(die_face_art(0)[2], "\u{2502}  ?  \u{2502}");
}

#[test]
fn building_icons_and_log_tones() {
    assert_eq!(building_icon(1), "\u{1f475}");
    assert_eq!(building_icon(8), "?");
    assert_eq!(log_tone("Grandma PURCHASED for 115 cookies."), LogTone::Success);
    assert_eq!(log_tone("Lost 50 cookies"), LogTone::Failure);
    assert_eq!(log_tone("The Golden Cookie vanished"), LogTone::Failure);
    assert_eq!(log_tone("\u{2728} Golden Cookie collected!"), LogTone::Golden);
    assert_eq!(log_tone("ASCENDED!"), LogTone::Prestige);
    assert_eq!(log_tone("\u{1f525} Frenzy activated!"), LogTone::Frenzy);
    assert_eq!(log_tone("Game saved!"), LogTone::Info);
}

#[test]
fn tones_of_lowercase_messages() {
    assert_eq!(tone_of_lowercase("coin flip: heads! won 10 cookies!"), LogTone::Success);
    assert_eq!(tone_of_lowercase("dice: wrong! lost 10 cookies."), LogTone::Failure);
    assert_eq!(tone_of_lowercase("ascended! earned 1 heavenly chip(s)."), LogTone::Prestige);
    assert_eq!(tone_of_lowercase("\u{1f525} frenzy ended!"), LogTone::Frenzy);
    // Upper case is not matched once the message is taken as lowercased.
    assert_eq!(tone_of_lowercase("PURCHASED"), LogTone::Info);
}

#[test]
fn upgrade_pages() {
    assert_eq!(upgrade_page_bounds(0, 16), (0, 8, 2));
    assert_eq!(upgrade_page_bounds(1, 16), (8, 16, 2));
    assert_eq!(upgrade_page_bounds(1, 13), (8, 13, 2));
    assert_eq!(upgrade_page_bounds(0, 0), (0, 0, 0));
    assert_eq!(seconds_left(1), 1);
    assert_eq!(seconds_left(4), 1);
    assert_eq!(seconds_left(5), 2);
    assert_eq!(seconds_left(0), 0);
}

// ── History and text ────────────────────────────────────────────────────

#[test]
fn log_keeps_its_latest_entries() {
    let mut log: VecDeque<u32> = VecDeque::new();
    for i in 0..20u32 {
        push_capped(&mut log, i, MAX_LOG_ENTRIES);
        assert!(log.len() <= MAX_LOG_ENTRIES);
    }
    assert_eq!(log.len(), 8);
    assert_eq!(log.front(), Some(&12));
    assert_eq!(log.back(), Some(&19));
}

#[test]
fn text_helpers() {
    assert_eq!(chars_of("h\u{e9}!"), vec!['h', '\u{e9}', '!']);
    assert_eq!(byte_len(&"h\u{e9}!".to_string()), 4);
    let chars = chars_of("cookie");
    assert_eq!(string_from_chars(&chars, 1, 4), "ook");
    assert_eq!(prefixed("$", "me@host"), "$me@host");
}
