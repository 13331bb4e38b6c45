//! What each key does: the decisions of the main screen and of the casino
//! screens, separated from the terminal that delivers the keys.

use crate::blackjack::MAX_WAGER;
use crate::casino::{CasinoGame, CasinoState, COINFLIP_MIN_BET, DICE_MIN_BET};
use crate::wager::{spec_parsed_wager, MAX_WAGER_DIGITS};
use vstd::prelude::*;

verus! {

/// A key press as the game sees it.
#[derive(Debug, Clone, Copy, PartialEq, Eq, Structural)]
pub enum Key {
    Char(char),
    Enter,
    Backspace,
    Other,
}

/// What a key asks of the main game screen.
#[derive(Debug, Clone, Copy, PartialEq, Eq, Structural)]
pub enum MainAction {
    Quit,
    Mine,
    /// Buy one of the building at this index.
    BuyBuilding(usize),
    ToggleCasino,
    Save,
    Ascend,
    Nothing,
}

/// What a key asks of the game once the casino screens have taken their part.
#[derive(Debug, Clone, Copy, PartialEq, Eq, Structural)]
pub enum CasinoAction {
    Quit,
    /// Close the casino and return to the main screen.
    LeaveCasino,
    /// Stake `SLOT_BET` on a spin.
    SpinSlots,
    /// Stake this many cookies on a coin flip.
    FlipCoin(u64),
    /// The entered coin-flip wager is below the minimum bet.
    CoinBetTooSmall,
    /// Try to roll the die on the entered wager and guess.
    RollDice,
    Nothing,
}

/// Why a dice roll cannot go ahead.
#[derive(Debug, Clone, Copy, PartialEq, Eq, Structural)]
pub enum DiceRefusal {
    /// The wager buffer does not hold a valid wager.
    NoWager,
    /// The guess is not between 1 and 6.
    NoGuess,
    /// The wager is below the minimum dice bet.
    BelowMinimum,
}

/// `key` is the character `lower` or the character `upper`.
pub open spec fn is_one_of(key: Key, lower: char, upper: char) -> bool {
    key == Key::Char(lower) || key == Key::Char(upper)
}

/// Control-C quits from every screen.
pub fn is_interrupt(key: Key, control: bool) -> (quit: bool)
    ensures
        quit == (control && key == Key::Char('c')),
{
    control && key == Key::Char('c')
}

/// The main screen's key map: Q quits, space or Enter mines, 1 to 4 buy the
/// first four buildings, G opens the casino, S saves, A ascends.
pub open spec fn spec_main_action(key: Key) -> MainAction {
    if is_one_of(key, 'q', 'Q') {
        MainAction::Quit
    } else if key == Key::Char(' ') || key == Key::Enter {
        MainAction::Mine
    } else if key == Key::Char('1') {
        MainAction::BuyBuilding(0)
    } else if key == Key::Char('2') {
        MainAction::BuyBuilding(1)
    } else if key == Key::Char('3') {
        MainAction::BuyBuilding(2)
    } else if key == Key::Char('4') {
        MainAction::BuyBuilding(3)
    } else if is_one_of(key, 'g', 'G') {
        MainAction::ToggleCasino
    } else if is_one_of(key, 's', 'S') {
        MainAction::Save
    } else if is_one_of(key, 'a', 'A') {
        MainAction::Ascend
    } else {
        MainAction::Nothing
    }
}

/// What a key asks of the main game screen.
pub fn main_action(key: Key) -> (a: MainAction)
    ensures
        a == spec_main_action(key),
{
    match key {
        Key::Char('q') | Key::Char('Q') => MainAction::Quit,
        Key::Char(' ') | Key::Enter => MainAction::Mine,
        Key::Char('1') => MainAction::BuyBuilding(0),
        Key::Char('2') => MainAction::BuyBuilding(1),
        Key::Char('3') => MainAction::BuyBuilding(2),
        Key::Char('4') => MainAction::BuyBuilding(3),
        Key::Char('g') | Key::Char('G') => MainAction::ToggleCasino,
        Key::Char('s') | Key::Char('S') => MainAction::Save,
        Key::Char('a') | Key::Char('A') => MainAction::Ascend,
        _ => MainAction::Nothing,
    }
}

/// `key` types a decimal digit.
pub open spec fn is_digit_key(key: Key) -> bool {
    key matches Key::Char(c) && '0' <= c <= '9'
}

/// The character a character key types.
pub open spec fn digit_of(key: Key) -> char {
    key->Char_0
}

/// The casino menu's response `a` to `key`, taking `before` to `after`.
pub open spec fn menu_transition(before: CasinoState, after: CasinoState, key: Key, a: CasinoAction) -> bool {
    &&& (is_one_of(key, 'q', 'Q') ==> a == CasinoAction::Quit && after == before)
    &&& (is_one_of(key, 'g', 'G') ==> a == CasinoAction::LeaveCasino && after == (
    CasinoState { active_game: None, ..before }))
    &&& (is_one_of(key, 's', 'S') ==> a == CasinoAction::Nothing && after == (
    CasinoState {
        active_game: Some(CasinoGame::SlotMachine),
        last_slot: None,
        ..before
    }))
    &&& (is_one_of(key, 'f', 'F') ==> a == CasinoAction::Nothing && after.wager_input@
        == Seq::<char>::empty() && after == (CasinoState {
        active_game: Some(CasinoGame::CoinFlip),
        last_coin: None,
        wager_input: after.wager_input,
        ..before
    }))
    &&& (is_one_of(key, 'd', 'D') ==> a == CasinoAction::Nothing && after.wager_input@
        == Seq::<char>::empty() && after == (CasinoState {
        active_game: Some(CasinoGame::DiceWager),
        last_dice: None,
        wager_input: after.wager_input,
        dice_guess: 0,
        entering_wager: true,
        entering_dice_guess: false,
        ..before
    }))
    &&& (!(is_one_of(key, 'q', 'Q') || is_one_of(key, 'g', 'G') || is_one_of(key, 's', 'S')
        || is_one_of(key, 'f', 'F') || is_one_of(key, 'd', 'D')) ==> a
        == CasinoAction::Nothing && after == before)
}

/// The slot machine screen's response `a` to `key`, taking `before` to `after`.
pub open spec fn slots_transition(before: CasinoState, after: CasinoState, key: Key, a: CasinoAction) -> bool {
    &&& (is_one_of(key, 'q', 'Q') ==> a == CasinoAction::Quit && after == before)
    &&& (is_one_of(key, 'g', 'G') ==> a == CasinoAction::Nothing && after == (
    CasinoState { active_game: None, ..before }))
    &&& (is_one_of(key, 's', 'S') ==> a == CasinoAction::SpinSlots && after
        == before)
    &&& (!(is_one_of(key, 'q', 'Q') || is_one_of(key, 'g', 'G') || is_one_of(key, 's', 'S'))
        ==> a == CasinoAction::Nothing && after == before)
}

/// The coin flip screen's response `a` to `key`, taking `before` to `after`.
pub open spec fn coinflip_transition(before: CasinoState, after: CasinoState, key: Key, a: CasinoAction) -> bool {
    &&& (is_one_of(key, 'q', 'Q') ==> a == CasinoAction::Quit && after == before)
    &&& (is_one_of(key, 'g', 'G') ==> a == CasinoAction::Nothing && after.wager_input@
        == Seq::<char>::empty() && after == (CasinoState {
        active_game: None,
        wager_input: after.wager_input,
        ..before
    }))
    &&& (is_digit_key(key) ==> a == CasinoAction::Nothing && after.wager_input@ == (
    if before.wager_input@.len() < MAX_WAGER_DIGITS {
        before.wager_input@.push(digit_of(key))
    } else {
        before.wager_input@
    }) && after == (CasinoState {
        wager_input: after.wager_input,
        ..before
    }))
    &&& (key == Key::Backspace ==> a == CasinoAction::Nothing && after.wager_input@ == (
    if before.wager_input@.len() > 0 {
        before.wager_input@.drop_last()
    } else {
        before.wager_input@
    }) && after == (CasinoState {
        wager_input: after.wager_input,
        ..before
    }))
    &&& ((key == Key::Enter || is_one_of(key, 'f', 'F')) ==> after == before && a
        == match spec_parsed_wager(before.wager_input@) {
        Some(w) => if w < COINFLIP_MIN_BET {
            CasinoAction::CoinBetTooSmall
        } else {
            CasinoAction::FlipCoin(w)
        },
        None => CasinoAction::Nothing,
    })
    &&& (!(is_one_of(key, 'q', 'Q') || is_one_of(key, 'g', 'G') || is_digit_key(key) || key
        == Key::Backspace || key == Key::Enter || is_one_of(key, 'f', 'F')) ==> a
        == CasinoAction::Nothing && after == before)
}

/// The dice screen's response `a` to `key`, taking `before` to `after`. While
/// the wager is being entered, digits, Backspace and Enter edit and confirm
/// it; while the guess is being entered, a digit from 1 to 6 sets the guess,
/// Backspace clears it and Enter rolls.
pub open spec fn dice_transition(before: CasinoState, after: CasinoState, key: Key, a: CasinoAction) -> bool {
    &&& (is_one_of(key, 'q', 'Q') ==> a == CasinoAction::Quit && after == before)
    &&& (is_one_of(key, 'g', 'G') ==> a == CasinoAction::Nothing && after.wager_input@
        == Seq::<char>::empty() && after == (CasinoState {
        active_game: None,
        wager_input: after.wager_input,
        dice_guess: 0,
        entering_wager: false,
        entering_dice_guess: false,
        ..before
    }))
    &&& (key == Key::Backspace ==> a == CasinoAction::Nothing && if before.entering_wager {
        &&& after.wager_input@ == if before.wager_input@.len() > 0 {
            before.wager_input@.drop_last()
        } else {
            before.wager_input@
        }
        &&& after == (CasinoState { wager_input: after.wager_input, ..before })
    } else if before.entering_dice_guess {
        after == (CasinoState { dice_guess: 0, ..before })
    } else {
        after == before
    })
    &&& (is_digit_key(key) ==> a == CasinoAction::Nothing && if before.entering_wager {
        &&& after.wager_input@ == if before.wager_input@.len() < MAX_WAGER_DIGITS {
            before.wager_input@.push(digit_of(key))
        } else {
            before.wager_input@
        }
        &&& after == (CasinoState { wager_input: after.wager_input, ..before })
    } else if before.entering_dice_guess && '1' <= digit_of(key) <= '6' {
        after == (CasinoState {
            dice_guess: (digit_of(key) as int - '0' as int) as u8,
            ..before
        })
    } else {
        after == before
    })
    &&& (key == Key::Enter ==> if before.entering_wager {
        &&& a == CasinoAction::Nothing
        &&& after == if spec_parsed_wager(before.wager_input@) is Some {
            CasinoState { entering_wager: false, entering_dice_guess: true, ..before }
        } else {
            before
        }
    } else if before.entering_dice_guess {
        a == CasinoAction::RollDice && after == before
    } else {
        &&& a == CasinoAction::Nothing
        &&& after.wager_input@ == Seq::<char>::empty()
        &&& after == (CasinoState {
            entering_wager: true,
            wager_input: after.wager_input,
            ..before
        })
    })
    &&& (is_one_of(key, 'd', 'D') ==> after == before && a == if before.entering_wager {
        CasinoAction::Nothing
    } else {
        CasinoAction::RollDice
    })
    &&& (!(is_one_of(key, 'q', 'Q') || is_one_of(key, 'g', 'G') || is_digit_key(key) || key
        == Key::Backspace || key == Key::Enter || is_one_of(key, 'd', 'D')) ==> a
        == CasinoAction::Nothing && after == before)
}

/// What a dice roll on the entered wager and guess comes to: the wager and the
/// guess when both are valid and the wager meets the minimum, the first problem
/// otherwise.
pub open spec fn spec_dice_roll_request(s: CasinoState) -> Result<(u64, u8), DiceRefusal> {
    match spec_parsed_wager(s.wager_input@) {
        None => Err(DiceRefusal::NoWager),
        Some(w) => if s.dice_guess < 1 || s.dice_guess > 6 {
            Err(DiceRefusal::NoGuess)
        } else if w < DICE_MIN_BET {
            Err(DiceRefusal::BelowMinimum)
        } else {
            Ok((w, s.dice_guess))
        },
    }
}

/// The response `a` of the open casino screen to `key`, taking `before` to
/// `after`: the menu when no game is open, otherwise the game's own screen;
/// the roulette and blackjack screens take no keys.
pub open spec fn casino_key_transition(before: CasinoState, after: CasinoState, key: Key, a: CasinoAction) -> bool {
    match before.active_game {
        None => menu_transition(before, after, key, a),
        Some(CasinoGame::SlotMachine) => slots_transition(before, after, key, a),
        Some(CasinoGame::CoinFlip) => coinflip_transition(before, after, key, a),
        Some(CasinoGame::DiceWager) => dice_transition(before, after, key, a),
        _ => a == CasinoAction::Nothing && after == before,
    }
}

impl CasinoState {
    /// The casino menu: Q quits, G leaves the casino, S, F and D open the slot
    /// machine, the coin flip and the dice wager.
    pub fn menu_key(&mut self, key: Key) -> (a: CasinoAction)
        ensures
            menu_transition(*old(self), *final(self), key, a),
    {
        match key {
            Key::Char('q') | Key::Char('Q') => CasinoAction::Quit,
            Key::Char('g') | Key::Char('G') => {
                self.active_game = None;
                CasinoAction::LeaveCasino
            },
            Key::Char('s') | Key::Char('S') => {
                self.active_game = Some(CasinoGame::SlotMachine);
                self.last_slot = None;
                CasinoAction::Nothing
            },
            Key::Char('f') | Key::Char('F') => {
                self.active_game = Some(CasinoGame::CoinFlip);
                self.wager_input.clear();
                self.last_coin = None;
                CasinoAction::Nothing
            },
            Key::Char('d') | Key::Char('D') => {
                self.active_game = Some(CasinoGame::DiceWager);
                self.wager_input.clear();
                self.dice_guess = 0;
                self.entering_wager = true;
                self.entering_dice_guess = false;
                self.last_dice = None;
                CasinoAction::Nothing
            },
            _ => CasinoAction::Nothing,
        }
    }

    /// The slot machine: Q quits, G returns to the menu, S spins.
    pub fn slots_key(&mut self, key: Key) -> (a: CasinoAction)
        ensures
            slots_transition(*old(self), *final(self), key, a),
    {
        match key {
            Key::Char('q') | Key::Char('Q') => CasinoAction::Quit,
            Key::Char('g') | Key::Char('G') => {
                self.active_game = None;
                CasinoAction::Nothing
            },
            Key::Char('s') | Key::Char('S') => CasinoAction::SpinSlots,
            _ => CasinoAction::Nothing,
        }
    }

    /// The coin flip: Q quits, G returns to the menu, digits and Backspace edit
    /// the wager, Enter or F flips on a valid wager of at least the minimum.
    pub fn coinflip_key(&mut self, key: Key) -> (a: CasinoAction)
        ensures
            coinflip_transition(*old(self), *final(self), key, a),
            a matches CasinoAction::FlipCoin(w) ==> COINFLIP_MIN_BET <= w <= MAX_WAGER,
    {
        match key {
            Key::Char('q') | Key::Char('Q') => CasinoAction::Quit,
            Key::Char('g') | Key::Char('G') => {
                self.active_game = None;
                self.wager_input.clear();
                CasinoAction::Nothing
            },
            Key::Char(c) if '0' <= c && c <= '9' => {
                self.wager_input.push_digit(c);
                CasinoAction::Nothing
            },
            Key::Backspace => {
                self.wager_input.pop_digit();
                CasinoAction::Nothing
            },
            Key::Enter | Key::Char('f') | Key::Char('F') => match self.parsed_wager() {
                Some(w) => {
                    if w < COINFLIP_MIN_BET {
                        CasinoAction::CoinBetTooSmall
                    } else {
                        CasinoAction::FlipCoin(w)
                    }
                },
                None => CasinoAction::Nothing,
            },
            _ => CasinoAction::Nothing,
        }
    }
    /// The dice screen: Q quits, G returns to the menu; see `dice_transition`.
    pub fn dice_key(&mut self, key: Key) -> (a: CasinoAction)
        ensures
            dice_transition(*old(self), *final(self), key, a),
    {
        match key {
            Key::Char('q') | Key::Char('Q') => CasinoAction::Quit,
            Key::Char('g') | Key::Char('G') => {
                self.active_game = None;
                self.wager_input.clear();
                self.dice_guess = 0;
                self.entering_wager = false;
                self.entering_dice_guess = false;
                CasinoAction::Nothing
            },
            Key::Backspace => {
                if self.entering_wager {
                    self.wager_input.pop_digit();
                } else if self.entering_dice_guess {
                    self.dice_guess = 0;
                }
                CasinoAction::Nothing
            },
            Key::Char(c) if '0' <= c && c <= '9' => {
                if self.entering_wager {
                    self.wager_input.push_digit(c);
                } else if self.entering_dice_guess {
                    let d = (c as u32 - '0' as u32) as u8;
                    if d >= 1 && d <= 6 {
                        self.dice_guess = d;
                    }
                }
                CasinoAction::Nothing
            },
            Key::Enter => {
                if self.entering_wager {
                    if self.parsed_wager().is_some() {
                        self.entering_wager = false;
                        self.entering_dice_guess = true;
                    }
                    CasinoAction::Nothing
                } else if self.entering_dice_guess {
                    CasinoAction::RollDice
                } else {
                    self.entering_wager = true;
                    self.wager_input.clear();
                    CasinoAction::Nothing
                }
            },
            Key::Char('d') | Key::Char('D') => {
                if !self.entering_wager {
                    CasinoAction::RollDice
                } else {
                    CasinoAction::Nothing
                }
            },
            _ => CasinoAction::Nothing,
        }
    }

    /// Routes a key to the open casino screen: the menu when no game is open,
    /// otherwise the game's own screen. The roulette and blackjack screens take
    /// no keys.
    pub fn handle_key(&mut self, key: Key) -> (a: CasinoAction)
        ensures
            casino_key_transition(*old(self), *final(self), key, a),
            a matches CasinoAction::FlipCoin(w) ==> COINFLIP_MIN_BET <= w <= MAX_WAGER,
    {
        match self.active_game {
            None => self.menu_key(key),
            Some(CasinoGame::SlotMachine) => self.slots_key(key),
            Some(CasinoGame::CoinFlip) => self.coinflip_key(key),
            Some(CasinoGame::DiceWager) => self.dice_key(key),
            _ => CasinoAction::Nothing,
        }
    }

    /// Checks that a dice roll can go ahead on the entered wager and guess.
    pub fn dice_roll_request(&self) -> (r: Result<(u64, u8), DiceRefusal>)
        ensures
            r == spec_dice_roll_request(*self),
            r matches Ok((w, g)) ==> DICE_MIN_BET <= w <= MAX_WAGER && 1 <= g <= 6,
    {
        let wager = match self.parsed_wager() {
            Some(w) => w,
            None => return Err(DiceRefusal::NoWager),
        };
        let guess = self.dice_guess;
        if guess < 1 || guess > 6 {
            return Err(DiceRefusal::NoGuess);
        }
        if wager < DICE_MIN_BET {
            return Err(DiceRefusal::BelowMinimum);
        }
        Ok((wager, guess))
    }

    /// After a roll has been paid for, the screen returns to entering a new
    /// wager: the buffer and the guess are cleared.
    pub fn finish_dice_roll(&mut self)
        ensures
            final(self).wager_input@ == Seq::<char>::empty(),
            *final(self) == (CasinoState {
                wager_input: final(self).wager_input,
                dice_guess: 0,
                entering_wager: true,
                entering_dice_guess: false,
                ..*old(self)
            }),
    {
        self.wager_input.clear();
        self.dice_guess = 0;
        self.entering_wager = true;
        self.entering_dice_guess = false;
    }

    /// After a coin flip has been paid for, the wager buffer is cleared.
    pub fn finish_coin_flip(&mut self)
        ensures
            final(self).wager_input@ == Seq::<char>::empty(),
            *final(self) == (CasinoState { wager_input: final(self).wager_input, ..*old(self) }),
    {
        self.wager_input.clear();
    }
}

/// The main screen's keys: 1 to 4 buy the building at index digit - 1 (the
/// Cursor, Grandma, Farm and Mine), other digits do nothing; Q quits, space
/// and Enter mine, G opens the casino, S saves and A ascends, in either case.
pub proof fn lemma_main_keys(d: char)
    ensures
        '1' <= d <= '4' ==> spec_main_action(Key::Char(d)) == MainAction::BuyBuilding(
            (d as int - '1' as int) as usize,
        ),
        ('5' <= d <= '9' || d == '0') ==> spec_main_action(Key::Char(d)) == MainAction::Nothing,
        spec_main_action(Key::Char('4')) == MainAction::BuyBuilding(3),
        spec_main_action(Key::Char('q')) == MainAction::Quit,
        spec_main_action(Key::Char('Q')) == MainAction::Quit,
        spec_main_action(Key::Char(' ')) == MainAction::Mine,
        spec_main_action(Key::Enter) == MainAction::Mine,
        spec_main_action(Key::Char('g')) == MainAction::ToggleCasino,
        spec_main_action(Key::Char('G')) == MainAction::ToggleCasino,
        spec_main_action(Key::Char('s')) == MainAction::Save,
        spec_main_action(Key::Char('S')) == MainAction::Save,
        spec_main_action(Key::Char('a')) == MainAction::Ascend,
        spec_main_action(Key::Char('A')) == MainAction::Ascend,
        spec_main_action(Key::Backspace) == MainAction::Nothing,
{
}

/// A dice roll goes ahead exactly on a valid wager of at least 10 cookies and
/// a guess from 1 to 6, with that wager and guess; otherwise the first problem
/// is reported: no wager, then a guess outside 1 to 6, then a wager below 10.
pub proof fn lemma_dice_request_rules(s: CasinoState)
    ensures
        DICE_MIN_BET == 10,
        spec_parsed_wager(s.wager_input@) is None ==> spec_dice_roll_request(s) == Err::<
            (u64, u8),
            DiceRefusal,
        >(DiceRefusal::NoWager),
        spec_parsed_wager(s.wager_input@) matches Some(w) ==> {
            &&& (1 <= s.dice_guess <= 6 && w >= 10) ==> spec_dice_roll_request(s) == Ok::<
                (u64, u8),
                DiceRefusal,
            >((w, s.dice_guess))
            &&& !(1 <= s.dice_guess <= 6) ==> spec_dice_roll_request(s) == Err::<
                (u64, u8),
                DiceRefusal,
            >(DiceRefusal::NoGuess)
            &&& (1 <= s.dice_guess <= 6 && w < 10) ==> spec_dice_roll_request(s) == Err::<
                (u64, u8),
                DiceRefusal,
            >(DiceRefusal::BelowMinimum)
        },
        spec_dice_roll_request(s) is Ok <==> (spec_parsed_wager(s.wager_input@) is Some && 1
            <= s.dice_guess <= 6 && spec_parsed_wager(s.wager_input@)->0 >= 10),
{
}

/// The casino menu: S, F and D open the slot machine, the coin flip and the
/// dice wager (the last two with an empty wager), G leaves the casino and Q
/// quits, in either case.
pub proof fn lemma_casino_menu_keys(before: CasinoState, after: CasinoState, key: Key, a: CasinoAction)
    requires
        menu_transition(before, after, key, a),
    ensures
        (key == Key::Char('s') || key == Key::Char('S')) ==> after.active_game == Some(
            CasinoGame::SlotMachine,
        ) && a == CasinoAction::Nothing,
        (key == Key::Char('f') || key == Key::Char('F')) ==> after.active_game == Some(
            CasinoGame::CoinFlip,
        ) && after.wager_input@.len() == 0,
        (key == Key::Char('d') || key == Key::Char('D')) ==> after.active_game == Some(
            CasinoGame::DiceWager,
        ) && after.wager_input@.len() == 0 && after.entering_wager && after.dice_guess == 0,
        (key == Key::Char('g') || key == Key::Char('G')) ==> after.active_game is None && a
            == CasinoAction::LeaveCasino,
        (key == Key::Char('q') || key == Key::Char('Q')) ==> a == CasinoAction::Quit,
{
}

/// On the coin flip screen, Enter or F with a wager of at least 10 cookies
/// flips for that wager, a smaller wager is refused as too small, and an empty
/// buffer does nothing; a digit is typed while fewer than twelve are there.
pub proof fn lemma_coin_flip_keys(before: CasinoState, after: CasinoState, key: Key, a: CasinoAction)
    requires
        coinflip_transition(before, after, key, a),
    ensures
        COINFLIP_MIN_BET == 10,
        (key == Key::Enter || key == Key::Char('f') || key == Key::Char('F')) && spec_parsed_wager(
            before.wager_input@,
        ) is Some && spec_parsed_wager(before.wager_input@)->0 >= 10 ==> a == CasinoAction::FlipCoin(
            spec_parsed_wager(before.wager_input@)->0,
        ),
        (key == Key::Enter || key == Key::Char('f') || key == Key::Char('F')) && spec_parsed_wager(
            before.wager_input@,
        ) is Some && spec_parsed_wager(before.wager_input@)->0 < 10 ==> a
            == CasinoAction::CoinBetTooSmall,
        (key == Key::Enter || key == Key::Char('f') || key == Key::Char('F')) && spec_parsed_wager(
            before.wager_input@,
        ) is None ==> a == CasinoAction::Nothing,
        is_digit_key(key) && before.wager_input@.len() < 12 ==> after.wager_input@
            == before.wager_input@.push(digit_of(key)),
        is_digit_key(key) && before.wager_input@.len() >= 12 ==> after.wager_input@
            == before.wager_input@,
{
}

} // verus!
