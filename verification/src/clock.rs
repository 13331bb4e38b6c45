//! The game's tick counters: autosave, animation, the golden cookie and frenzy.

use crate::rng::{draw_ratio, draw_u32};
use rand::rngs::SmallRng;
use vstd::prelude::*;

verus! {

/// Duration of frenzy mode in ticks (120 ticks of a quarter second: 30 seconds).
pub const FRENZY_DURATION_TICKS: u32 = 120;

/// CPS multiplier while a frenzy lasts.
pub const FRENZY_MULTIPLIER: u32 = 7;

/// Ticks a golden cookie stays collectable (15 seconds).
pub const GOLDEN_COLLECT_WINDOW: u32 = 60;

/// Ticks before the first golden cookie, and after an ascension (about 25 seconds).
pub const GOLDEN_FIRST_COOLDOWN: u32 = 100;

/// Ticks before the next golden cookie once one has been collected (100 seconds).
pub const GOLDEN_COLLECTED_COOLDOWN: u32 = 400;

/// Shortest random wait before the next golden cookie once one has vanished
/// uncollected (75 seconds).
pub const GOLDEN_MISSED_COOLDOWN_MIN: u32 = 300;

/// Longest such wait (200 seconds).
pub const GOLDEN_MISSED_COOLDOWN_MAX: u32 = 800;

/// Ticks between autosaves (60 seconds).
pub const AUTOSAVE_TICKS: u32 = 240;

/// Frames of click feedback after a manual click.
pub const CLICK_ANIMATION_FRAMES: u32 = 3;

/// What a golden cookie gives when it is collected.
#[derive(Debug, Clone, Copy, PartialEq, Eq, Structural)]
pub enum GoldenEffect {
    /// A lump of bonus cookies.
    BonusCookies,
    /// Frenzy mode: seven times the CPS for thirty seconds.
    Frenzy,
}

/// What happened to the golden cookie during a tick.
#[derive(Debug, Clone, Copy, PartialEq, Eq, Structural)]
pub enum GoldenEvent {
    Quiet,
    /// The collection window ran out before the cookie was collected.
    Vanished,
    /// A new golden cookie appeared with this effect.
    Appeared(GoldenEffect),
}

/// What a tick reports, in the order the game logs it.
#[derive(Debug, Clone, Copy, PartialEq, Eq, Structural)]
pub struct TickEvents {
    pub frenzy_ended: bool,
    pub golden: GoldenEvent,
}

/// The counters a tick advances.
#[derive(Debug, Clone, Copy, PartialEq, Eq, Structural)]
pub struct GameClock {
    /// Ticks since last autosave.
    pub ticks_since_save: u32,
    /// Monotonically increasing (wrapping) tick counter for UI animations.
    pub animation_tick: u32,
    /// Counts down after each click for visual feedback.
    pub click_animation: u32,
    /// Ticks remaining in the golden cookie collection window (0 = none active).
    pub golden_collect_window: u32,
    /// Ticks to wait before the next golden cookie can spawn.
    pub golden_spawn_cooldown: u32,
    /// Whether the golden cookie on screen gives bonus cookies (otherwise frenzy).
    pub golden_gives_bonus: bool,
    /// Ticks remaining in frenzy mode (0 = not active).
    pub frenzy_ticks: u32,
    /// CPS multiplier of frenzy mode: 7 during a frenzy, 1 otherwise.
    pub frenzy_multiplier: u32,
}

/// `x - 1` for a positive `x`, otherwise `x`.
pub open spec fn count_down(x: u32) -> u32 {
    if x > 0 {
        (x - 1) as u32
    } else {
        x
    }
}

impl GameClock {
    /// The frenzy multiplier is 7 exactly while frenzy ticks remain.
    pub open spec fn wf(self) -> bool {
        self.frenzy_multiplier == if self.frenzy_ticks > 0 {
            FRENZY_MULTIPLIER
        } else {
            1
        }
    }

    /// The clock after one tick, given the wait drawn for the next golden cookie
    /// (used only when one vanishes) and whether a new golden cookie gives
    /// bonus cookies (used only when one appears).
    pub open spec fn spec_tick(self, missed_cooldown: u32, gives_bonus: bool) -> (GameClock, TickEvents) {
        let frenzy_ticks = count_down(self.frenzy_ticks);
        let frenzy_ended = self.frenzy_ticks == 1;
        let base = GameClock {
            ticks_since_save: (self.ticks_since_save + 1) as u32,
            animation_tick: if self.animation_tick == u32::MAX {
                0
            } else {
                (self.animation_tick + 1) as u32
            },
            click_animation: count_down(self.click_animation),
            frenzy_ticks,
            frenzy_multiplier: if frenzy_ended {
                1
            } else {
                self.frenzy_multiplier
            },
            ..self
        };
        if self.golden_collect_window > 0 {
            if self.golden_collect_window == 1 {
                (
                    GameClock {
                        golden_collect_window: 0,
                        golden_spawn_cooldown: missed_cooldown,
                        ..base
                    },
                    TickEvents { frenzy_ended, golden: GoldenEvent::Vanished },
                )
            } else {
                (
                    GameClock {
                        golden_collect_window: (self.golden_collect_window - 1) as u32,
                        ..base
                    },
                    TickEvents { frenzy_ended, golden: GoldenEvent::Quiet },
                )
            }
        } else if self.golden_spawn_cooldown > 0 {
            (
                GameClock { golden_spawn_cooldown: (self.golden_spawn_cooldown - 1) as u32, ..base },
                TickEvents { frenzy_ended, golden: GoldenEvent::Quiet },
            )
        } else {
            (
                GameClock {
                    golden_collect_window: GOLDEN_COLLECT_WINDOW,
                    golden_gives_bonus: gives_bonus,
                    ..base
                },
                TickEvents {
                    frenzy_ended,
                    golden: GoldenEvent::Appeared(
                        if gives_bonus {
                            GoldenEffect::BonusCookies
                        } else {
                            GoldenEffect::Frenzy
                        },
                    ),
                },
            )
        }
    }

    /// The clock after collecting the golden cookie on screen, and what the
    /// cookie gives; unchanged with nothing when no golden cookie is on screen.
    pub open spec fn spec_collect(self) -> (GameClock, Option<GoldenEffect>) {
        if self.golden_collect_window == 0 {
            (self, None)
        } else if self.golden_gives_bonus {
            (
                GameClock {
                    golden_collect_window: 0,
                    golden_spawn_cooldown: GOLDEN_COLLECTED_COOLDOWN,
                    ..self
                },
                Some(GoldenEffect::BonusCookies),
            )
        } else {
            (
                GameClock {
                    golden_collect_window: 0,
                    golden_spawn_cooldown: GOLDEN_COLLECTED_COOLDOWN,
                    frenzy_ticks: FRENZY_DURATION_TICKS,
                    frenzy_multiplier: FRENZY_MULTIPLIER,
                    ..self
                },
                Some(GoldenEffect::Frenzy),
            )
        }
    }

    /// The clock after ticking once for each pair of draws in `draws`.
    pub open spec fn run_ticks(self, draws: Seq<(u32, bool)>) -> GameClock
        decreases draws.len(),
    {
        if draws.len() == 0 {
            self
        } else {
            self.spec_tick(draws[0].0, draws[0].1).0.run_ticks(draws.drop_first())
        }
    }

    /// The clock of a new game: the first golden cookie comes after
    /// `GOLDEN_FIRST_COOLDOWN` ticks and no frenzy is running.
    pub fn new() -> (c: GameClock)
        ensures
            c == (GameClock {
                ticks_since_save: 0,
                animation_tick: 0,
                click_animation: 0,
                golden_collect_window: 0,
                golden_spawn_cooldown: GOLDEN_FIRST_COOLDOWN,
                golden_gives_bonus: false,
                frenzy_ticks: 0,
                frenzy_multiplier: 1,
            }),
            c.wf(),
    {
        GameClock {
            ticks_since_save: 0,
            animation_tick: 0,
            click_animation: 0,
            golden_collect_window: 0,
            golden_spawn_cooldown: GOLDEN_FIRST_COOLDOWN,
            golden_gives_bonus: false,
            frenzy_ticks: 0,
            frenzy_multiplier: 1,
        }
    }

    /// Advance the counters by one tick with the given draws (see `spec_tick`).
    pub fn tick_with(&mut self, missed_cooldown: u32, gives_bonus: bool) -> (e: TickEvents)
        requires
            old(self).ticks_since_save < u32::MAX,
        ensures
            (*final(self), e) == old(self).spec_tick(missed_cooldown, gives_bonus),
            old(self).wf() ==> final(self).wf(),
    {
        self.ticks_since_save = self.ticks_since_save + 1;
        self.animation_tick = self.animation_tick.wrapping_add(1);
        if self.click_animation > 0 {
            self.click_animation = self.click_animation - 1;
        }
        let mut frenzy_ended = false;
        if self.frenzy_ticks > 0 {
            self.frenzy_ticks = self.frenzy_ticks - 1;
            if self.frenzy_ticks == 0 {
                self.frenzy_multiplier = 1;
                frenzy_ended = true;
            }
        }
        let golden = if self.golden_collect_window > 0 {
            self.golden_collect_window = self.golden_collect_window - 1;
            if self.golden_collect_window == 0 {
                self.golden_spawn_cooldown = missed_cooldown;
                GoldenEvent::Vanished
            } else {
                GoldenEvent::Quiet
            }
        } else if self.golden_spawn_cooldown > 0 {
            self.golden_spawn_cooldown = self.golden_spawn_cooldown - 1;
            GoldenEvent::Quiet
        } else {
            self.golden_gives_bonus = gives_bonus;
            self.golden_collect_window = GOLDEN_COLLECT_WINDOW;
            if gives_bonus {
                GoldenEvent::Appeared(GoldenEffect::BonusCookies)
            } else {
                GoldenEvent::Appeared(GoldenEffect::Frenzy)
            }
        };
        TickEvents { frenzy_ended, golden }
    }

    /// Advance the counters by one tick (called every ~250 ms). A vanishing
    /// golden cookie draws the wait for the next one, from 300 to 800 ticks; an
    /// appearing one draws its effect, bonus cookies or frenzy with even odds.
    pub fn tick(&mut self, rng: &mut SmallRng) -> (e: TickEvents)
        requires
            old(self).ticks_since_save < u32::MAX,
        ensures
            exists|missed_cooldown: u32, gives_bonus: bool|
                GOLDEN_MISSED_COOLDOWN_MIN <= missed_cooldown <= GOLDEN_MISSED_COOLDOWN_MAX && (
                *final(self), e) == #[trigger] old(self).spec_tick(missed_cooldown, gives_bonus),
    {
        let missed_cooldown = if self.golden_collect_window == 1 {
            draw_u32(rng, GOLDEN_MISSED_COOLDOWN_MIN, GOLDEN_MISSED_COOLDOWN_MAX)
        } else {
            GOLDEN_MISSED_COOLDOWN_MIN
        };
        let gives_bonus = if self.golden_collect_window == 0 && self.golden_spawn_cooldown == 0 {
            draw_ratio(rng, 1, 2)
        } else {
            false
        };
        self.tick_with(missed_cooldown, gives_bonus)
    }

    /// Player clicked: start the click feedback animation.
    pub fn register_click(&mut self)
        ensures
            *final(self) == (GameClock { click_animation: CLICK_ANIMATION_FRAMES, ..*old(self) }),
    {
        self.click_animation = CLICK_ANIMATION_FRAMES;
    }

    /// Collect the golden cookie on screen, if any: it leaves the screen, the
    /// next one comes after `GOLDEN_COLLECTED_COOLDOWN` ticks, and a frenzy
    /// cookie starts (or restarts) a frenzy. Returns what the cookie gives.
    pub fn collect_golden_cookie(&mut self) -> (effect: Option<GoldenEffect>)
        ensures
            (*final(self), effect) == old(self).spec_collect(),
            old(self).wf() ==> final(self).wf(),
    {
        if self.golden_collect_window > 0 {
            self.golden_collect_window = 0;
            self.golden_spawn_cooldown = GOLDEN_COLLECTED_COOLDOWN;
            if self.golden_gives_bonus {
                Some(GoldenEffect::BonusCookies)
            } else {
                self.frenzy_multiplier = FRENZY_MULTIPLIER;
                self.frenzy_ticks = FRENZY_DURATION_TICKS;
                Some(GoldenEffect::Frenzy)
            }
        } else {
            None
        }
    }

    /// Ascension ends any golden cookie and frenzy and restarts the wait for
    /// the first golden cookie.
    pub fn reset_for_ascension(&mut self)
        ensures
            *final(self) == (GameClock {
                golden_collect_window: 0,
                golden_spawn_cooldown: GOLDEN_FIRST_COOLDOWN,
                frenzy_ticks: 0,
                frenzy_multiplier: 1,
                ..*old(self)
            }),
            final(self).wf(),
    {
        self.golden_collect_window = 0;
        self.golden_spawn_cooldown = GOLDEN_FIRST_COOLDOWN;
        self.frenzy_ticks = 0;
        self.frenzy_multiplier = 1;
    }

    /// Whether an autosave is due.
    pub fn autosave_due(&self) -> (due: bool)
        ensures
            due == (self.ticks_since_save >= AUTOSAVE_TICKS),
    {
        self.ticks_since_save >= AUTOSAVE_TICKS
    }

    /// The game was saved: restart the autosave count.
    pub fn mark_saved(&mut self)
        ensures
            *final(self) == (GameClock { ticks_since_save: 0, ..*old(self) }),
    {
        self.ticks_since_save = 0;
    }
}

/// Every tick keeps the frenzy multiplier at 7 exactly while frenzy ticks remain.
pub proof fn lemma_tick_keeps_frenzy_consistent(c: GameClock, missed_cooldown: u32, gives_bonus: bool)
    requires
        c.wf(),
    ensures
        c.spec_tick(missed_cooldown, gives_bonus).0.wf(),
        c.spec_collect().0.wf(),
{
}

/// A running frenzy of `k` ticks keeps the sevenfold multiplier for its first
/// `k - 1` ticks and ends on tick `k`, whatever the draws: after `n <= k` ticks
/// `k - n` frenzy ticks remain, and the multiplier is back to 1 exactly when
/// none remain.
pub proof fn lemma_frenzy_runs_out(c: GameClock, draws: Seq<(u32, bool)>)
    requires
        c.wf(),
        draws.len() <= c.frenzy_ticks,
    ensures
        c.run_ticks(draws).frenzy_ticks == c.frenzy_ticks - draws.len(),
        c.run_ticks(draws).frenzy_multiplier == if draws.len() < c.frenzy_ticks {
            FRENZY_MULTIPLIER
        } else {
            1
        },
    decreases draws.len(),
{
    if draws.len() > 0 {
        let next = c.spec_tick(draws[0].0, draws[0].1).0;
        lemma_tick_keeps_frenzy_consistent(c, draws[0].0, draws[0].1);
        lemma_frenzy_runs_out(next, draws.drop_first());
    }
}

/// Collecting a frenzy golden cookie gives exactly `FRENZY_DURATION_TICKS`
/// ticks of sevenfold production: the frenzy is still on after 119 ticks and
/// over after 120.
pub proof fn lemma_frenzy_lasts_thirty_seconds(c: GameClock, draws: Seq<(u32, bool)>)
    requires
        c.golden_collect_window > 0,
        !c.golden_gives_bonus,
        draws.len() <= FRENZY_DURATION_TICKS,
    ensures
        FRENZY_DURATION_TICKS == 120 && FRENZY_MULTIPLIER == 7,
        c.spec_collect().1 == Some(GoldenEffect::Frenzy),
        c.spec_collect().0.run_ticks(draws).frenzy_multiplier == if draws.len()
            < FRENZY_DURATION_TICKS {
            FRENZY_MULTIPLIER
        } else {
            1
        },
{
    lemma_frenzy_runs_out(c.spec_collect().0, draws);
}

/// A golden cookie can be collected once: collecting again right after finds
/// nothing and changes nothing.
pub proof fn lemma_golden_cookie_collected_once(c: GameClock)
    ensures
        c.spec_collect().0.spec_collect() == (c.spec_collect().0, None::<GoldenEffect>),
{
}

/// An uncollected golden cookie stays on screen for exactly its window: it is
/// still there after fewer ticks than the window has left, and the tick that
/// uses up the window reports it vanished.
pub proof fn lemma_golden_window_runs_out(c: GameClock, draws: Seq<(u32, bool)>)
    requires
        draws.len() < c.golden_collect_window,
    ensures
        c.run_ticks(draws).golden_collect_window == c.golden_collect_window - draws.len(),
        c.golden_collect_window - draws.len() == 1 ==> forall|mc: u32, gb: bool|
            (#[trigger] c.run_ticks(draws).spec_tick(mc, gb)).1.golden == GoldenEvent::Vanished,
    decreases draws.len(),
{
    if draws.len() > 0 {
        let next = c.spec_tick(draws[0].0, draws[0].1).0;
        lemma_golden_window_runs_out(next, draws.drop_first());
    }
}

/// With no golden cookie on screen, the next one appears right after the
/// wait runs out: the wait counts down one per tick with nothing on screen,
/// and the tick after it reaches zero brings a cookie whose effect is the one
/// drawn. A new game waits `GOLDEN_FIRST_COOLDOWN` ticks, about 25 seconds.
pub proof fn lemma_golden_cookie_appears_after_wait(c: GameClock, draws: Seq<(u32, bool)>)
    requires
        c.golden_collect_window == 0,
        draws.len() <= c.golden_spawn_cooldown,
    ensures
        GOLDEN_FIRST_COOLDOWN == 100,
        c.run_ticks(draws).golden_collect_window == 0,
        c.run_ticks(draws).golden_spawn_cooldown == c.golden_spawn_cooldown - draws.len(),
        draws.len() == c.golden_spawn_cooldown ==> forall|mc: u32, gb: bool|
            (#[trigger] c.run_ticks(draws).spec_tick(mc, gb)).1.golden == GoldenEvent::Appeared(
                if gb {
                    GoldenEffect::BonusCookies
                } else {
                    GoldenEffect::Frenzy
                },
            ),
    decreases draws.len(),
{
    if draws.len() > 0 {
        let next = c.spec_tick(draws[0].0, draws[0].1).0;
        lemma_golden_cookie_appears_after_wait(next, draws.drop_first());
    }
}

/// Autosave comes round once a minute: counting from a save, the save falls
/// due on the `AUTOSAVE_TICKS`-th tick (240 ticks of 250 ms) and not before.
pub proof fn lemma_autosave_every_minute(c: GameClock, draws: Seq<(u32, bool)>)
    requires
        c.ticks_since_save == 0,
        draws.len() <= AUTOSAVE_TICKS,
    ensures
        AUTOSAVE_TICKS == 240,
        c.run_ticks(draws).ticks_since_save == draws.len(),
        (c.run_ticks(draws).ticks_since_save >= AUTOSAVE_TICKS) <==> draws.len() == AUTOSAVE_TICKS,
{
    lemma_save_count_grows(c, draws);
}

proof fn lemma_save_count_grows(c: GameClock, draws: Seq<(u32, bool)>)
    requires
        c.ticks_since_save + draws.len() <= u32::MAX,
    ensures
        c.run_ticks(draws).ticks_since_save == c.ticks_since_save + draws.len(),
    decreases draws.len(),
{
    if draws.len() > 0 {
        let next = c.spec_tick(draws[0].0, draws[0].1).0;
        lemma_save_count_grows(next, draws.drop_first());
    }
}

/// What one tick does to the frenzy and the golden cookie, given the wait
/// drawn for the next cookie and the effect drawn for a new one:
/// a running frenzy loses a tick and, on its last, the multiplier drops to 1;
/// a golden cookie on screen loses a tick of its window and, when the window
/// runs out, the wait for the next one is the one drawn; with nothing on
/// screen the wait counts down; once it is over a cookie appears with a
/// window of `GOLDEN_COLLECT_WINDOW` ticks and the effect drawn. `tick`
/// draws the wait from 300 to 800 ticks.
pub proof fn lemma_one_tick(c: GameClock, missed_cooldown: u32, gives_bonus: bool)
    ensures
        GOLDEN_COLLECT_WINDOW == 60 && GOLDEN_COLLECTED_COOLDOWN == 400,
        GOLDEN_MISSED_COOLDOWN_MIN == 300 && GOLDEN_MISSED_COOLDOWN_MAX == 800,
        ({
            let (n, e) = c.spec_tick(missed_cooldown, gives_bonus);
            &&& c.frenzy_ticks > 0 ==> n.frenzy_ticks == c.frenzy_ticks - 1
            &&& c.frenzy_ticks == 1 ==> n.frenzy_multiplier == 1 && e.frenzy_ended
            &&& c.frenzy_ticks == 0 ==> n.frenzy_ticks == 0 && !e.frenzy_ended
            &&& c.golden_collect_window > 0 ==> n.golden_collect_window == c.golden_collect_window
                - 1
            &&& c.golden_collect_window == 1 ==> n.golden_spawn_cooldown == missed_cooldown
                && e.golden == GoldenEvent::Vanished
            &&& (c.golden_collect_window == 0 && c.golden_spawn_cooldown > 0) ==> (
            n.golden_spawn_cooldown == c.golden_spawn_cooldown - 1 && n.golden_collect_window == 0
                && e.golden == GoldenEvent::Quiet)
            &&& (c.golden_collect_window == 0 && c.golden_spawn_cooldown == 0) ==> (
            n.golden_collect_window == GOLDEN_COLLECT_WINDOW && n.golden_gives_bonus == gives_bonus
                && e.golden == GoldenEvent::Appeared(
                if gives_bonus {
                    GoldenEffect::BonusCookies
                } else {
                    GoldenEffect::Frenzy
                },
            ))
        }),
{
}

} // verus!
