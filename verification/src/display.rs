//! Glyphs the screens draw: dice faces, building icons and log colours.

use crate::text::{is_substring, lowercase, str_contains, to_lowercase};
use vstd::prelude::*;

verus! {

/// The die glyph of a face from 1 to 6, `?` for anything else.
pub open spec fn spec_die_glyph(n: u8) -> Seq<char> {
    if n == 1 {
        "\u{2680}"@
    } else if n == 2 {
        "\u{2681}"@
    } else if n == 3 {
        "\u{2682}"@
    } else if n == 4 {
        "\u{2683}"@
    } else if n == 5 {
        "\u{2684}"@
    } else if n == 6 {
        "\u{2685}"@
    } else {
        "?"@
    }
}

/// The die glyph of a face from 1 to 6, `?` for anything else.
pub fn die_ascii(n: u8) -> (s: &'static str)
    ensures
        s@ == spec_die_glyph(n),
{
    match n {
        1 => "\u{2680}",
        2 => "\u{2681}",
        3 => "\u{2682}",
        4 => "\u{2683}",
        5 => "\u{2684}",
        6 => "\u{2685}",
        _ => "?",
    }
}

/// The five rows of the box-drawn die face `n` (a question mark for a
/// value outside 1 to 6).
pub open spec fn spec_die_face(n: u8) -> Seq<Seq<char>> {
    if n == 1 {
        seq!["\u{250c}\u{2500}\u{2500}\u{2500}\u{2500}\u{2500}\u{2510}"@, "\u{2502}     \u{2502}"@, "\u{2502}  \u{25cf}  \u{2502}"@, "\u{2502}     \u{2502}"@, "\u{2514}\u{2500}\u{2500}\u{2500}\u{2500}\u{2500}\u{2518}"@]
    } else if n == 2 {
        seq!["\u{250c}\u{2500}\u{2500}\u{2500}\u{2500}\u{2500}\u{2510}"@, "\u{2502} \u{25cf}   \u{2502}"@, "\u{2502}     \u{2502}"@, "\u{2502}   \u{25cf} \u{2502}"@, "\u{2514}\u{2500}\u{2500}\u{2500}\u{2500}\u{2500}\u{2518}"@]
    } else if n == 3 {
        seq!["\u{250c}\u{2500}\u{2500}\u{2500}\u{2500}\u{2500}\u{2510}"@, "\u{2502} \u{25cf}   \u{2502}"@, "\u{2502}  \u{25cf}  \u{2502}"@, "\u{2502}   \u{25cf} \u{2502}"@, "\u{2514}\u{2500}\u{2500}\u{2500}\u{2500}\u{2500}\u{2518}"@]
    } else if n == 4 {
        seq!["\u{250c}\u{2500}\u{2500}\u{2500}\u{2500}\u{2500}\u{2510}"@, "\u{2502} \u{25cf} \u{25cf} \u{2502}"@, "\u{2502}     \u{2502}"@, "\u{2502} \u{25cf} \u{25cf} \u{2502}"@, "\u{2514}\u{2500}\u{2500}\u{2500}\u{2500}\u{2500}\u{2518}"@]
    } else if n == 5 {
        seq!["\u{250c}\u{2500}\u{2500}\u{2500}\u{2500}\u{2500}\u{2510}"@, "\u{2502} \u{25cf} \u{25cf} \u{2502}"@, "\u{2502}  \u{25cf}  \u{2502}"@, "\u{2502} \u{25cf} \u{25cf} \u{2502}"@, "\u{2514}\u{2500}\u{2500}\u{2500}\u{2500}\u{2500}\u{2518}"@]
    } else if n == 6 {
        seq!["\u{250c}\u{2500}\u{2500}\u{2500}\u{2500}\u{2500}\u{2510}"@, "\u{2502} \u{25cf} \u{25cf} \u{2502}"@, "\u{2502} \u{25cf} \u{25cf} \u{2502}"@, "\u{2502} \u{25cf} \u{25cf} \u{2502}"@, "\u{2514}\u{2500}\u{2500}\u{2500}\u{2500}\u{2500}\u{2518}"@]
    } else {
        seq!["\u{250c}\u{2500}\u{2500}\u{2500}\u{2500}\u{2500}\u{2510}"@, "\u{2502}     \u{2502}"@, "\u{2502}  ?  \u{2502}"@, "\u{2502}     \u{2502}"@, "\u{2514}\u{2500}\u{2500}\u{2500}\u{2500}\u{2500}\u{2518}"@]
    }
}

/// The five rows of the box-drawn die face `n`.
pub fn die_face_art(n: u8) -> (rows: [&'static str; 5])
    ensures
        forall|i: int| 0 <= i < 5 ==> #[trigger] rows[i]@ == spec_die_face(n)[i],
{
    match n {
        1 => [
            "\u{250c}\u{2500}\u{2500}\u{2500}\u{2500}\u{2500}\u{2510}",
            "\u{2502}     \u{2502}",
            "\u{2502}  \u{25cf}  \u{2502}",
            "\u{2502}     \u{2502}",
            "\u{2514}\u{2500}\u{2500}\u{2500}\u{2500}\u{2500}\u{2518}",
        ],
        2 => [
            "\u{250c}\u{2500}\u{2500}\u{2500}\u{2500}\u{2500}\u{2510}",
            "\u{2502} \u{25cf}   \u{2502}",
            "\u{2502}     \u{2502}",
            "\u{2502}   \u{25cf} \u{2502}",
            "\u{2514}\u{2500}\u{2500}\u{2500}\u{2500}\u{2500}\u{2518}",
        ],
        3 => [
            "\u{250c}\u{2500}\u{2500}\u{2500}\u{2500}\u{2500}\u{2510}",
            "\u{2502} \u{25cf}   \u{2502}",
            "\u{2502}  \u{25cf}  \u{2502}",
            "\u{2502}   \u{25cf} \u{2502}",
            "\u{2514}\u{2500}\u{2500}\u{2500}\u{2500}\u{2500}\u{2518}",
        ],
        4 => [
            "\u{250c}\u{2500}\u{2500}\u{2500}\u{2500}\u{2500}\u{2510}",
            "\u{2502} \u{25cf} \u{25cf} \u{2502}",
            "\u{2502}     \u{2502}",
            "\u{2502} \u{25cf} \u{25cf} \u{2502}",
            "\u{2514}\u{2500}\u{2500}\u{2500}\u{2500}\u{2500}\u{2518}",
        ],
        5 => [
            "\u{250c}\u{2500}\u{2500}\u{2500}\u{2500}\u{2500}\u{2510}",
            "\u{2502} \u{25cf} \u{25cf} \u{2502}",
            "\u{2502}  \u{25cf}  \u{2502}",
            "\u{2502} \u{25cf} \u{25cf} \u{2502}",
            "\u{2514}\u{2500}\u{2500}\u{2500}\u{2500}\u{2500}\u{2518}",
        ],
        6 => [
            "\u{250c}\u{2500}\u{2500}\u{2500}\u{2500}\u{2500}\u{2510}",
            "\u{2502} \u{25cf} \u{25cf} \u{2502}",
            "\u{2502} \u{25cf} \u{25cf} \u{2502}",
            "\u{2502} \u{25cf} \u{25cf} \u{2502}",
            "\u{2514}\u{2500}\u{2500}\u{2500}\u{2500}\u{2500}\u{2518}",
        ],
        _ => [
            "\u{250c}\u{2500}\u{2500}\u{2500}\u{2500}\u{2500}\u{2510}",
            "\u{2502}     \u{2502}",
            "\u{2502}  ?  \u{2502}",
            "\u{2502}     \u{2502}",
            "\u{2514}\u{2500}\u{2500}\u{2500}\u{2500}\u{2500}\u{2518}",
        ],
    }
}

/// Number of buildings that have an icon.
pub const NUM_BUILDING_ICONS: usize = 8;

/// The icon of the building at `index`, `?` past the last one.
pub open spec fn spec_building_icon(index: usize) -> Seq<char> {
    if index == 0 {
        "\u{1f5b1}\u{fe0f}"@
    } else if index == 1 {
        "\u{1f475}"@
    } else if index == 2 {
        "\u{1f33e}"@
    } else if index == 3 {
        "\u{26cf}\u{fe0f}"@
    } else if index == 4 {
        "\u{1f3ed}"@
    } else if index == 5 {
        "\u{1f3e6}"@
    } else if index == 6 {
        "\u{1f3db}\u{fe0f}"@
    } else if index == 7 {
        "\u{1f9d9}"@
    } else {
        "?"@
    }
}

/// The icon of the building at `index`, `?` past the last one.
pub fn building_icon(index: usize) -> (icon: &'static str)
    ensures
        icon@ == spec_building_icon(index),
{
    match index {
        0 => "\u{1f5b1}\u{fe0f}",
        1 => "\u{1f475}",
        2 => "\u{1f33e}",
        3 => "\u{26cf}\u{fe0f}",
        4 => "\u{1f3ed}",
        5 => "\u{1f3e6}",
        6 => "\u{1f3db}\u{fe0f}",
        7 => "\u{1f9d9}",
        _ => "?",
    }
}

/// How a line of the event log is coloured.
#[derive(Clone, Copy, Debug, PartialEq, Eq, Structural)]
pub enum LogTone {
    /// Purchases and wins.
    Success,
    /// Losses.
    Failure,
    /// Golden cookies.
    Golden,
    /// Ascension.
    Prestige,
    /// Frenzy.
    Frenzy,
    /// Everything else.
    Info,
}

/// Whether the (lowercased) message `m` holds one of the words that mark a
/// success.
pub open spec fn marks_success(m: Seq<char>) -> bool {
    ||| is_substring("purchased"@, m)
    ||| is_substring("you won"@, m)
    ||| is_substring("win!"@, m)
    ||| is_substring("heads!"@, m)
    ||| is_substring("correct!"@, m)
}

/// Whether `m` holds one of the words that mark a failure.
pub open spec fn marks_failure(m: Seq<char>) -> bool {
    ||| is_substring("lost "@, m)
    ||| is_substring("vanished"@, m)
    ||| is_substring("wrong!"@, m)
    ||| is_substring("tails!"@, m)
}

/// Whether `m` speaks of a golden cookie.
pub open spec fn marks_golden(m: Seq<char>) -> bool {
    is_substring("golden"@, m) || is_substring("\u{2728}"@, m)
}

/// Whether `m` speaks of ascension.
pub open spec fn marks_prestige(m: Seq<char>) -> bool {
    is_substring("ascen"@, m) || is_substring("heavenly"@, m)
}

/// Whether `m` speaks of a frenzy.
pub open spec fn marks_frenzy(m: Seq<char>) -> bool {
    is_substring("frenzy"@, m) || is_substring("\u{1f525}"@, m)
}

/// The tone of a lowercased log message: the first of success, failure,
/// golden, prestige and frenzy whose words it holds, else info.
pub open spec fn tone_of(m: Seq<char>) -> LogTone {
    if marks_success(m) {
        LogTone::Success
    } else if marks_failure(m) {
        LogTone::Failure
    } else if marks_golden(m) {
        LogTone::Golden
    } else if marks_prestige(m) {
        LogTone::Prestige
    } else if marks_frenzy(m) {
        LogTone::Frenzy
    } else {
        LogTone::Info
    }
}

/// The tone of an already lowercased log message (see `tone_of`).
pub fn tone_of_lowercase(m: &str) -> (tone: LogTone)
    ensures
        tone == tone_of(m@),
{
    if str_contains(m, "purchased") || str_contains(m, "you won") || str_contains(m, "win!")
        || str_contains(m, "heads!") || str_contains(m, "correct!") {
        LogTone::Success
    } else if str_contains(m, "lost ") || str_contains(m, "vanished") || str_contains(
        m,
        "wrong!",
    ) || str_contains(m, "tails!") {
        LogTone::Failure
    } else if str_contains(m, "golden") || str_contains(m, "\u{2728}") {
        LogTone::Golden
    } else if str_contains(m, "ascen") || str_contains(m, "heavenly") {
        LogTone::Prestige
    } else if str_contains(m, "frenzy") || str_contains(m, "\u{1f525}") {
        LogTone::Frenzy
    } else {
        LogTone::Info
    }
}

/// The tone of a log message, judged on its lowercase form.
pub fn log_tone(msg: &str) -> (tone: LogTone)
    ensures
        tone == tone_of(lowercase(msg@)),
{
    let lower = to_lowercase(msg);
    tone_of_lowercase(lower.as_str())
}

/// Number of upgrades shown on one page of the upgrade panel.
pub const UPGRADES_PER_PAGE: usize = 8;

/// The upgrades shown on page `page` of a list of `len`: those from `start`
/// up to (not including) `end`, and the number of pages. The page must start
/// within the list (the panel slices the list there), and the page count is
/// worked out as `(len + UPGRADES_PER_PAGE - 1) / UPGRADES_PER_PAGE`, whose
/// first sum must fit in a `usize`.
pub fn upgrade_page_bounds(page: usize, len: usize) -> (bounds: (usize, usize, usize))
    requires
        page * UPGRADES_PER_PAGE <= len,
        len + UPGRADES_PER_PAGE <= usize::MAX,
    ensures
        bounds.0 == page * UPGRADES_PER_PAGE,
        bounds.1 == if page * UPGRADES_PER_PAGE + UPGRADES_PER_PAGE <= len {
            page * UPGRADES_PER_PAGE + UPGRADES_PER_PAGE
        } else {
            len as int
        },
        bounds.2 == (len + UPGRADES_PER_PAGE - 1) / UPGRADES_PER_PAGE as int,
{
    let start = page * UPGRADES_PER_PAGE;
    let end = if start + UPGRADES_PER_PAGE <= len {
        start + UPGRADES_PER_PAGE
    } else {
        len
    };
    let total_pages = (len + UPGRADES_PER_PAGE - 1) / UPGRADES_PER_PAGE;
    (start, end, total_pages)
}

/// Whole seconds left in a countdown of `ticks` quarter-second ticks (a
/// frenzy, a golden cookie), rounded up.
pub fn seconds_left(ticks: u32) -> (secs: u32)
    ensures
        secs == (ticks as int + 3) / 4,
        secs * 4 >= ticks,
        ticks > 0 ==> (secs - 1) * 4 < ticks,
{
    ((ticks as u64 + 3) / 4) as u32
}

/// Which of the four cookie animation frames to draw: the frame advances
/// once a second (every four ticks) and wraps.
pub fn cookie_frame(animation_tick: u32) -> (frame: usize)
    ensures
        frame == (animation_tick / 4) % 4,
        frame < 4,
{
    ((animation_tick / 4) % 4) as usize
}

} // verus!
