//! The overlays and the status line: where they sit and what they say.

use vstd::prelude::*;
use crate::app::{quality_name, quality_option, QUALITY_COUNT};
use crate::ui::detail::{clipped, Area};
use crate::ui::help::HELP_LINE_COUNT;

verus! {

/// The width of the quality picker.
pub const QUALITY_WIDTH: u16 = 40;

/// The height of the quality picker: the qualities, two borders and two
/// spare rows.
pub const QUALITY_HEIGHT: u16 = 10;

/// Where the quality picker sits in a screen `width` by `height`: centred,
/// 40 by 10 (cut to stay within `u16`); and, when a row is left under it,
/// the hint line there, as wide as the picker or what is left of the screen
/// to its right.
pub open spec fn quality_layout(width: u16, height: u16) -> (Area, Option<Area>) {
    let x = (if width >= 40 { width - 40 } else { 0 }) / 2;
    let y = (if height >= 10 { height - 10 } else { 0 }) / 2;
    let hint_y = y + 10;
    let left = width - x;
    (
        clipped(x as u16, y as u16, 40, 10),
        if hint_y < height {
            Some(clipped(x as u16, hint_y as u16, if left < 40 { left as u16 } else { 40 }, 1))
        } else {
            None
        },
    )
}

/// Where the quality picker and its hint line go (see `quality_layout`).
pub fn quality_areas(width: u16, height: u16) -> (res: (Area, Option<Area>))
    ensures
        res == quality_layout(width, height),
{
    let x = width.saturating_sub(QUALITY_WIDTH) / 2;
    let y = height.saturating_sub(QUALITY_HEIGHT) / 2;
    let picker = Area::new(x, y, QUALITY_WIDTH, QUALITY_HEIGHT);
    let hint_y = y + QUALITY_HEIGHT;
    if hint_y < height {
        let left = width.saturating_sub(x);
        let w = if QUALITY_WIDTH < left {
            QUALITY_WIDTH
        } else {
            left
        };
        (picker, Some(Area::new(x, hint_y, w, 1)))
    } else {
        (picker, None)
    }
}

/// The `i`-th line of the quality picker: "> " before the quality picked,
/// two spaces before the others.
pub open spec fn quality_item_text(i: int, picked: int) -> Seq<char> {
    (if i == picked {
        "> "@
    } else {
        "  "@
    }) + quality_name(i)
}

/// The `i`-th line of the quality picker (see `quality_item_text`).
pub fn quality_item(i: usize, picked: usize) -> (res: String)
    requires
        i < QUALITY_COUNT,
    ensures
        res@ == quality_item_text(i as int, picked as int),
{
    let mark = if i == picked {
        String::from_str("> ")
    } else {
        String::from_str("  ")
    };
    mark.concat(quality_option(i))
}

/// Where the help overlay sits in `area`: centred, 56 columns wide but four
/// short of the area at most, and as high as the help text and four rows
/// but two short of the area at most (its corner kept within `u16`).
pub open spec fn help_layout(area: Area) -> Area {
    let w = if area.width >= 4 { area.width - 4 } else { 0 };
    let mw = if 56 < w { 56 } else { w };
    let h = if area.height >= 2 { area.height - 2 } else { 0 };
    let mh = if HELP_LINE_COUNT + 4 < h { HELP_LINE_COUNT + 4 } else { h };
    let x = area.x + (area.width - mw) / 2;
    let y = area.y + (area.height - mh) / 2;
    clipped(
        (if x > 65535 { 65535 } else { x }) as u16,
        (if y > 65535 { 65535 } else { y }) as u16,
        mw as u16,
        mh as u16,
    )
}

/// Where the help overlay goes (see `help_layout`).
pub fn help_area(area: Area) -> (res: Area)
    ensures
        res == help_layout(area),
{
    let w = area.width.saturating_sub(4);
    let mw = if 56 < w {
        56
    } else {
        w
    };
    let h = area.height.saturating_sub(2);
    let mh = if HELP_LINE_COUNT + 4 < h {
        HELP_LINE_COUNT + 4
    } else {
        h
    };
    let x = area.x.saturating_add((area.width - mw) / 2);
    let y = area.y.saturating_add((area.height - mh) / 2);
    Area::new(x, y, mw, mh)
}

/// The frames of the loading spinner, in turn.
pub open spec fn spinner_frames() -> Seq<char> {
    seq!['⠋', '⠙', '⠹', '⠸', '⠼', '⠴', '⠦', '⠧', '⠇', '⠏']
}

/// The spinner frame shown after `frame` steps.
pub fn spinner_glyph(frame: usize) -> (res: char)
    ensures
        res == spinner_frames()[frame as int % 10],
{
    let k = frame % 10;
    if k == 0 {
        '⠋'
    } else if k == 1 {
        '⠙'
    } else if k == 2 {
        '⠹'
    } else if k == 3 {
        '⠸'
    } else if k == 4 {
        '⠼'
    } else if k == 5 {
        '⠴'
    } else if k == 6 {
        '⠦'
    } else if k == 7 {
        '⠧'
    } else if k == 8 {
        '⠇'
    } else {
        '⠏'
    }
}

/// Who the status line says is signed in: the user name (or "authed" when
/// it is not known) with a filled dot when there is a token; "anon" with a
/// hollow dot when there is none. The flag tells the filled dot.
pub open spec fn auth_status_text(has_oauth: bool, username: Option<Seq<char>>) -> (bool, Seq<char>) {
    if has_oauth {
        (
            true,
            match username {
                Some(u) => u,
                None => "authed"@,
            },
        )
    } else {
        (false, "anon"@)
    }
}

/// Who the status line says is signed in (see `auth_status_text`).
pub fn auth_status(has_oauth: bool, username: &Option<String>) -> (res: (bool, String))
    ensures
        (res.0, res.1@) == auth_status_text(
            has_oauth,
            match username {
                Some(u) => Some(u@),
                None => None,
            },
        ),
{
    if has_oauth {
        match username {
            Some(u) => (true, u.clone()),
            None => (true, String::from_str("authed")),
        }
    } else {
        (false, String::from_str("anon"))
    }
}

} // verus!
