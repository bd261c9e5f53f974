//! The monitor: its state, and what it shows.

use vstd::prelude::*;

use crate::text;

pub mod app;
pub mod detail;
pub mod failures;
pub mod layout;
pub mod metrics;
pub mod sessions;

verus! {

/// Below this width one panel is shown at a time.
pub const NARROW_WIDTH: u16 = 80;

pub open spec fn truncated_v(s: Seq<char>, max: int) -> Seq<char> {
    if s.len() <= max {
        s
    } else if max <= 0 {
        Seq::empty()
    } else {
        s.take(max - 1).push('…')
    }
}

/// A text of at most `max` characters; one that is cut ends in an ellipsis.
pub fn truncate(s: &str, max: usize) -> (r: String)
    ensures
        r@ == truncated_v(s@, max as int),
{
    let v = text::chars_of(s);
    if v.len() <= max {
        text::owned(s)
    } else if max == 0 {
        String::new()
    } else {
        let mut out = text::string_of(&v, 0, max - 1);
        assert(v@.subrange(0, max - 1) =~= s@.take(max - 1));
        out.push('…');
        out
    }
}

/// A text that was cut to a width never takes more, and one that fits is not cut.
pub proof fn truncated_texts_fit(s: Seq<char>, max: int)
    requires
        max >= 0,
    ensures
        truncated_v(s, max).len() <= max,
        s.len() <= max ==> truncated_v(s, max) == s,
{
}

pub open spec fn spaces_v(n: int) -> Seq<char> {
    Seq::new(
        if n > 0 {
            n as nat
        } else {
            0
        },
        |i: int| ' ',
    )
}

/// A text filled up with spaces at its end.
pub open spec fn left_v(s: Seq<char>, width: int) -> Seq<char> {
    s + spaces_v(width - s.len())
}

/// A text filled up with spaces at its beginning.
pub open spec fn right_v(s: Seq<char>, width: int) -> Seq<char> {
    spaces_v(width - s.len()) + s
}

fn spaces(n: usize) -> (r: String)
    ensures
        r@ == spaces_v(n as int),
{
    let mut out = String::new();
    let mut i: usize = 0;
    assert(out@ =~= spaces_v(0));
    while i < n
        invariant
            i <= n,
            out@ == spaces_v(i as int),
        decreases n - i,
    {
        assert(spaces_v(i + 1) =~= spaces_v(i as int).push(' '));
        out.push(' ');
        i += 1;
    }
    out
}

pub fn left(s: &str, width: usize) -> (r: String)
    ensures
        r@ == left_v(s@, width as int),
{
    let n: usize = text::chars_of(s).len();
    let fill: usize = if n < width {
        width - n
    } else {
        0
    };
    assert(spaces_v(fill as int) =~= spaces_v(width - s@.len()));
    text::cat(s, &spaces(fill))
}

pub fn right(s: &str, width: usize) -> (r: String)
    ensures
        r@ == right_v(s@, width as int),
{
    let n: usize = text::chars_of(s).len();
    let fill: usize = if n < width {
        width - n
    } else {
        0
    };
    assert(spaces_v(fill as int) =~= spaces_v(width - s@.len()));
    text::cat(&spaces(fill), s)
}

pub open spec fn two_digits_v(n: nat) -> Seq<char> {
    if n < 10 {
        "0"@ + text::decimal_v(n)
    } else {
        text::decimal_v(n)
    }
}

pub fn two_digits(n: u64) -> (r: String)
    ensures
        r@ == two_digits_v(n as nat),
{
    if n < 10 {
        text::cat("0", &text::decimal(n))
    } else {
        text::decimal(n)
    }
}

/// A span of time in its two largest units.
pub open spec fn uptime_v(secs: u64) -> Seq<char> {
    let h = (secs / 3600) as nat;
    let m = ((secs % 3600) / 60) as nat;
    let s = (secs % 60) as nat;
    if h > 0 {
        text::decimal_v(h) + "h"@ + two_digits_v(m) + "m"@
    } else if m > 0 {
        text::decimal_v(m) + "m"@ + two_digits_v(s) + "s"@
    } else {
        text::decimal_v(s) + "s"@
    }
}

pub fn format_uptime(secs: u64) -> (r: String)
    ensures
        r@ == uptime_v(secs),
{
    let h: u64 = secs / 3600;
    let m: u64 = (secs % 3600) / 60;
    let s: u64 = secs % 60;
    if h > 0 {
        let mut out = text::cat3(&text::decimal(h), "h", &two_digits(m));
        out.push_str("m");
        out
    } else if m > 0 {
        let mut out = text::cat3(&text::decimal(m), "m", &two_digits(s));
        out.push_str("s");
        out
    } else {
        text::cat(&text::decimal(s), "s")
    }
}

/// A part of the screen.
#[derive(Clone, Copy, Debug, PartialEq, Eq, Structural)]
pub struct Area {
    pub x: u16,
    pub y: u16,
    pub width: u16,
    pub height: u16,
}

impl Area {
    /// An area that ends within the screen's range of coordinates.
    pub open spec fn ok(self) -> bool {
        self.x + self.width <= u16::MAX && self.y + self.height <= u16::MAX
    }
}

pub open spec fn least_v(a: u16, b: u16) -> u16 {
    if a < b {
        a
    } else {
        b
    }
}

/// An area in the middle of another.
pub open spec fn centered_v(area: Area, width: u16, height: u16) -> Area {
    Area {
        x: (area.x + (area.width - width) / 2) as u16,
        y: (area.y + (area.height - height) / 2) as u16,
        width,
        height,
    }
}

fn centered(area: Area, width: u16, height: u16) -> (r: Area)
    requires
        area.ok(),
        width <= area.width,
        height <= area.height,
    ensures
        r == centered_v(area, width, height),
{
    Area {
        x: area.x + (area.width - width) / 2,
        y: area.y + (area.height - height) / 2,
        width,
        height,
    }
}

fn least(a: u16, b: u16) -> (r: u16)
    ensures
        r == least_v(a, b),
{
    if a < b {
        a
    } else {
        b
    }
}

/// Where the help is shown.
pub fn help_area(area: Area) -> (r: Area)
    requires
        area.ok(),
    ensures
        r == centered_v(area, least_v(area.width, 72), least_v(area.height, 20)),
{
    centered(area, least(area.width, 72), least(area.height, 20))
}

/// The height of a window for so many lines: a frame around them, and two rows
/// around it where there is room.
pub open spec fn detail_height_v(height: u16, lines: u16) -> u16 {
    let wanted = if lines > u16::MAX - 2 {
        u16::MAX
    } else {
        (lines + 2) as u16
    };
    let at_least = if wanted < 5 {
        5u16
    } else {
        wanted
    };
    let room = if height < 7 {
        5u16
    } else {
        (height - 2) as u16
    };
    least_v(least_v(at_least, room), height)
}

/// Where so many lines of detail are shown.
pub fn detail_area(area: Area, lines: u16) -> (r: Area)
    requires
        area.ok(),
    ensures
        r == centered_v(area, least_v(area.width, 76), detail_height_v(area.height, lines)),
{
    let wanted: u16 = lines.saturating_add(2);
    let at_least: u16 = if wanted < 5 {
        5
    } else {
        wanted
    };
    let room: u16 = if area.height < 7 {
        5
    } else {
        area.height - 2
    };
    let height: u16 = least(least(at_least, room), area.height);
    centered(area, least(area.width, 76), height)
}

/// A window in the middle of an area lies within it.
pub proof fn windows_stay_inside(area: Area, width: u16, height: u16)
    requires
        area.ok(),
        width <= area.width,
        height <= area.height,
    ensures
        ({
            let w = centered_v(area, width, height);
            &&& area.x <= w.x
            &&& w.x + w.width <= area.x + area.width
            &&& area.y <= w.y
            &&& w.y + w.height <= area.y + area.height
        }),
{
}

} // verus!
