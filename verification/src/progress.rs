//! The progress bar: one line of text that shows where playback stands
//! between the loop's edges.
//!
//! ```text
//!   0:05 [------<0:12>----------] 0:31
//! ```
//!
//! Positions come in samples. They are shown in whole units of time
//! (seconds, where the unit is one second of samples), written as minutes, a
//! colon and two digits.

use crate::samples::extend_from_range;
use vstd::prelude::*;

verus! {

/// The characters that the bar is drawn with.
#[derive(Debug, Clone, Copy, PartialEq, Eq, Structural)]
pub struct Theme {
    /// Fills the bar.
    pub line: char,
    /// An edge that playback is outside of, or that the loop no longer has.
    pub open: char,
    /// The left edge, once playback has passed it.
    pub closed_left: char,
    /// The right edge, while the loop holds.
    pub closed_right: char,
    /// Stands before the current time.
    pub time_left: char,
    /// Stands after the current time.
    pub time_right: char,
}

/// The theme for a terminal that takes Unicode, and the one for any other.
pub open spec fn theme_for(unicode: bool) -> Theme {
    if unicode {
        Theme {
            line: '\u{2500}',
            open: '\u{22ef}',
            closed_left: '\u{255f}',
            closed_right: '\u{2562}',
            time_left: '\u{2524}',
            time_right: '\u{251c}',
        }
    } else {
        Theme {
            line: '-',
            open: '+',
            closed_left: '[',
            closed_right: ']',
            time_left: '<',
            time_right: '>',
        }
    }
}

/// The theme to draw with.
pub fn theme(unicode: bool) -> (t: Theme)
    ensures
        t == theme_for(unicode),
{
    if unicode {
        Theme {
            line: '\u{2500}',
            open: '\u{22ef}',
            closed_left: '\u{255f}',
            closed_right: '\u{2562}',
            time_left: '\u{2524}',
            time_right: '\u{251c}',
        }
    } else {
        Theme {
            line: '-',
            open: '+',
            closed_left: '[',
            closed_right: ']',
            time_left: '<',
            time_right: '>',
        }
    }
}

/// The character for a digit from 0 to 9.
pub open spec fn digit_char(d: nat) -> char {
    ((48 + d) as u8) as char
}

/// A number written in decimal, without leading zeros.
pub open spec fn decimal(n: nat) -> Seq<char>
    decreases n,
{
    if n < 10 {
        seq![digit_char(n)]
    } else {
        decimal(n / 10).push(digit_char(n % 10))
    }
}

/// A number written in decimal with at least two digits.
pub open spec fn two_digits(n: nat) -> Seq<char> {
    if n < 10 {
        seq!['0'] + decimal(n)
    } else {
        decimal(n)
    }
}

/// A time written as minutes, a colon, and seconds in two digits.
pub open spec fn clock(t: nat) -> Seq<char> {
    decimal(t / 60) + seq![':'] + two_digits(t % 60)
}

/// `n` times the character `c`.
pub open spec fn run_of(c: char, n: nat) -> Seq<char> {
    Seq::new(n, |j: int| c)
}

/// How many of `room` columns lie to the left of the current time: none
/// before the loop or while its end is unknown, all of them past the loop,
/// and in between the share of the loop that has been played, rounded to
/// the nearest column.
pub open spec fn fill_amount(cur: nat, left: nat, right: nat, room: nat) -> nat {
    if cur <= left || right == 0 {
        0
    } else if cur >= right {
        room
    } else {
        (((cur - left) * room * 2 + 1) / ((right - left) * 2)) as nat
    }
}

/// The text before the bar: the time of the loop's left edge.
pub open spec fn left_label(left: nat) -> Seq<char> {
    seq![' ', ' '] + clock(left) + seq![' ']
}

/// The text after the bar: the time of the loop's right edge, or question
/// marks while it is unknown (`right` is zero then).
pub open spec fn right_label(right: nat) -> Seq<char> {
    if right == 0 {
        seq![' ', '?', ':', '?', '?']
    } else {
        seq![' '] + clock(right)
    }
}

/// The character for the bar's left edge.
pub open spec fn left_bracket(theme: Theme, cur: nat, left: nat) -> char {
    if cur < left {
        theme.open
    } else {
        theme.closed_left
    }
}

/// The character for the bar's right edge.
pub open spec fn right_bracket(theme: Theme, right: nat, looping: bool) -> char {
    if !looping {
        theme.open
    } else if right == 0 {
        '?'
    } else {
        theme.closed_right
    }
}

/// The columns that are left for the bar's fill on a terminal `cols` wide:
/// what the two labels, the current time, the two edges and the two marks
/// round the current time do not take. `None` where fewer than two are left.
pub open spec fn room_for(cur: nat, left: nat, right: nat, cols: nat) -> Option<nat> {
    let taken = left_label(left).len() + right_label(right).len() + clock(cur).len() + 4;
    if cols < taken + 2 {
        None
    } else {
        Some((cols - taken) as nat)
    }
}

/// The bar put together from its parts, in the order in which they stand.
pub open spec fn assembled(
    theme: Theme,
    left: Seq<char>,
    left_edge: char,
    fill: nat,
    now: Seq<char>,
    rest: nat,
    right_edge: char,
    right: Seq<char>,
) -> Seq<char> {
    left + seq![left_edge] + run_of(theme.line, fill) + seq![theme.time_left] + now
        + seq![theme.time_right] + run_of(theme.line, rest) + seq![right_edge] + right
}

/// The progress line for a playback position `cur` and a loop from `left`
/// to `right` (zero for an end that is not known yet), all in time units, on
/// a terminal `cols` wide. `None` where the terminal is too narrow.
pub open spec fn progress_line(
    cur: nat,
    left: nat,
    right: nat,
    cols: nat,
    looping: bool,
    unicode: bool,
) -> Option<Seq<char>> {
    let theme = theme_for(unicode);
    match room_for(cur, left, right, cols) {
        None => None,
        Some(room) => {
            let fill = fill_amount(cur, left, right, room);
            Some(
                assembled(
                    theme,
                    left_label(left),
                    left_bracket(theme, cur, left),
                    fill,
                    clock(cur),
                    (room - fill) as nat,
                    right_bracket(theme, right, looping),
                    right_label(right),
                ),
            )
        },
    }
}

fn push_decimal(out: &mut Vec<char>, n: usize)
    ensures
        final(out)@ == old(out)@ + decimal(n as nat),
    decreases n,
{
    if n >= 10 {
        push_decimal(out, n / 10);
    }
    let d: u8 = (n % 10) as u8;
    out.push((48 + d) as char);
    assert(out@ =~= old(out)@ + decimal(n as nat));
}

fn push_clock(out: &mut Vec<char>, t: usize)
    ensures
        final(out)@ == old(out)@ + clock(t as nat),
{
    push_decimal(out, t / 60);
    out.push(':');
    let s: usize = t % 60;
    if s < 10 {
        out.push('0');
    }
    push_decimal(out, s);
    assert(out@ =~= old(out)@ + clock(t as nat));
}

fn push_run(out: &mut Vec<char>, c: char, n: usize)
    ensures
        final(out)@ == old(out)@ + run_of(c, n as nat),
{
    let mut k: usize = 0;
    assert(out@ =~= old(out)@ + run_of(c, 0));
    while k < n
        invariant
            k <= n,
            out@ == old(out)@ + run_of(c, k as nat),
        decreases n - k,
    {
        out.push(c);
        k += 1;
        assert(out@ =~= old(out)@ + run_of(c, k as nat));
    }
}

proof fn lemma_fill_fits(x: nat, d: nat, room: nat)
    requires
        x < d,
    ensures
        (x * room * 2 + 1) / (d * 2) <= room,
{
    assert(x * room * 2 + 1 < (room + 1) * (d * 2)) by (nonlinear_arith)
        requires
            x < d,
    ;
    assert((x * room * 2 + 1) / (d * 2) < room + 1) by (nonlinear_arith)
        requires
            x * room * 2 + 1 < (room + 1) * (d * 2),
            d > 0,
    ;
}

fn fill_columns(cur: usize, left: usize, right: usize, room: usize) -> (fill: usize)
    requires
        room < 0x1_0000,
    ensures
        fill == fill_amount(cur as nat, left as nat, right as nat, room as nat),
        fill <= room,
{
    if cur <= left || right == 0 {
        0
    } else if cur >= right {
        room
    } else {
        let x: u128 = (cur - left) as u128;
        let d: u128 = (right - left) as u128;
        assert(x * (room as u128) * 2 + 1 < 0x1_0000_0000_0000_0000_0000_0000u128) by (nonlinear_arith)
            requires
                x < 0x1_0000_0000_0000_0000u128,
                room < 0x1_0000,
        ;
        assert(x * (room as u128) < 0x1_0000_0000_0000_0000_0000_0000u128) by (nonlinear_arith)
            requires
                x < 0x1_0000_0000_0000_0000u128,
                room < 0x1_0000,
        ;
        proof {
            lemma_fill_fits(x as nat, d as nat, room as nat);
        }
        let fill: u128 = (x * (room as u128) * 2 + 1) / (d * 2);
        fill as usize
    }
}

fn left_text(left: usize) -> (r: Vec<char>)
    ensures
        r@ == left_label(left as nat),
{
    let mut r: Vec<char> = Vec::new();
    r.push(' ');
    r.push(' ');
    push_clock(&mut r, left);
    r.push(' ');
    assert(r@ =~= left_label(left as nat));
    r
}

fn right_text(right: usize) -> (r: Vec<char>)
    ensures
        r@ == right_label(right as nat),
{
    let mut r: Vec<char> = Vec::new();
    r.push(' ');
    if right == 0 {
        r.push('?');
        r.push(':');
        r.push('?');
        r.push('?');
    } else {
        push_clock(&mut r, right);
    }
    assert(r@ =~= right_label(right as nat));
    r
}

fn clock_text(t: usize) -> (r: Vec<char>)
    ensures
        r@ == clock(t as nat),
{
    let mut r: Vec<char> = Vec::new();
    push_clock(&mut r, t);
    assert(r@ =~= clock(t as nat));
    r
}

fn push_text(out: &mut Vec<char>, text: &Vec<char>)
    ensures
        final(out)@ == old(out)@ + text@,
{
    extend_from_range(out, text, 0, text.len());
    assert(text@.subrange(0, text@.len() as int) =~= text@);
}

fn assemble(
    theme: Theme,
    left: Vec<char>,
    left_edge: char,
    fill: usize,
    now: &Vec<char>,
    rest: usize,
    right_edge: char,
    right: &Vec<char>,
) -> (bar: Vec<char>)
    ensures
        bar@ == assembled(
            theme,
            left@,
            left_edge,
            fill as nat,
            now@,
            rest as nat,
            right_edge,
            right@,
        ),
{
    let mut bar = left;
    bar.push(left_edge);
    let ghost s1 = left@ + seq![left_edge];
    assert(bar@ =~= s1);
    push_run(&mut bar, theme.line, fill);
    let ghost s2 = s1 + run_of(theme.line, fill as nat);
    bar.push(theme.time_left);
    let ghost s3 = s2 + seq![theme.time_left];
    assert(bar@ =~= s3);
    push_text(&mut bar, now);
    let ghost s4 = s3 + now@;
    bar.push(theme.time_right);
    let ghost s5 = s4 + seq![theme.time_right];
    assert(bar@ =~= s5);
    push_run(&mut bar, theme.line, rest);
    let ghost s6 = s5 + run_of(theme.line, rest as nat);
    bar.push(right_edge);
    let ghost s7 = s6 + seq![right_edge];
    assert(bar@ =~= s7);
    push_text(&mut bar, right);
    bar
}

/// The time that the progress line shows for a position in samples, where
/// `time_unit` samples make one unit of time.
pub open spec fn time_at(position: usize, time_unit: usize) -> nat {
    (position / time_unit) as nat
}

/// The progress line for a position and a loop window given in samples:
/// each is shown as the whole units of time that it holds.
pub open spec fn progress_line_at(
    position: usize,
    loop_left: usize,
    loop_right: usize,
    time_unit: usize,
    cols: nat,
    looping: bool,
    unicode: bool,
) -> Option<Seq<char>> {
    progress_line(
        time_at(position, time_unit),
        time_at(loop_left, time_unit),
        time_at(loop_right, time_unit),
        cols,
        looping,
        unicode,
    )
}

/// Draws the progress line. `position`, `loop_left` and `loop_right` are in
/// samples, `loop_right` zero while the loop's end is unknown, and
/// `time_unit` says how many samples make a unit of time. `looping` says
/// whether the loop still holds. `None` where the terminal is too narrow
/// for a bar.
pub fn render_progress(
    position: usize,
    loop_left: usize,
    loop_right: usize,
    time_unit: usize,
    cols: u16,
    looping: bool,
    unicode: bool,
) -> (line: Option<Vec<char>>)
    requires
        time_unit > 0,
    ensures
        match progress_line_at(
            position,
            loop_left,
            loop_right,
            time_unit,
            cols as nat,
            looping,
            unicode,
        ) {
            Some(text) => line matches Some(v) && v@ == text,
            None => line is None,
        },
{
    let theme = theme(unicode);
    let cur: usize = position / time_unit;
    let left: usize = loop_left / time_unit;
    let right: usize = loop_right / time_unit;
    let left_pos = left_text(left);
    let right_pos = right_text(right);
    let cur_pos = clock_text(cur);
    let taken: usize = left_pos.len().saturating_add(right_pos.len()).saturating_add(
        cur_pos.len(),
    ).saturating_add(4);
    let width: usize = cols as usize;
    if width < taken || width - taken < 2 {
        return None;
    }
    let room: usize = width - taken;
    assert(room_for(cur as nat, left as nat, right as nat, cols as nat) == Some(room as nat));
    let fill: usize = fill_columns(cur, left, right, room);
    let left_edge: char = if cur < left {
        theme.open
    } else {
        theme.closed_left
    };
    let right_edge: char = if !looping {
        theme.open
    } else if right == 0 {
        '?'
    } else {
        theme.closed_right
    };
    Some(assemble(theme, left_pos, left_edge, fill, &cur_pos, room - fill, right_edge, &right_pos))
}

/// Remembers which time the progress line shows, so that the line is drawn
/// again only when that time changes.
#[derive(Debug, Clone, Copy, PartialEq, Eq, Structural)]
pub struct Pace {
    /// How many samples make a unit of time.
    pub time_unit: usize,
    /// The time that the line shows, once it has been drawn.
    pub shown: Option<usize>,
}

impl Pace {
    /// A pace for a line that has not been drawn yet.
    pub fn new(time_unit: usize) -> (pace: Pace)
        requires
            time_unit > 0,
        ensures
            pace == (Pace { time_unit, shown: None }),
    {
        Pace { time_unit, shown: None }
    }

    /// Takes note of a playback position, in samples. Says whether the line
    /// is to be drawn again: it is when the position falls into another unit
    /// of time than the one that is shown, forwards or, at a wrap, backwards.
    pub fn moved(&mut self, position: usize) -> (redraw: bool)
        requires
            old(self).time_unit > 0,
        ensures
            redraw == (old(self).shown != Some((position / old(self).time_unit) as usize)),
            *final(self) == (Pace {
                time_unit: old(self).time_unit,
                shown: Some((position / old(self).time_unit) as usize),
            }),
    {
        let now: usize = position / self.time_unit;
        let redraw: bool = match self.shown {
            Some(shown) => shown != now,
            None => true,
        };
        self.shown = Some(now);
        redraw
    }
}

} // verus!
