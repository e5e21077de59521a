use loop_player::progress::render_progress;
use loop_player::progress::Pace;
use loop_player::progress::theme;

fn line(
    cur: usize,
    left: usize,
    right: usize,
    time_unit: usize,
    cols: u16,
    looping: bool,
    unicode: bool,
) -> Option<String> {
    render_progress(cur, left, right, time_unit, cols, looping, unicode)
        .map(|chars| chars.into_iter().collect())
}

#[test]
fn bar_in_the_middle_of_the_loop() {
    // Seven of twenty-six seconds played, twenty columns: (7*20*2+1)/(26*2) = 5.
    assert_eq!(
        line(12, 5, 31, 1, 40, true, false),
        Some("  0:05 [-----<0:12>---------------] 0:31".to_string())
    );
}

#[test]
fn positions_in_samples_are_shown_in_time_units() {
    assert_eq!(
        line(12 * 2000 + 7, 5 * 2000, 31 * 2000 + 1999, 2000, 40, true, false),
        Some("  0:05 [-----<0:12>---------------] 0:31".to_string())
    );
    assert_eq!(
        line(12 * 2000 - 1, 5 * 2000 + 1999, 31 * 2000, 2000, 40, true, false),
        Some("  0:05 [----<0:11>----------------] 0:31".to_string())
    );
    // A right edge below one unit of time reads as unknown.
    assert_eq!(
        line(0, 0, 1999, 2000, 24, true, false),
        Some("  0:00 [<0:00>----? ?:??".to_string())
    );
}

#[test]
fn the_line_is_drawn_again_when_the_shown_time_changes() {
    let mut pace = Pace::new(1000);
    assert_eq!(pace.shown, None);
    let redraws: Vec<bool> =
        [0usize, 1, 999, 1000, 1999, 5000, 5999, 400, 400, 1000].iter().map(|p| pace.moved(*p)).collect();
    assert_eq!(redraws, vec![true, false, false, true, false, true, false, true, false, true]);
    assert_eq!(pace.shown, Some(1));
    assert_eq!(pace.time_unit, 1000);
}

#[test]
fn bar_before_the_loop() {
    assert_eq!(
        line(3, 5, 31, 1, 40, true, false),
        Some("  0:05 +<0:03>--------------------] 0:31".to_string())
    );
}

#[test]
fn bar_at_the_left_edge() {
    assert_eq!(
        line(5, 5, 31, 1, 40, true, false),
        Some("  0:05 [<0:05>--------------------] 0:31".to_string())
    );
}

#[test]
fn bar_past_the_loop() {
    assert_eq!(
        line(75, 5, 31, 1, 40, false, false),
        Some("  0:05 [--------------------<1:15>+ 0:31".to_string())
    );
}

#[test]
fn bar_with_unknown_end() {
    assert_eq!(
        line(12, 0, 0, 1, 40, true, false),
        Some("  0:00 [<0:12>--------------------? ?:??".to_string())
    );
    assert_eq!(
        line(12, 0, 0, 1, 40, false, false),
        Some("  0:00 [<0:12>--------------------+ ?:??".to_string())
    );
}

#[test]
fn long_times_take_more_columns() {
    // 3725 seconds are 62 minutes and 5 seconds. The labels take 24 columns,
    // which leaves 16: (3125*16*2+1)/(6600*2) = 7.
    assert_eq!(
        line(3725, 600, 7200, 1, 40, true, false),
        Some("  10:00 [-------<62:05>---------] 120:00".to_string())
    );
}

#[test]
fn bar_in_unicode() {
    // Ten columns for the fill: (7*10*2+1)/(26*2) = 2.
    assert_eq!(
        line(12, 5, 31, 1, 30, true, true),
        Some(
            "  0:05 \u{255f}\u{2500}\u{2500}\u{2524}0:12\u{251c}\u{2500}\u{2500}\u{2500}\u{2500}\u{2500}\u{2500}\u{2500}\u{2500}\u{2562} 0:31"
                .to_string()
        )
    );
    assert_eq!(
        line(3, 5, 31, 1, 24, false, true),
        Some("  0:05 \u{22ef}\u{2524}0:03\u{251c}\u{2500}\u{2500}\u{2500}\u{2500}\u{22ef} 0:31".to_string())
    );
}

#[test]
fn narrow_terminals_get_no_bar() {
    // The labels take twenty columns; at least two more are needed.
    assert_eq!(line(12, 5, 31, 1, 21, true, false), None);
    assert_eq!(line(12, 5, 31, 1, 20, true, false), None);
    assert_eq!(line(12, 5, 31, 1, 0, true, false), None);
    assert_eq!(
        line(12, 5, 31, 1, 22, true, false),
        Some("  0:05 [<0:12>--] 0:31".to_string())
    );
}

#[test]
fn the_line_is_as_wide_as_the_terminal() {
    for cols in [23u16, 24, 40, 80, 200, 65535] {
        for cur in [0usize, 5, 6, 17, 30, 31, 32, 600] {
            let text = render_progress(cur, 5, 31, 1, cols, true, false).unwrap();
            assert_eq!(text.len(), cols as usize);
        }
    }
}

#[test]
fn themes_differ_in_every_character() {
    let ascii = theme(false);
    let unicode = theme(true);
    assert_eq!(
        (ascii.line, ascii.open, ascii.closed_left, ascii.closed_right),
        ('-', '+', '[', ']')
    );
    assert_eq!((ascii.time_left, ascii.time_right), ('<', '>'));
    assert_eq!(
        (unicode.line, unicode.open, unicode.closed_left, unicode.closed_right),
        ('─', '⋯', '╟', '╢')
    );
    assert_eq!((unicode.time_left, unicode.time_right), ('┤', '├'));
}
