use x52_spotify::x52::line::{Line, DWELL, WIDTH};

fn shown_over_ticks(line: &mut Line, ticks: usize) -> Vec<String> {
    let mut shown = Vec::new();
    for _ in 0..ticks {
        line.tick();
        shown.push(line.get().to_string());
    }
    shown
}

/// The offset of what a line shows within a text in which no window of the
/// line's width occurs twice.
fn offset_in(text: &str, shown: &str) -> usize {
    let start = text.find(shown).expect("shown text is part of the text");
    text[..start].chars().count()
}

#[test]
fn display_geometry() {
    assert_eq!(WIDTH, 16);
    assert_eq!(DWELL, 1);
}

#[test]
fn short_text_is_shown_whole() {
    assert_eq!(Line::new("Now playing:").get(), "Now playing:");
    assert_eq!(Line::new("").get(), "");
}

#[test]
fn text_of_exactly_the_width_is_shown_whole_and_never_moves() {
    let mut line = Line::new("0123456789abcdef");
    assert_eq!(line.get(), "0123456789abcdef");
    for shown in shown_over_ticks(&mut line, 40) {
        assert_eq!(shown, "0123456789abcdef");
    }
}

#[test]
fn short_text_never_moves() {
    let mut line = Line::new("Not running");
    for shown in shown_over_ticks(&mut line, 100) {
        assert_eq!(shown, "Not running");
    }
}

#[test]
fn long_text_is_shown_from_its_start() {
    assert_eq!(Line::new("0123456789abcdefghij").get(), "0123456789abcdef");
    assert_eq!(Line::new("Never Gonna Give You Up").get(), "Never Gonna Give");
}

#[test]
fn long_text_scrolls_to_the_end_and_back() {
    let text = "0123456789abcdefghij";
    let mut line = Line::new(text);
    let shown = shown_over_ticks(&mut line, 14);
    assert_eq!(
        shown,
        vec![
            "0123456789abcdef",
            "123456789abcdefg",
            "23456789abcdefgh",
            "3456789abcdefghi",
            "456789abcdefghij",
            "456789abcdefghij",
            "456789abcdefghij",
            "3456789abcdefghi",
            "23456789abcdefgh",
            "123456789abcdefg",
            "0123456789abcdef",
            "0123456789abcdef",
            "0123456789abcdef",
            "123456789abcdefg",
        ]
    );
}

#[test]
fn scrolling_repeats_with_a_fixed_period() {
    let text = "0123456789abcdefghij";
    let mut line = Line::new(text);
    line.tick();
    let first = shown_over_ticks(&mut line, 12);
    let second = shown_over_ticks(&mut line, 12);
    assert_eq!(first, second);
}

#[test]
fn text_one_longer_than_the_width_swings_by_one() {
    let mut line = Line::new("0123456789abcdefg");
    let offsets: Vec<usize> = shown_over_ticks(&mut line, 9)
        .iter()
        .map(|shown| offset_in("0123456789abcdefg", shown))
        .collect();
    assert_eq!(offsets, vec![0, 1, 1, 1, 0, 0, 0, 1, 1]);
}

#[test]
fn offsets_stay_in_bounds_and_what_is_shown_has_the_width() {
    let text = "abcdefghijklmnopqrstuvwxyz0123456789";
    let mut line = Line::new(text);
    for shown in shown_over_ticks(&mut line, 200) {
        assert_eq!(shown.chars().count(), WIDTH);
        assert!(offset_in(text, &shown) <= text.len() - WIDTH);
    }
}

#[test]
fn offsets_rise_then_fall_and_rest_after_each_turn() {
    let text = "abcdefghijklmnopqrstuvwxyz";
    let last = text.len() - WIDTH;
    assert_eq!(last, 10);
    let mut line = Line::new(text);
    let offsets: Vec<usize> =
        shown_over_ticks(&mut line, 61).iter().map(|shown| offset_in(text, shown)).collect();
    // The first tick uses up the rest at the start. After that the line
    // climbs to the end, turns round there and rests, falls to the start,
    // turns round there and rests, over and over.
    let mut cycle: Vec<usize> = (1..=last).collect();
    cycle.extend([last, last]);
    cycle.extend((0..last).rev());
    cycle.extend([0, 0]);
    assert_eq!(cycle.len(), 24);
    let mut expected = vec![0];
    while expected.len() < offsets.len() {
        let next = cycle[(expected.len() - 1) % cycle.len()];
        expected.push(next);
    }
    assert_eq!(offsets, expected);
}

#[test]
fn width_and_rest_can_be_chosen() {
    let mut line = Line::with_width("abcdef", 4, 0);
    assert_eq!(line.get(), "abcd");
    assert_eq!(
        shown_over_ticks(&mut line, 8),
        vec!["bcde", "cdef", "cdef", "bcde", "abcd", "abcd", "bcde", "cdef"]
    );
    let mut line = Line::with_width("abcdef", 4, 3);
    assert_eq!(
        shown_over_ticks(&mut line, 10),
        vec!["abcd", "abcd", "abcd", "bcde", "cdef", "cdef", "cdef", "cdef", "cdef", "bcde"]
    );
}

#[test]
fn width_of_zero_shows_nothing() {
    let mut line = Line::with_width("abc", 0, 1);
    assert_eq!(line.get(), "");
    for shown in shown_over_ticks(&mut line, 12) {
        assert_eq!(shown, "");
    }
}

#[test]
fn width_counts_characters_not_bytes() {
    let mut line = Line::with_width("ÄÖÜäöüß", 5, 1);
    assert_eq!(line.get(), "ÄÖÜäö");
    assert_eq!(shown_over_ticks(&mut line, 4), vec!["ÄÖÜäö", "ÖÜäöü", "Üäöüß", "Üäöüß"]);
    assert_eq!(Line::new("ÄÖÜäöüßÄÖÜäöüßÄÖ").get(), "ÄÖÜäöüßÄÖÜäöüßÄÖ");
}

#[test]
fn set_content_starts_over() {
    let mut line = Line::new("0123456789abcdefghij");
    shown_over_ticks(&mut line, 4);
    assert_eq!(line.get(), "3456789abcdefghi");
    line.set_content("ABCDEFGHIJKLMNOPQRST");
    assert_eq!(line.get(), "ABCDEFGHIJKLMNOP");
    assert_eq!(
        shown_over_ticks(&mut line, 3),
        vec!["ABCDEFGHIJKLMNOP", "BCDEFGHIJKLMNOPQ", "CDEFGHIJKLMNOPQR"]
    );
    line.set_content("short");
    assert_eq!(line.get(), "short");
}

#[test]
fn set_content_keeps_width_and_rest() {
    let mut line = Line::with_width("abcdef", 4, 2);
    shown_over_ticks(&mut line, 5);
    line.set_content("uvwxyz");
    assert_eq!(line.get(), "uvwx");
    assert_eq!(shown_over_ticks(&mut line, 4), vec!["uvwx", "uvwx", "vwxy", "wxyz"]);
}

#[test]
fn clone_scrolls_on_its_own() {
    let mut line = Line::new("0123456789abcdefghij");
    shown_over_ticks(&mut line, 3);
    let mut copy = line.clone();
    assert_eq!(copy.get(), line.get());
    copy.tick();
    assert_eq!(copy.get(), "3456789abcdefghi");
    assert_eq!(line.get(), "23456789abcdefgh");
}
