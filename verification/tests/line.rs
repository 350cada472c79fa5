use hecto::line::{ELLIPSIS, PLACEHOLDER};
use hecto::{Grapheme, GraphemeWidth, Line};
use unicode_segmentation::UnicodeSegmentation;

fn widths(line: &Line) -> Vec<usize> {
    (0..=line.grapheme_count() + 1).map(|n| line.width_until(n)).collect()
}

#[test]
fn glyph_constants() {
    assert_eq!(PLACEHOLDER, '·');
    assert_eq!(ELLIPSIS, '⋯');
}

#[test]
fn grapheme_width_in_columns() {
    assert_eq!(GraphemeWidth::Half.columns(), 1);
    assert_eq!(GraphemeWidth::Full.columns(), 2);
}

#[test]
fn grapheme_of_no_width_is_half_with_placeholder() {
    let grapheme = Grapheme::new(String::from("\u{301}"), 0);
    assert_eq!(grapheme.width(), GraphemeWidth::Half);
    assert_eq!(grapheme.replacement(), Some('·'));
    assert_eq!(grapheme.content(), "\u{301}");
}

#[test]
fn grapheme_of_one_column_is_half() {
    let grapheme = Grapheme::new(String::from("a"), 1);
    assert_eq!(grapheme.width(), GraphemeWidth::Half);
    assert_eq!(grapheme.replacement(), None);
    assert_eq!(grapheme.content(), "a");
}

#[test]
fn grapheme_of_two_or_more_columns_is_full() {
    for columns in [2, 3, 7, usize::MAX] {
        let grapheme = Grapheme::new(String::from("x"), columns);
        assert_eq!(grapheme.width(), GraphemeWidth::Full);
        assert_eq!(grapheme.replacement(), None);
    }
}

#[test]
fn empty_line() {
    let line = Line::from("");
    assert_eq!(line.grapheme_count(), 0);
    assert_eq!(line.width_until(0), 0);
    assert_eq!(line.width_until(5), 0);
    assert_eq!(line.get_visible_graphemes(0..10), "");
    assert!(line.grapheme(0).is_none());
}

#[test]
fn ascii_line() {
    let line = Line::from("abc");
    assert_eq!(line.grapheme_count(), 3);
    assert_eq!(widths(&line), vec![0, 1, 2, 3, 3]);
    assert_eq!(line.grapheme(1).unwrap().content(), "b");
    assert_eq!(line.grapheme(1).unwrap().width(), GraphemeWidth::Half);
    assert!(line.grapheme(3).is_none());
}

#[test]
fn grapheme_count_is_the_number_of_clusters() {
    let texts = [
        "",
        "plain",
        "a\u{310}e\u{301}o\u{308}\u{332}",
        "a\r\nb🇷🇺🇸🇹",
        "👨‍👩‍👧‍👦 family",
        "你好, world",
        "\u{200b}\u{200b}",
    ];
    for text in texts {
        assert_eq!(Line::from(text).grapheme_count(), text.graphemes(true).count());
    }
    assert_eq!(Line::from("a\u{310}e\u{301}o\u{308}\u{332}").grapheme_count(), 3);
    assert_eq!(Line::from("a\r\nb🇷🇺🇸🇹").grapheme_count(), 5);
}

#[test]
fn clusters_are_not_code_points() {
    let line = Line::from("e\u{301}x");
    assert_eq!(line.grapheme_count(), 2);
    assert_eq!(line.grapheme(0).unwrap().content(), "e\u{301}");
    assert_eq!(line.grapheme(1).unwrap().content(), "x");
}

#[test]
fn wide_clusters_take_two_columns() {
    let line = Line::from("a你b");
    assert_eq!(line.grapheme_count(), 3);
    assert_eq!(line.grapheme(1).unwrap().width(), GraphemeWidth::Full);
    assert_eq!(widths(&line), vec![0, 1, 3, 4, 4]);
}

#[test]
fn clusters_without_width_take_one_column_and_show_the_placeholder() {
    let line = Line::from("a\u{200b}b");
    assert_eq!(line.grapheme_count(), 3);
    let zero = line.grapheme(1).unwrap();
    assert_eq!(zero.content(), "\u{200b}");
    assert_eq!(zero.width(), GraphemeWidth::Half);
    assert_eq!(zero.replacement(), Some('·'));
    assert_eq!(widths(&line), vec![0, 1, 2, 3, 3]);
    assert_eq!(line.get_visible_graphemes(0..3), "a·b");
}

#[test]
fn width_until_never_goes_down() {
    for text in ["", "abc", "你a好b", "\u{200b}x\u{200b}", "👨‍👩‍👧‍👦 family"] {
        let line = Line::from(text);
        let all = widths(&line);
        for pair in all.windows(2) {
            assert!(pair[0] <= pair[1]);
        }
    }
}

#[test]
fn width_of_the_line_is_width_before_the_last_grapheme_and_its_width() {
    for text in ["a", "abc", "a你", "你a", "x\u{200b}"] {
        let line = Line::from(text);
        let count = line.grapheme_count();
        let last = line.grapheme(count - 1).unwrap().width().columns();
        assert_eq!(line.width_until(count), line.width_until(count - 1) + last);
    }
    let line = Line::from("a你");
    assert_eq!(line.width_until(2), 3);
    assert_eq!(line.width_until(1), 1);
}

#[test]
fn visible_part_of_an_ascii_line() {
    let line = Line::from("abcdef");
    assert_eq!(line.get_visible_graphemes(0..6), "abcdef");
    assert_eq!(line.get_visible_graphemes(0..2), "ab");
    assert_eq!(line.get_visible_graphemes(2..4), "cd");
    assert_eq!(line.get_visible_graphemes(4..100), "ef");
    assert_eq!(line.get_visible_graphemes(6..9), "");
    assert_eq!(line.get_visible_graphemes(0..usize::MAX), "abcdef");
}

#[test]
fn empty_and_reversed_ranges_show_nothing() {
    let line = Line::from("你好");
    assert_eq!(line.get_visible_graphemes(0..0), "");
    assert_eq!(line.get_visible_graphemes(1..1), "");
    assert_eq!(line.get_visible_graphemes(3..1), "");
}

#[test]
fn halved_wide_grapheme_is_drawn_as_ellipsis() {
    let line = Line::from("你好");
    assert_eq!(line.get_visible_graphemes(0..4), "你好");
    assert_eq!(line.get_visible_graphemes(1..4), "⋯好");
    assert_eq!(line.get_visible_graphemes(0..3), "你⋯");
    assert_eq!(line.get_visible_graphemes(1..3), "⋯⋯");
    assert_eq!(line.get_visible_graphemes(1..2), "⋯");
    assert_eq!(line.get_visible_graphemes(2..4), "好");
    assert_eq!(line.get_visible_graphemes(0..1), "⋯");
    assert_eq!(line.get_visible_graphemes(3..4), "⋯");
}

#[test]
fn halved_wide_grapheme_among_narrow_ones() {
    let line = Line::from("a你b");
    assert_eq!(line.get_visible_graphemes(0..2), "a⋯");
    assert_eq!(line.get_visible_graphemes(2..4), "⋯b");
    assert_eq!(line.get_visible_graphemes(1..3), "你");
    assert_eq!(line.get_visible_graphemes(2..3), "⋯");
}

#[test]
fn line_from_graphemes_keeps_them_in_order() {
    let line = Line::from_graphemes(vec![
        Grapheme::new(String::from("w"), 2),
        Grapheme::new(String::from("z"), 0),
        Grapheme::new(String::from("n"), 1),
    ]);
    assert_eq!(line.grapheme_count(), 3);
    assert_eq!(widths(&line), vec![0, 2, 3, 4, 4]);
    assert_eq!(line.get_visible_graphemes(0..4), "w·n");
    assert_eq!(line.get_visible_graphemes(1..4), "⋯·n");
    assert_eq!(line.get_visible_graphemes(2..3), "·");
}

#[test]
fn contents_of_a_line_joined_give_the_text() {
    for text in ["", "plain", "a\u{310}e\u{301}", "a\r\nb🇷🇺🇸🇹", "你好, world", "\u{200b}x"] {
        let line = Line::from(text);
        let mut joined = String::new();
        for index in 0..line.grapheme_count() {
            let content = line.grapheme(index).unwrap().content();
            assert!(!content.is_empty());
            joined.push_str(content);
        }
        assert_eq!(joined, text);
    }
}
