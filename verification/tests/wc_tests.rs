use wc::metrics::{get_bytes, get_lines, get_words, FileContents};
use wc::record::{mconcat, FileInformation};
use wc::report::{report_line, usize_to_string};

fn contents(s: &str) -> FileContents {
    FileContents(s.to_string())
}

fn empty_record() -> FileInformation {
    FileInformation { file_name: None, bytes: None, lines: None, words: None }
}

#[test]
fn byte_count_ascii() {
    let r = get_bytes(&contents("abc"));
    assert_eq!(r.bytes, Some(3));
    assert_eq!(r.file_name, None);
    assert_eq!(r.lines, None);
    assert_eq!(r.words, None);
}

#[test]
fn byte_count_counts_encoded_bytes() {
    // A two-byte UTF-8 character counts as two bytes, not one character.
    let r = get_bytes(&contents("é"));
    assert_eq!(r.bytes, Some(2));
}

#[test]
fn line_count_empty_is_one() {
    let r = get_lines(&contents(""));
    assert_eq!(r.lines, Some(1));
    assert_eq!(r.bytes, None);
    assert_eq!(r.words, None);
    assert_eq!(r.file_name, None);
}

#[test]
fn line_count_is_one_more_than_newlines() {
    assert_eq!(get_lines(&contents("hello world\nfoo\n")).lines, Some(3));
    assert_eq!(get_lines(&contents("a\nb")).lines, Some(2));
    assert_eq!(get_lines(&contents("\n\n")).lines, Some(3));
}

#[test]
fn word_count_whitespace_delimited_tokens() {
    assert_eq!(get_words(&contents("  a  b c ")).words, Some(3));
    assert_eq!(get_words(&contents("")).words, Some(0));
    assert_eq!(get_words(&contents("   ")).words, Some(0));
    assert_eq!(get_words(&contents("one")).words, Some(1));
}

#[test]
fn word_count_mixed_whitespace() {
    assert_eq!(get_words(&contents("a\tb\nc")).words, Some(3));
    assert_eq!(get_words(&contents("hello world\nfoo\n")).words, Some(3));
}

#[test]
fn word_count_unicode_whitespace_separates() {
    // No-break space, em space, line separator and ideographic space all
    // delimit words, exactly as str::split_whitespace does.
    assert_eq!(get_words(&contents("\u{a0}")).words, Some(0));
    assert_eq!(get_words(&contents("a\u{a0}b")).words, Some(2));
    assert_eq!(get_words(&contents("\u{2003}x\u{2028}y\u{3000}")).words, Some(2));
    assert_eq!(get_words(&contents("\u{85}\u{1680}\u{202f}\u{205f}")).words, Some(0));
}

#[test]
fn word_count_non_whitespace_unicode_is_word_material() {
    // A zero-width space is not Unicode whitespace and must not split.
    assert_eq!(get_words(&contents("a\u{200b}b")).words, Some(1));
    assert_eq!(get_words(&contents("héllo wörld")).words, Some(2));
}

#[test]
fn word_count_agrees_with_split_whitespace() {
    let samples = [
        "",
        "  a  b c ",
        "a\u{a0}b\u{2003}c",
        "\u{2028}one\u{2029}two\u{2028}",
        "tab\tand\u{b}odd\u{c}spaces\r\n",
        "\u{3000}\u{3000}wide\u{3000}",
    ];
    for s in samples {
        let expected = s.split_whitespace().count();
        assert_eq!(get_words(&contents(s)).words, Some(expected));
    }
}

#[test]
fn merge_is_left_biased() {
    let left = FileInformation { bytes: Some(5), ..empty_record() };
    let right = FileInformation { bytes: Some(9), ..empty_record() };
    let merged = left.concat(right);
    assert_eq!(merged.bytes, Some(5));
    assert_eq!(merged.lines, None);
    assert_eq!(merged.words, None);
    assert_eq!(merged.file_name, None);
}

#[test]
fn merge_empty_is_left_identity() {
    let r = FileInformation {
        file_name: Some("t.txt".to_string()),
        bytes: Some(1),
        lines: Some(2),
        words: Some(3),
    };
    let merged = empty_record().concat(r);
    assert_eq!(merged.file_name, Some("t.txt".to_string()));
    assert_eq!(merged.bytes, Some(1));
    assert_eq!(merged.lines, Some(2));
    assert_eq!(merged.words, Some(3));
}

#[test]
fn merge_empty_is_right_identity() {
    let r = FileInformation {
        file_name: Some("t.txt".to_string()),
        bytes: Some(1),
        lines: Some(2),
        words: Some(3),
    };
    let merged = r.concat(empty_record());
    assert_eq!(merged.file_name, Some("t.txt".to_string()));
    assert_eq!(merged.bytes, Some(1));
    assert_eq!(merged.lines, Some(2));
    assert_eq!(merged.words, Some(3));
}

#[test]
fn merge_is_associative_on_overlap() {
    let make = |b: usize, l: usize| FileInformation {
        bytes: Some(b),
        lines: Some(l),
        ..empty_record()
    };
    let left_first = make(1, 7).concat(make(2, 8)).concat(make(3, 9));
    let right_first = make(1, 7).concat(make(2, 8).concat(make(3, 9)));
    assert_eq!(left_first.bytes, right_first.bytes);
    assert_eq!(left_first.lines, right_first.lines);
    assert_eq!(left_first.bytes, Some(1));
    assert_eq!(left_first.lines, Some(7));
}

#[test]
fn mconcat_combines_disjoint_partials() {
    let fc = contents("hello world\nfoo\n");
    let name = FileInformation { file_name: Some("t.txt".to_string()), ..empty_record() };
    let merged = mconcat(vec![name, get_bytes(&fc), get_lines(&fc), get_words(&fc)]);
    assert_eq!(merged.file_name, Some("t.txt".to_string()));
    assert_eq!(merged.bytes, Some(16));
    assert_eq!(merged.lines, Some(3));
    assert_eq!(merged.words, Some(3));
}

#[test]
fn mconcat_of_nothing_is_empty() {
    let merged = mconcat(vec![]);
    assert_eq!(merged.file_name, None);
    assert_eq!(merged.bytes, None);
    assert_eq!(merged.lines, None);
    assert_eq!(merged.words, None);
}

#[test]
fn decimal_rendering_exact() {
    assert_eq!(usize_to_string(0), "0");
    assert_eq!(usize_to_string(7), "7");
    assert_eq!(usize_to_string(10), "10");
    assert_eq!(usize_to_string(1234567890), "1234567890");
}

#[test]
fn render_orders_lines_words_bytes_name() {
    let r = FileInformation {
        file_name: Some("t.txt".to_string()),
        bytes: Some(16),
        lines: Some(3),
        words: Some(3),
    };
    assert_eq!(r.render(), "3 3 16 t.txt");
}

#[test]
fn render_blanks_absent_fields() {
    let r = FileInformation { file_name: Some("t.txt".to_string()), ..empty_record() };
    assert_eq!(r.render(), "   t.txt");
}

#[test]
fn scenario_all_flags() {
    let line = report_line(true, true, true, "t.txt".to_string(), &contents("hello world\nfoo\n"));
    assert_eq!(line, "3 3 16 t.txt");
}

#[test]
fn scenario_lines_only_empty_file() {
    let line = report_line(false, true, false, "t.txt".to_string(), &contents(""));
    assert_eq!(line, "1   t.txt");
}

#[test]
fn scenario_no_flags_reports_name_only() {
    let line = report_line(false, false, false, "t.txt".to_string(), &contents("anything"));
    assert_eq!(line, "   t.txt");
}
