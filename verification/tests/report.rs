use deepfake::report_line;

fn formatted(file_name: &str, score: f64) -> String {
    format!("{}  score = {:.4}", file_name, score)
}

#[test]
fn line_is_name_two_spaces_and_score() {
    assert_eq!(report_line("a.jpg", "1.5000"), "a.jpg  score = 1.5000");
    assert_eq!(report_line("a.jpg", "1.5000"), formatted("a.jpg", 1.5));
    assert_eq!(report_line("a.jpg", "1.5000").chars().count(), 21);
}

#[test]
fn short_name_is_not_padded() {
    assert_eq!(report_line("x", "0.0000"), "x  score = 0.0000");
    assert_eq!(report_line("x", "0.0000"), formatted("x", 0.0));
}

#[test]
fn name_of_twenty_characters_is_kept_as_it_is() {
    let name = "abcdefghijklmnop.jpg";
    assert_eq!(name.chars().count(), 20);
    assert_eq!(report_line(name, "0.0000"), "abcdefghijklmnop.jpg  score = 0.0000");
    assert_eq!(report_line(name, "0.0000"), formatted(name, 0.0));
}

#[test]
fn long_name_is_kept_whole() {
    let name = "a_rather_long_file_name_for_an_image.jpg";
    assert_eq!(
        report_line(name, "3.0000"),
        "a_rather_long_file_name_for_an_image.jpg  score = 3.0000"
    );
    assert_eq!(report_line(name, "3.0000"), formatted(name, 3.0));
}

#[test]
fn empty_name_leaves_the_rest_of_the_line() {
    assert_eq!(report_line("", "0.1235"), "  score = 0.1235");
    assert_eq!(report_line("", "0.1235"), formatted("", 0.12345));
}

#[test]
fn name_with_wide_characters_is_kept_as_it_is() {
    let name = "caf\u{e9}_\u{65e5}\u{672c}.jpg";
    let line = report_line(name, "12.3457");
    assert_eq!(line, formatted(name, 12.345678));
    assert_eq!(line.chars().count(), name.chars().count() + "  score = 12.3457".len());
    assert!(line.starts_with(name));
}

#[test]
fn name_with_spaces_keeps_them() {
    assert_eq!(report_line(" a b ", "1.0000"), " a b   score = 1.0000");
}

#[test]
fn score_text_is_appended_as_given() {
    assert_eq!(report_line("x", ""), "x  score = ");
    assert_eq!(report_line("x", "inf"), formatted("x", f64::INFINITY));
    assert_eq!(report_line("x", "1000000000.0000"), formatted("x", 1e9));
}

#[test]
fn score_is_written_to_four_decimal_places() {
    assert_eq!(formatted("f.jpg", 2.99999999925), "f.jpg  score = 3.0000");
    assert_eq!(report_line("f.jpg", &format!("{:.4}", 0.123449)), "f.jpg  score = 0.1234");
    assert_eq!(report_line("f.jpg", &format!("{:.4}", 7.0)), "f.jpg  score = 7.0000");
}
