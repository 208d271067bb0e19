use mail_tui::text::{contains_folded, contains_ignore_case, decimal_string, split_lines};

#[test]
fn decimal_numerals() {
    assert_eq!(decimal_string(0), "0");
    assert_eq!(decimal_string(7), "7");
    assert_eq!(decimal_string(9), "9");
    assert_eq!(decimal_string(10), "10");
    assert_eq!(decimal_string(42), "42");
    assert_eq!(decimal_string(100), "100");
    assert_eq!(decimal_string(1234567890), "1234567890");
    assert_eq!(decimal_string(usize::MAX), usize::MAX.to_string());
}

#[test]
fn containment_ignores_case() {
    assert!(contains_ignore_case("Team Meeting - Tomorrow", "team"));
    assert!(contains_ignore_case("team-lead@company.com", "TEAM"));
    assert!(contains_ignore_case("Team Meeting", "m m"));
    assert!(contains_ignore_case("Team Meeting", ""));
    assert!(contains_ignore_case("", ""));
    assert!(!contains_ignore_case("", "a"));
    assert!(!contains_ignore_case("Team Meeting", "zzz"));
    assert!(!contains_ignore_case("Team", "Teams"));
    assert!(contains_ignore_case("STRASSE", "strasse"));
}

#[test]
fn containment_folds_each_side_on_its_own() {
    // A capital sigma at the end of a word folds to a final sigma; alone it
    // folds to a plain one.
    assert!(!contains_ignore_case("\u{391}\u{3a3}", "\u{3a3}"));
    assert!(contains_ignore_case("\u{391}\u{3a3}", "\u{391}\u{3a3}"));
    assert!(contains_ignore_case("\u{391}\u{3a3}", "\u{3b1}\u{3c2}"));
}

#[test]
fn lines_end_at_line_feeds() {
    assert_eq!(split_lines("one\ntwo\nthree"), vec!["one", "two", "three"]);
    assert_eq!(split_lines("one\ntwo\n"), vec!["one", "two"]);
    assert_eq!(split_lines("one\n\ntwo"), vec!["one", "", "two"]);
    assert_eq!(split_lines("\n"), vec![""]);
    assert_eq!(split_lines("\n\n"), vec!["", ""]);
    assert_eq!(split_lines(""), Vec::<String>::new());
    assert_eq!(split_lines("single"), vec!["single"]);
}

#[test]
fn lines_drop_a_carriage_return_before_a_line_feed() {
    assert_eq!(split_lines("one\r\ntwo\r\n"), vec!["one", "two"]);
    assert_eq!(split_lines("one\r\ntwo\r"), vec!["one", "two\r"]);
    assert_eq!(split_lines("one\rtwo\n"), vec!["one\rtwo"]);
    assert_eq!(split_lines("one\r\r\n"), vec!["one\r"]);
    assert_eq!(split_lines("\r\n"), vec![""]);
    assert_eq!(split_lines("\r"), vec!["\r"]);
}

#[test]
fn lines_agree_with_the_standard_library() {
    let texts = [
        "",
        "a",
        "a\n",
        "\na",
        "a\r\nb",
        "a\n\r\nb\r",
        "\r\r\n\n\r",
        "Dear Team,\n\nPlease plan your work accordingly.\n\nIT Support Team",
        "gr\u{fc}\u{df}e\r\n\u{2014}\n",
    ];
    for text in texts {
        let expected: Vec<String> = text.lines().map(|line| line.to_string()).collect();
        assert_eq!(split_lines(text), expected);
    }
}

#[test]
fn containment_of_a_folded_needle() {
    assert!(contains_folded("Team Meeting", "team"));
    assert!(contains_folded("TEAM MEETING", "m m"));
    assert!(contains_folded("Team Meeting", ""));
    // The needle is taken as it is: only the haystack is folded.
    assert!(!contains_folded("Team Meeting", "Team"));
    assert!(!contains_folded("team", "teams"));
}
