use ddev_manager::process::{generate_process_id, ProcessIdGenerator};
use ddev_manager::text::{
    chars_of, contains, decimal_string, join, same_text, split_lines, strings,
};

#[test]
fn identifiers_count_up_from_one() {
    let mut ids = ProcessIdGenerator::new();
    assert_eq!(generate_process_id(&mut ids), "proc_1");
    assert_eq!(generate_process_id(&mut ids), "proc_2");
    assert_eq!(generate_process_id(&mut ids), "proc_3");
}

#[test]
fn identifiers_never_repeat() {
    let mut ids = ProcessIdGenerator::new();
    let mut seen: Vec<String> = Vec::new();
    for _ in 0..1200 {
        let id = generate_process_id(&mut ids);
        assert!(!seen.contains(&id), "{} was issued twice", id);
        seen.push(id);
    }
    assert_eq!(seen[9], "proc_10");
    assert_eq!(seen[99], "proc_100");
    assert_eq!(seen[1199], "proc_1200");
}

#[test]
fn identifiers_carry_over_every_digit() {
    let mut ids = ProcessIdGenerator::new();
    let mut last = String::new();
    for n in 1..=100_000u64 {
        last = generate_process_id(&mut ids);
        if n == 9 || n == 10 || n == 99 || n == 100 || n == 999 || n == 1000 || n == 9_999
            || n == 10_000 || n == 19_999 || n == 20_000 || n == 99_999
        {
            assert_eq!(last, format!("proc_{}", n));
        }
    }
    assert_eq!(last, "proc_100000");
}

#[test]
fn decimal_notation_has_no_leading_zeros() {
    assert_eq!(decimal_string(0), "0");
    assert_eq!(decimal_string(7), "7");
    assert_eq!(decimal_string(10), "10");
    assert_eq!(decimal_string(4096), "4096");
    assert_eq!(decimal_string(u64::MAX), "18446744073709551615");
}

#[test]
fn join_puts_the_separator_between_parts() {
    assert_eq!(join(&strings(&[]), " "), "");
    assert_eq!(join(&strings(&["start"]), " "), "start");
    assert_eq!(join(&strings(&["start", "shop"]), " "), "start shop");
    assert_eq!(join(&strings(&["a", "", "c"]), ":"), "a::c");
}

#[test]
fn same_text_compares_characters() {
    assert!(same_text("running", "running"));
    assert!(!same_text("running", "Running"));
    assert!(!same_text("running", "runnin"));
    assert!(same_text("", ""));
}

#[test]
fn lines_end_at_line_feeds() {
    let cases = [
        "",
        "a",
        "a\n",
        "a\nb",
        "a\r\nb\r\n",
        "\n",
        "\n\n",
        "a\n\nb",
        "a\r",
        "a\rb\n",
        "\r\n",
        "\r",
        "one\ntwo\r\nthree",
        "tr\u{e4}gt \u{1f600}\nzwei\r\n",
        "x\r\r\n",
    ];
    for text in cases {
        let expected: Vec<String> = text.lines().map(|l| l.to_string()).collect();
        assert_eq!(split_lines(text), expected, "lines of {:?}", text);
    }
    assert_eq!(split_lines("a\r\nb\n"), strings(&["a", "b"]));
    assert_eq!(split_lines("a\n\nb"), strings(&["a", "", "b"]));
    assert_eq!(split_lines("a\r"), strings(&["a\r"]));
    assert!(split_lines("").is_empty());
}

#[test]
fn contains_finds_a_part_anywhere() {
    assert!(contains("xdebug enabled", "xdebug enabled"));
    assert!(contains("is xdebug enabled?", "xdebug enabled"));
    assert!(contains("abc", ""));
    assert!(contains("", ""));
    assert!(contains("abc", "c"));
    assert!(contains("abc", "a"));
    assert!(contains("aab", "ab"));
    assert!(contains("gr\u{fc}\u{df}e", "\u{fc}\u{df}"));
    assert!(!contains("abc", "abcd"));
    assert!(!contains("abc", "ac"));
    assert!(!contains("", "a"));
    assert!(!contains("xdebug enable", "xdebug enabled"));
}

#[test]
fn characters_one_by_one() {
    assert_eq!(chars_of("a\u{e4}\u{1f600}"), vec!['a', '\u{e4}', '\u{1f600}']);
    assert!(chars_of("").is_empty());
}
