use rust_minicat::cli::{config_from_flags, ArgsError, Config};
use rust_minicat::lines::{decimal_string, number_lines, prefix_line, LineCounter};

fn config(count_lines: bool, nonblank_number: bool) -> Config {
    match config_from_flags(vec!["f".to_string()], count_lines, nonblank_number) {
        Ok(c) => c,
        Err(e) => panic!("unexpected {:?}", e),
    }
}

fn strings(v: &[&str]) -> Vec<String> {
    v.iter().map(|s| s.to_string()).collect()
}

#[test]
fn number_all_prefixes_one_to_n() {
    let out = number_lines(&config(true, false), &strings(&["alpha", "", "gamma"]));
    assert_eq!(out, strings(&["1\talpha", "2\t", "3\tgamma"]));
}

#[test]
fn number_all_counts_past_ten() {
    let lines: Vec<String> = (0..12).map(|i| format!("l{}", i)).collect();
    let out = number_lines(&config(true, false), &lines);
    assert_eq!(out.len(), 12);
    assert_eq!(out[9], "10\tl9");
    assert_eq!(out[11], "12\tl11");
}

#[test]
fn number_nonblank_skips_blank_lines() {
    let out = number_lines(&config(false, true), &strings(&["a", "", "b", "", "", "c"]));
    assert_eq!(out, strings(&["1\ta", "", "2\tb", "", "", "3\tc"]));
}

#[test]
fn number_nonblank_leading_blanks() {
    let out = number_lines(&config(false, true), &strings(&["", "", "x"]));
    assert_eq!(out, strings(&["", "", "1\tx"]));
}

#[test]
fn no_flags_is_verbatim() {
    let input = strings(&["one", "", "  two\t", "-n"]);
    let out = number_lines(&config(false, false), &input);
    assert_eq!(out, input);
}

#[test]
fn empty_source_prints_nothing() {
    for (n, b) in [(false, false), (true, false), (false, true)] {
        assert!(number_lines(&config(n, b), &Vec::new()).is_empty());
    }
}

#[test]
fn counter_restarts_per_source() {
    let cfg = config(true, false);
    let mut first = LineCounter::new();
    assert_eq!(first.feed(&cfg, &"a".to_string()), "1\ta");
    assert_eq!(first.feed(&cfg, &"b".to_string()), "2\tb");
    let mut second = LineCounter::new();
    assert!(second.has_room());
    assert_eq!(second.feed(&cfg, &"c".to_string()), "1\tc");
}

#[test]
fn counter_nonblank_matches_batch() {
    let cfg = config(false, true);
    let input = strings(&["", "p", "", "q"]);
    let mut counter = LineCounter::new();
    let streamed: Vec<String> = input.iter().map(|l| counter.feed(&cfg, l)).collect();
    assert_eq!(streamed, number_lines(&cfg, &input));
}

#[test]
fn decimal_spelling() {
    assert_eq!(decimal_string(0), "0");
    assert_eq!(decimal_string(7), "7");
    assert_eq!(decimal_string(10), "10");
    assert_eq!(decimal_string(1234), "1234");
    assert_eq!(decimal_string(usize::MAX), usize::MAX.to_string());
}

#[test]
fn prefix_line_puts_number_and_tab() {
    assert_eq!(prefix_line(42, "text"), "42\ttext");
    assert_eq!(prefix_line(1, ""), "1\t");
}

#[test]
fn both_flags_conflict() {
    assert!(matches!(
        config_from_flags(vec![], true, true),
        Err(ArgsError::ConflictingFlags)
    ));
}

#[test]
fn skipped_line_keeps_its_number() {
    let all = config(true, false);
    let mut counter = LineCounter::new();
    assert_eq!(counter.feed(&all, &"a".to_string()), "1\ta");
    counter.skip();
    assert_eq!(counter.feed(&all, &"c".to_string()), "3\tc");

    let nonblank = config(false, true);
    let mut counter = LineCounter::new();
    assert_eq!(counter.feed(&nonblank, &"".to_string()), "");
    counter.skip();
    assert_eq!(counter.feed(&nonblank, &"x".to_string()), "2\tx");
}
