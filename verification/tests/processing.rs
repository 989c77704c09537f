use nl::config::Config;
use nl::processor::{initial_state, number_lines, process_line_checked};
use nl::style::NumberStyle;

fn run(cfg: &Config, lines: &[&str]) -> Vec<String> {
    let owned: Vec<String> = lines.iter().map(|s| s.to_string()).collect();
    number_lines(cfg, &owned).expect("run stays within integer limits")
}

#[test]
fn default_numbers_nonempty_body_lines() {
    let cfg = Config::default();
    let out = run(&cfg, &["hello", "", "world"]);
    assert_eq!(out, vec!["     1\thello", "      ", "     2\tworld"]);
}

#[test]
fn one_output_line_per_input_line() {
    let cfg = Config::default();
    let input = ["a", "", "\\:\\:", "b", "\\:", "", "c"];
    let out = run(&cfg, &input);
    assert_eq!(out.len(), input.len());
}

#[test]
fn header_delimiter_switches_section_and_resets() {
    let cfg = Config::default();
    let out = run(&cfg, &["alpha", "\\:\\:\\:", "beta"]);
    assert_eq!(out[0], "     1\talpha");
    assert_eq!(out[1], "");
    assert_eq!(out[2], "      beta");
}

#[test]
fn delimiter_resets_counter_by_default() {
    let cfg = Config::default();
    let out = run(&cfg, &["a", "b", "\\:\\:", "c"]);
    assert_eq!(out, vec!["     1\ta", "     2\tb", "", "     1\tc"]);
}

#[test]
fn reset_suppression_keeps_counter_across_sections() {
    let mut cfg = Config::default();
    cfg.no_renumber = true;
    let out = run(&cfg, &["a", "b", "\\:\\:", "c"]);
    assert_eq!(out, vec!["     1\ta", "     2\tb", "", "     3\tc"]);
}

#[test]
fn footer_and_header_delimiters_switch_styles() {
    let mut cfg = Config::default();
    cfg.header_style = NumberStyle::All;
    cfg.footer_style = NumberStyle::Never;
    let out = run(&cfg, &["\\:\\:\\:", "h", "\\:", "f", "\\:\\:", "b"]);
    assert_eq!(out, vec!["", "     1\th", "", "      f", "", "     1\tb"]);
}

#[test]
fn pattern_style_numbers_matching_lines() {
    let mut cfg = Config::default();
    cfg.body_style = NumberStyle::pattern("^#").expect("pattern compiles");
    let out = run(&cfg, &["#one", "two", "#three"]);
    assert_eq!(out, vec!["     1\t#one", "      two", "     2\t#three"]);
}

#[test]
fn pattern_style_matches_anywhere_in_line() {
    let mut cfg = Config::default();
    cfg.body_style = NumberStyle::pattern("ell").expect("pattern compiles");
    let out = run(&cfg, &["hello", "world"]);
    assert_eq!(out, vec!["     1\thello", "      world"]);
}

#[test]
fn invalid_pattern_is_rejected_at_configuration_time() {
    assert!(NumberStyle::pattern("foo(bar").is_none());
    assert!(NumberStyle::pattern("[").is_none());
    assert!(NumberStyle::pattern("^#").is_some());
}

#[test]
fn blank_grouping_numbers_every_nth_blank() {
    let mut cfg = Config::default();
    cfg.body_style = NumberStyle::All;
    cfg.join_blank = 3;
    let out = run(&cfg, &["", "", "", "", "", "", "x"]);
    assert_eq!(
        out,
        vec![
            "      ",
            "      ",
            "     1\t",
            "      ",
            "      ",
            "     2\t",
            "     3\tx"
        ]
    );
}

#[test]
fn nonblank_line_restarts_blank_group() {
    let mut cfg = Config::default();
    cfg.body_style = NumberStyle::All;
    cfg.join_blank = 2;
    let out = run(&cfg, &["", "a", "", "", "b"]);
    assert_eq!(
        out,
        vec!["      ", "     1\ta", "      ", "     2\t", "     3\tb"]
    );
}

#[test]
fn blank_lines_not_numbered_under_other_styles() {
    let mut cfg = Config::default();
    cfg.body_style = NumberStyle::NonEmpty;
    cfg.join_blank = 1;
    let out = run(&cfg, &["", "", "a"]);
    assert_eq!(out, vec!["      ", "      ", "     1\ta"]);
}

#[test]
fn unnumbered_lines_carry_width_spaces_and_no_separator() {
    let mut cfg = Config::default();
    cfg.number_width = 3;
    cfg.body_style = NumberStyle::Never;
    let out = run(&cfg, &["text"]);
    assert_eq!(out, vec!["   text"]);
}

#[test]
fn custom_separator_start_and_increment() {
    let mut cfg = Config::default();
    cfg.separator = ": ".to_string();
    cfg.start_number = 10;
    cfg.increment = 5;
    cfg.number_width = 2;
    let out = run(&cfg, &["a", "b", "c"]);
    assert_eq!(out, vec!["10: a", "15: b", "20: c"]);
}

#[test]
fn custom_delimiter_base() {
    let mut cfg = Config::default();
    cfg.section_delimiter = ['+', '-'];
    let out = run(&cfg, &["a", "+-+-+-", "h", "+-+-", "b"]);
    assert_eq!(out, vec!["     1\ta", "", "      h", "", "     1\tb"]);
}

#[test]
fn negative_increment_counts_down() {
    let mut cfg = Config::default();
    cfg.start_number = 3;
    cfg.increment = -1;
    cfg.number_width = 2;
    let out = run(&cfg, &["a", "b", "c"]);
    assert_eq!(out, vec![" 3\ta", " 2\tb", " 1\tc"]);
}

#[test]
fn counter_overflow_is_reported() {
    let mut cfg = Config::default();
    cfg.start_number = i64::MAX;
    cfg.increment = 1;
    let owned: Vec<String> = vec!["a".to_string(), "b".to_string()];
    assert!(number_lines(&cfg, &owned).is_none());
}

#[test]
fn counter_underflow_is_reported() {
    let mut cfg = Config::default();
    cfg.start_number = i64::MIN;
    cfg.increment = -1;
    let owned: Vec<String> = vec!["a".to_string(), "b".to_string()];
    assert!(number_lines(&cfg, &owned).is_none());
}

#[test]
fn streaming_matches_batch_processing() {
    let mut cfg = Config::default();
    cfg.body_style = NumberStyle::All;
    cfg.join_blank = 2;
    let input = ["a", "", "", "\\:", "f", "\\:\\:\\:", "h", "\\:\\:", "b"];
    let batch = run(&cfg, &input);
    let mut st = initial_state(&cfg);
    for (k, line) in input.iter().enumerate() {
        let out = process_line_checked(&cfg, &mut st, line).expect("step fits");
        assert_eq!(out, batch[k]);
    }
}
