use fsm_core::file_ops::CommandArg;
use fsm_core::search::{parse_u32, RawSearchResult};
use std::path::PathBuf;

#[test]
fn ansi_codes_are_stripped() {
    assert_eq!(RawSearchResult::strip_ansi_codes("\x1b[35msrc/main.rs\x1b[0m"), "src/main.rs");
    assert_eq!(RawSearchResult::strip_ansi_codes("\x1b[1;32m12\x1b[0m:fn x"), "12:fn x");
    assert_eq!(RawSearchResult::strip_ansi_codes("plain"), "plain");
    assert_eq!(RawSearchResult::strip_ansi_codes("a\x1bXb"), "ab");
    assert_eq!(RawSearchResult::strip_ansi_codes("a\x1b[12"), "a");
    assert_eq!(RawSearchResult::strip_ansi_codes("end\x1b"), "end");
}

#[test]
fn unsigned_parsing_follows_std() {
    for s in ["0", "42", "+7", "4294967295", "4294967296", "", "+", "-1", " 1", "12a", "007"] {
        let cs: Vec<char> = s.chars().collect();
        assert_eq!(parse_u32(&cs), s.parse::<u32>().ok(), "input {s:?}");
    }
}

#[test]
fn complete_lines_name_file_and_line() {
    assert_eq!(
        RawSearchResult::parse_file_info("src/main.rs:12:fn main() {"),
        Some((PathBuf::from("src/main.rs"), Some(12)))
    );
    assert_eq!(
        RawSearchResult::parse_file_info("\x1b[35msrc/lib.rs\x1b[0m:\x1b[32m3\x1b[0m:use x;"),
        Some((PathBuf::from("src/lib.rs"), Some(3)))
    );
    assert_eq!(RawSearchResult::parse_file_info("a.rs:x:y"), Some((PathBuf::from("a.rs"), None)));
    assert_eq!(RawSearchResult::parse_file_info("src/main.rs"), Some((PathBuf::from("src/main.rs"), None)));
    assert_eq!(RawSearchResult::parse_file_info("12:content"), None);
    assert_eq!(RawSearchResult::parse_file_info("notes:content"), Some((PathBuf::from("notes"), None)));
    assert_eq!(RawSearchResult::parse_file_info("   "), None);
    assert_eq!(RawSearchResult::parse_file_info("--"), None);
}

#[test]
fn relative_files_are_resolved_against_the_base() {
    let base = PathBuf::from("/proj");
    assert_eq!(
        RawSearchResult::parse_file_info_with_base("src/a.rs:4:x", &base),
        Some((PathBuf::from("/proj/src/a.rs"), Some(4)))
    );
    assert_eq!(
        RawSearchResult::parse_file_info_with_base("/abs/a.rs:4:x", &base),
        Some((PathBuf::from("/abs/a.rs"), Some(4)))
    );
    assert_eq!(RawSearchResult::parse_file_info_with_base("4:x", &base), None);
}

#[test]
fn heading_output_is_read_with_its_context() {
    let base = PathBuf::from("/proj");
    let mut current: Option<PathBuf> = None;
    assert_eq!(RawSearchResult::parse_heading_line_with_context("12:orphan", &mut current, &base), None);
    assert_eq!(
        RawSearchResult::parse_heading_line_with_context("\x1b[35msrc/a.rs\x1b[0m", &mut current, &base),
        Some((PathBuf::from("/proj/src/a.rs"), None))
    );
    assert_eq!(current, Some(PathBuf::from("/proj/src/a.rs")));
    assert_eq!(
        RawSearchResult::parse_heading_line_with_context("7:let x = 1;", &mut current, &base),
        Some((PathBuf::from("/proj/src/a.rs"), Some(7)))
    );
    assert_eq!(RawSearchResult::parse_heading_line_with_context("6-context", &mut current, &base), None);
    assert_eq!(RawSearchResult::parse_heading_line_with_context("8+", &mut current, &base), None);
    assert_eq!(RawSearchResult::parse_heading_line_with_context("--", &mut current, &base), None);
    assert_eq!(current, Some(PathBuf::from("/proj/src/a.rs")));
    assert_eq!(
        RawSearchResult::parse_heading_line_with_context("/etc/b.conf", &mut current, &base),
        Some((PathBuf::from("/etc/b.conf"), None))
    );
    assert_eq!(current, Some(PathBuf::from("/etc/b.conf")));
}

#[test]
fn ripgrep_command_and_report() {
    let args = RawSearchResult::ripgrep_args("needle");
    assert_eq!(args.len(), 7);
    assert_eq!(args[0], CommandArg::Literal("--line-number".into()));
    assert_eq!(args[5], CommandArg::Literal("needle".into()));
    assert_eq!(args[6], CommandArg::SearchPath);
    assert!(RawSearchResult::exit_is_success(true, Some(0)));
    assert!(RawSearchResult::exit_is_success(false, Some(1)));
    assert!(!RawSearchResult::exit_is_success(false, Some(2)));
    assert!(!RawSearchResult::exit_is_success(false, None));
    assert_eq!(RawSearchResult::found_message(3), "found 3 line(s) matching pattern");
}
