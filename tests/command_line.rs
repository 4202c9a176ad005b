use fss::cli::{parse_args, parse_u64, ArgError};
use fss::config::SearchMode;
use fss::time::modified_text;

fn args(a: &[&str]) -> Vec<String> {
    a.iter().map(|s| s.to_string()).collect()
}

#[test]
fn two_search_modes_are_refused() {
    let r = parse_args(&args(&["-S", "pattern1", "--contains", "pattern2"]));
    assert!(matches!(r.outcome, Err(ArgError::ConflictingSearch)));
    let r = parse_args(&args(&["--contains", "b", ".", "--search-noext", "a"]));
    assert!(matches!(r.outcome, Err(ArgError::ConflictingSearch)));
}

#[test]
fn search_flag_needs_a_pattern() {
    let r = parse_args(&args(&["-r", "--search"]));
    match r.outcome {
        Err(ArgError::MissingPattern(f)) => assert_eq!(f, "--search"),
        _ => panic!("expected a missing pattern"),
    }
}

#[test]
fn flags_and_path() {
    let r = parse_args(&args(&["/tmp", "-r", "3", "-f", "-l", "-s", "-d", "-a", "-e", "-p", "-t", "-x"]));
    let o = match r.outcome {
        Ok(o) => o,
        Err(_) => panic!("expected options"),
    };
    assert_eq!(o.path, "/tmp");
    assert!(o.config.recursive && o.config.max_depth == 3);
    assert!(o.config.files && o.config.symlinks && o.config.special);
    assert!(o.config.dir_size && o.config.absolute && o.config.errors);
    assert!(o.config.permissions && o.config.modified);
    assert!(o.search.is_none() && !o.help);
    assert_eq!(r.notices, vec!["Ignoring unknown option -x".to_string()]);
}

#[test]
fn bad_depth_turns_recursion_off() {
    let r = parse_args(&args(&["--recursive", "abc"]));
    let o = r.outcome.ok().unwrap();
    assert!(!o.config.recursive);
    assert_eq!(r.notices, vec!["Could not convert \"abc\" to an integer".to_string(), "Ignoring recursive option".to_string()]);
    let r = parse_args(&args(&["-r", "0"]));
    assert!(!r.outcome.ok().unwrap().config.recursive);
    assert_eq!(r.notices[0], "Maximum recursion depth must be greater than 0!");
    let r = parse_args(&args(&["-r", "-f", "dir"]));
    let o = r.outcome.ok().unwrap();
    assert!(o.config.recursive && o.config.max_depth == 0);
    assert_eq!(o.path, "dir");
}

#[test]
fn search_pattern_and_help() {
    let r = parse_args(&args(&["--search-noext", "foo", "-h"]));
    let o = r.outcome.ok().unwrap();
    assert_eq!(o.search, Some(SearchMode::Stem));
    assert_eq!(o.pattern, "foo");
    assert_eq!(o.path, ".");
    assert!(o.help);
}

#[test]
fn long_path_is_truncated() {
    let long = "a".repeat(300);
    let r = parse_args(&args(&[&long]));
    assert_eq!(r.outcome.ok().unwrap().path, "a".repeat(256));
}

#[test]
fn empty_argument_is_ignored() {
    let r = parse_args(&args(&[""]));
    assert!(r.outcome.is_ok());
    assert_eq!(r.notices, vec!["Ignoring Unknown Option of length 0".to_string()]);
}

#[test]
fn decimal_parsing() {
    assert_eq!(parse_u64("42"), Some(42));
    assert_eq!(parse_u64("+7"), Some(7));
    assert_eq!(parse_u64("18446744073709551615"), Some(u64::MAX));
    assert_eq!(parse_u64("18446744073709551616"), None);
    assert_eq!(parse_u64(""), None);
    assert_eq!(parse_u64("+"), None);
    assert_eq!(parse_u64("-1"), None);
    assert_eq!(parse_u64("4a"), None);
}

#[test]
fn modification_time_is_formatted() {
    let t = modified_text(1_700_000_000, 0).unwrap();
    assert_ne!(t, "%b %d %Y  %H:%M");
    assert_eq!(t.chars().count(), 18);
    assert!(t.contains("2023"));
    assert!(modified_text(i64::MAX, 0).is_none());
}

#[test]
fn modification_time_range_edges() {
    assert!(modified_text(8210266876799, 0).is_some());
    assert!(modified_text(8210266876800, 0).is_none());
    assert!(modified_text(-8334601228800, 0).is_some());
    assert!(modified_text(-8334601228801, 0).is_none());
    assert!(modified_text(0, 999_999_999).is_some());
    assert!(modified_text(0, 1_000_000_000).is_none());
    assert!(modified_text(59, 1_500_000_000).is_some());
    assert!(modified_text(59, 2_000_000_000).is_none());
}

#[test]
fn refusal_messages() {
    let r = parse_args(&args(&["-S"]));
    assert_eq!(r.outcome.err().unwrap().describe(), "No Search Pattern provided after -S flag\n");
    let r = parse_args(&args(&["-S", "a", "--contains", "b"]));
    assert_eq!(r.outcome.err().unwrap().describe(), "Can only set one search mode at a time\nTerminating...");
}
