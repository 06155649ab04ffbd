//! The prompt-side decisions: numeral validation for the season and
//! episode answers, and assembly of the TV-show options.

use video_converter::interface::get_tv_options;
use video_converter::interface::parse_usize;

#[test]
fn parse_accepts_plain_numerals() {
    assert_eq!(parse_usize("0"), Some(0));
    assert_eq!(parse_usize("12"), Some(12));
    assert_eq!(parse_usize("007"), Some(7));
    assert_eq!(parse_usize("4294967296"), Some(4294967296));
}

#[test]
fn parse_accepts_leading_plus() {
    assert_eq!(parse_usize("+7"), Some(7));
    assert_eq!(parse_usize("+0"), Some(0));
}

#[test]
fn parse_rejects_non_numerals() {
    assert_eq!(parse_usize(""), None);
    assert_eq!(parse_usize("+"), None);
    assert_eq!(parse_usize("abc"), None);
    assert_eq!(parse_usize("12a"), None);
    assert_eq!(parse_usize("a12"), None);
    assert_eq!(parse_usize("1 2"), None);
    assert_eq!(parse_usize("-3"), None);
    assert_eq!(parse_usize("++1"), None);
    assert_eq!(parse_usize("½"), None);
}

#[test]
fn parse_matches_std_on_the_usize_boundary() {
    let max = format!("{}", usize::MAX);
    assert_eq!(parse_usize(&max), Some(usize::MAX));
    let over = format!("{}", (usize::MAX as u128) + 1);
    assert_eq!(parse_usize(&over), None);
    assert_eq!(parse_usize("999999999999999999999999999999"), None);
}

#[test]
fn tv_options_disabled_ignores_answers() {
    let opts = get_tv_options(false, None, None, None);
    assert!(!opts.enabled);
    assert_eq!(opts.title, None);
    assert_eq!(opts.season, None);
    assert_eq!(opts.episode, None);
}

#[test]
fn tv_options_enabled_carries_answers() {
    let opts = get_tv_options(true, Some("Some Show".to_string()), Some(2), Some(13));
    assert!(opts.enabled);
    assert_eq!(opts.title.as_deref(), Some("Some Show"));
    assert_eq!(opts.season, Some(2));
    assert_eq!(opts.episode, Some(13));
}
