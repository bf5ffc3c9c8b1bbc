use bracket_arb::config::{
    default_max_brackets, default_min_brackets, default_scan_delay_ms, default_series_cache_secs,
    is_dry_run, ScannerConfig,
};

#[test]
fn defaults_of_the_scanner() {
    assert_eq!(default_scan_delay_ms(), 150);
    assert_eq!(default_min_brackets(), 2);
    assert_eq!(default_max_brackets(), 15);
    assert_eq!(default_series_cache_secs(), 300);
    let cfg = ScannerConfig::with_defaults(30);
    assert_eq!(cfg.interval_secs, 30);
    assert!(cfg.series_filter.is_empty());
    assert_eq!(cfg.scan_delay_ms, 150);
    assert_eq!(cfg.min_brackets, 2);
    assert_eq!(cfg.max_brackets, 15);
    assert_eq!(cfg.series_cache_secs, 300);
}

#[test]
fn dry_run_is_true_or_one() {
    assert!(is_dry_run(Some("true")));
    assert!(is_dry_run(Some("TRUE")));
    assert!(is_dry_run(Some("True")));
    assert!(is_dry_run(Some("tRuE")));
    assert!(is_dry_run(Some("1")));
}

#[test]
fn anything_else_is_a_live_run() {
    assert!(!is_dry_run(None));
    assert!(!is_dry_run(Some("")));
    assert!(!is_dry_run(Some("0")));
    assert!(!is_dry_run(Some("false")));
    assert!(!is_dry_run(Some("yes")));
    assert!(!is_dry_run(Some("true ")));
    assert!(!is_dry_run(Some(" true")));
    assert!(!is_dry_run(Some("11")));
    assert!(!is_dry_run(Some("2")));
    assert!(!is_dry_run(Some("trve")));
    assert!(!is_dry_run(Some("tru\u{e9}")));
    assert!(!is_dry_run(Some("\u{ff54}rue")));
}
