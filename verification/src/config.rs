//! Configuration values and their defaults.

use crate::decimal::DecimalPct;
use vstd::prelude::*;

verus! {

/// The configuration file, looked for in the working directory.
pub const CONFIG_FILE: &'static str = "config.toml";

/// The environment variable that holds the API key id.
pub const API_KEY_ID_VAR: &'static str = "KALSHI_API_KEY_ID";

/// The environment variable that asks for a dry run.
pub const DRY_RUN_VAR: &'static str = "DRY_RUN";

/// The settings of the scanner.
#[derive(Debug, PartialEq, Eq)]
pub struct ScannerConfig {
    /// Seconds between two scan cycles.
    pub interval_secs: u64,
    /// Series to scan; empty means all.
    pub series_filter: Vec<String>,
    /// Minimum spacing of reads in milliseconds.
    pub scan_delay_ms: u64,
    /// Fewest active markets of an event that is looked at.
    pub min_brackets: usize,
    /// Most active markets of an event that is looked at.
    pub max_brackets: usize,
    /// Time to live of the cached series list in seconds.
    pub series_cache_secs: u64,
}

/// The gates and the position size.
#[derive(Debug, PartialEq, Eq)]
pub struct RiskConfig {
    pub min_net_profit_cents: u32,
    /// The floor of the return on investment, in percent.
    pub min_roi_pct: DecimalPct,
    pub position_size: u32,
    /// Advisory only: the breaker on open arbitrages is fixed.
    pub max_open_positions: u32,
}

/// Where the exchange is and where the key lies.
#[derive(Debug, PartialEq, Eq)]
pub struct KalshiConfig {
    /// The base address, without a trailing slash.
    pub base_url: String,
    /// The path of the PKCS#1 PEM file with the RSA key.
    pub rsa_key_path: String,
}

/// The whole configuration.
#[derive(Debug, PartialEq, Eq)]
pub struct Config {
    pub scanner: ScannerConfig,
    pub risk: RiskConfig,
    pub kalshi: KalshiConfig,
}

/// The default spacing of reads: 150 ms.
pub fn default_scan_delay_ms() -> (ms: u64)
    ensures
        ms == 150,
{
    150
}

/// The default for the fewest brackets: 2.
pub fn default_min_brackets() -> (n: usize)
    ensures
        n == 2,
{
    2
}

/// The default for the most brackets: 15.
pub fn default_max_brackets() -> (n: usize)
    ensures
        n == 15,
{
    15
}

/// The default time to live of the series list: 300 s.
pub fn default_series_cache_secs() -> (secs: u64)
    ensures
        secs == 300,
{
    300
}

impl ScannerConfig {
    /// The scanner settings with every optional value at its default.
    pub fn with_defaults(interval_secs: u64) -> (cfg: ScannerConfig)
        ensures
            cfg.interval_secs == interval_secs,
            cfg.series_filter@.len() == 0,
            cfg.scan_delay_ms == 150,
            cfg.min_brackets == 2,
            cfg.max_brackets == 15,
            cfg.series_cache_secs == 300,
    {
        ScannerConfig {
            interval_secs,
            series_filter: Vec::new(),
            scan_delay_ms: default_scan_delay_ms(),
            min_brackets: default_min_brackets(),
            max_brackets: default_max_brackets(),
            series_cache_secs: default_series_cache_secs(),
        }
    }
}

/// Whether a character is the given lower-case letter in either case.
pub open spec fn is_letter(c: char, lower: char, upper: char) -> bool {
    c == lower || c == upper
}

/// Whether a value of `DRY_RUN` asks for a dry run: `1`, or `true` in any
/// mix of upper and lower case.
pub open spec fn truthy(value: Seq<char>) -> bool {
    ||| value == seq!['1']
    ||| (value.len() == 4 && is_letter(value[0], 't', 'T') && is_letter(value[1], 'r', 'R')
        && is_letter(value[2], 'u', 'U') && is_letter(value[3], 'e', 'E'))
}

/// Whether the process runs dry, given the value of `DRY_RUN` in the
/// environment, if it is set. Unset means no.
pub fn is_dry_run(value: Option<&str>) -> (dry: bool)
    ensures
        dry == (match value {
            Some(v) => truthy(v@),
            None => false,
        }),
{
    match value {
        None => false,
        Some(v) => {
            let n = v.unicode_len();
            if n == 1 {
                let c = v.get_char(0);
                assert(c == '1' ==> v@ =~= seq!['1']);
                c == '1'
            } else if n == 4 {
                let c0 = v.get_char(0);
                let c1 = v.get_char(1);
                let c2 = v.get_char(2);
                let c3 = v.get_char(3);
                (c0 == 't' || c0 == 'T') && (c1 == 'r' || c1 == 'R') && (c2 == 'u' || c2 == 'U')
                    && (c3 == 'e' || c3 == 'E')
            } else {
                false
            }
        },
    }
}

} // verus!
