use finanz_cache::config::{is_offline, Config};
use finanz_cache::date::Date;
use finanz_cache::error::FetchError;
use finanz_cache::fetch::{Event, Orchestration, Origin, Phase, Step};
use finanz_cache::inflight::InFlight;
use finanz_cache::request::FinanzApiRequestInformation;
use finanz_cache::source::FinanzApiFetchData;

fn weekly(key: &str, y: i32, m: u32, d: u32) -> FinanzApiRequestInformation {
    FinanzApiRequestInformation::GetWeekly {
        key: key.to_string(),
        from: None,
        bis: Date { year: y, month: m, day: d },
    }
}

fn config(offline: bool) -> Config {
    Config {
        finanz_api_key: "demo".to_string(),
        finanz_api_url: "https://example.invalid/query".to_string(),
        auto_refresh: false,
        offline_mode: offline,
    }
}

fn names(list: &[&str]) -> Vec<String> {
    list.iter().map(|s| s.to_string()).collect()
}

#[test]
fn cache_dir_of_weekly_request() {
    let r = weekly("IBM", 2023, 8, 13);
    assert_eq!(r.get_cache_dir_path(), "./cache/finanzapi/getweekly/IBM");
}

#[test]
fn cache_dir_of_search() {
    let r = FinanzApiRequestInformation::Search { input: "apple".to_string() };
    assert_eq!(r.get_cache_dir_path(), "./cache/finanzapi/search");
    assert_eq!(r.get_cache_path(), "./cache/finanzapi/search/apple.json");
}

#[test]
fn cache_path_uses_day_month_year() {
    let r = weekly("IBM", 2023, 8, 3);
    assert_eq!(r.get_cache_path(), "./cache/finanzapi/getweekly/IBM/03-08-2023.json");
}

#[test]
fn cache_path_pads_small_years() {
    let r = weekly("X", 999, 12, 31);
    assert_eq!(r.get_cache_path(), "./cache/finanzapi/getweekly/X/31-12-0999.json");
}

#[test]
fn date_text_is_day_month_year() {
    let d = Date { year: 2024, month: 2, day: 29 };
    assert_eq!(d.to_dmy(), "29-02-2024");
}

#[test]
fn date_order() {
    let a = Date { year: 2023, month: 6, day: 15 };
    let b = Date { year: 2023, month: 1, day: 1 };
    let c = Date { year: 2022, month: 3, day: 3 };
    assert!(a.after(&b));
    assert!(b.after(&c));
    assert!(!c.after(&a));
    assert!(!a.after(&a));
}

#[test]
fn set_bis_replaces_the_date_only() {
    let r = weekly("IBM", 2023, 1, 1);
    let n = r.set_bis("2023-08-11".to_string()).ok().unwrap();
    match n {
        FinanzApiRequestInformation::GetWeekly { key, from, bis } => {
            assert_eq!(key, "IBM");
            assert_eq!(from, None);
            assert_eq!(bis, Date { year: 2023, month: 8, day: 11 });
        }
        _ => panic!("expected a weekly request"),
    }
    match r {
        FinanzApiRequestInformation::GetWeekly { bis, .. } => {
            assert_eq!(bis, Date { year: 2023, month: 1, day: 1 })
        }
        _ => panic!("expected a weekly request"),
    }
}

#[test]
fn set_bis_rejects_malformed_date() {
    let r = weekly("IBM", 2023, 1, 1);
    assert!(matches!(r.set_bis("11-08-2023".to_string()), Err(FetchError::ChronoParse(_))));
    assert!(matches!(r.set_bis("2023-02-30".to_string()), Err(FetchError::ChronoParse(_))));
}

#[test]
fn set_bis_on_search_is_unsupported() {
    let r = FinanzApiRequestInformation::Search { input: "a".to_string() };
    assert!(matches!(r.set_bis("2023-08-11".to_string()), Err(FetchError::Unsupported(_))));
}

#[test]
fn write_target_follows_reported_date() {
    let r = weekly("IBM", 2023, 8, 13);
    let t = r.write_target("2023-08-11".to_string()).ok().unwrap();
    assert_eq!(t.dir, "./cache/finanzapi/getweekly/IBM");
    assert_eq!(t.path, "./cache/finanzapi/getweekly/IBM/11-08-2023.json");
    assert_ne!(t.path, r.get_cache_path());
}

#[test]
fn write_target_matches_read_path_for_same_date() {
    let r = weekly("IBM", 2023, 8, 11);
    let t = r.write_target("2023-08-11".to_string()).ok().unwrap();
    assert_eq!(t.path, r.get_cache_path());
}

#[test]
fn write_target_errors() {
    let r = weekly("IBM", 2023, 8, 13);
    assert!(matches!(r.write_target("yesterday".to_string()), Err(FetchError::ChronoParse(_))));
    let s = FinanzApiRequestInformation::Search { input: "a".to_string() };
    assert!(matches!(s.write_target("2023-08-11".to_string()), Err(FetchError::Unsupported(_))));
}

#[test]
fn latest_cache_picks_newest_and_skips_garbage() {
    let r = weekly("IBM", 2024, 1, 1);
    let found = r.latest_cache_path(&names(&[
        "01-01-2023.json",
        "15-06-2023.json",
        "03-03-2022.json",
        "garbage.txt",
    ]));
    assert_eq!(found.path, Some("./cache/finanzapi/getweekly/IBM/15-06-2023.json".to_string()));
    assert_eq!(found.skipped, 1);
}

#[test]
fn latest_cache_of_empty_directory() {
    let r = weekly("IBM", 2024, 1, 1);
    let found = r.latest_cache_path(&Vec::new());
    assert_eq!(found.path, None);
    assert_eq!(found.skipped, 0);
}

#[test]
fn latest_cache_skips_short_names() {
    let r = weekly("IBM", 2024, 1, 1);
    let found = r.latest_cache_path(&names(&[".json", "a", "x.txt"]));
    assert_eq!(found.path, None);
    assert_eq!(found.skipped, 3);
}

#[test]
fn latest_cache_compares_years_first() {
    let r = weekly("SAP", 2024, 1, 1);
    let found = r.latest_cache_path(&names(&["31-12-2022.json", "01-01-2023.json"]));
    assert_eq!(found.path, Some("./cache/finanzapi/getweekly/SAP/01-01-2023.json".to_string()));
}

#[test]
fn fetch_query_of_weekly_request() {
    let source = FinanzApiFetchData::from(config(false));
    let q = source.fetch_query(&weekly("IBM", 2023, 8, 13)).ok().unwrap();
    let expected = vec![
        ("function".to_string(), "TIME_SERIES_WEEKLY".to_string()),
        ("symbol".to_string(), "IBM".to_string()),
        ("apikey".to_string(), "demo".to_string()),
        ("datatype".to_string(), "json".to_string()),
    ];
    assert_eq!(q, expected);
}

#[test]
fn fetch_query_of_search_is_unsupported() {
    let source = FinanzApiFetchData::from(config(false));
    let s = FinanzApiRequestInformation::Search { input: "a".to_string() };
    assert!(matches!(source.fetch_query(&s), Err(FetchError::Unsupported(_))));
}

#[test]
fn fetch_data_from_config() {
    let source = FinanzApiFetchData::from(config(true));
    assert_eq!(source.api_key, "demo");
    assert_eq!(source.url, "https://example.invalid/query");
}

#[test]
fn offline_flag() {
    assert!(is_offline(&Some(config(true))));
    assert!(!is_offline(&Some(config(false))));
    assert!(!is_offline(&None));
}

#[test]
fn cache_hit_ends_at_once() {
    let mut o = Orchestration::new(&Some(config(false)));
    assert_eq!(o.step(Event::Begin).step, Step::ReadCache);
    let a = o.step(Event::CacheRead(Ok(true)));
    assert_eq!(a.step, Step::Done(Origin::Cache));
    assert!(a.error.is_none());
    assert_eq!(o.phase, Phase::Finished);
}

#[test]
fn online_miss_fetches_invalidates_writes() {
    let mut o = Orchestration::new(&Some(config(false)));
    let mut steps = vec![o.step(Event::Begin).step];
    steps.push(o.step(Event::CacheRead(Ok(false))).step);
    steps.push(o.step(Event::Fetched(Ok(()))).step);
    steps.push(o.step(Event::Invalidated(Ok(()))).step);
    steps.push(o.step(Event::Written(Ok(()))).step);
    assert_eq!(
        steps,
        vec![Step::ReadCache, Step::Fetch, Step::Invalidate, Step::WriteCache, Step::Done(Origin::Remote)]
    );
}

#[test]
fn missing_config_counts_as_online() {
    let mut o = Orchestration::new(&None);
    o.step(Event::Begin);
    assert_eq!(o.step(Event::CacheRead(Ok(false))).step, Step::Fetch);
}

#[test]
fn offline_empty_cache_gives_no_value() {
    let mut o = Orchestration::new(&Some(config(true)));
    let mut steps = vec![o.step(Event::Begin).step];
    steps.push(o.step(Event::CacheRead(Ok(false))).step);
    let last = o.step(Event::LatestFound(Ok(false)));
    steps.push(last.step);
    assert_eq!(steps, vec![Step::ReadCache, Step::FindLatest, Step::Fail]);
    assert!(!steps.contains(&Step::Fetch));
    match last.error {
        Some(FetchError::NoValue(m)) => assert_eq!(m, "no value could be read from the entire cache"),
        other => panic!("expected NoValue, got {:?}", other),
    }
}

#[test]
fn offline_takes_latest_copy() {
    let mut o = Orchestration::new(&Some(config(true)));
    o.step(Event::Begin);
    o.step(Event::CacheRead(Ok(false)));
    assert_eq!(o.step(Event::LatestFound(Ok(true))).step, Step::Done(Origin::Latest));
}

#[test]
fn malformed_cache_file_is_an_error_not_a_fetch() {
    let bad = serde_json::from_str::<serde_json::Value>("{ not json").unwrap_err();
    let mut o = Orchestration::new(&Some(config(false)));
    o.step(Event::Begin);
    let a = o.step(Event::CacheRead(Err(FetchError::SerdeJson(bad))));
    assert_eq!(a.step, Step::Fail);
    assert!(matches!(a.error, Some(FetchError::SerdeJson(_))));
    assert_eq!(o.phase, Phase::Finished);
}

#[test]
fn failed_fetch_is_surfaced() {
    let io = std::io::Error::new(std::io::ErrorKind::Other, "down");
    let mut o = Orchestration::new(&Some(config(false)));
    o.step(Event::Begin);
    o.step(Event::CacheRead(Ok(false)));
    let a = o.step(Event::Fetched(Err(FetchError::IO(io))));
    assert_eq!(a.step, Step::Fail);
    assert!(matches!(a.error, Some(FetchError::IO(_))));
}

#[test]
fn one_call_per_key() {
    let mut held = InFlight::new();
    let ibm = "./cache/finanzapi/getweekly/IBM".to_string();
    let sap = "./cache/finanzapi/getweekly/SAP".to_string();
    assert!(held.try_acquire(&ibm));
    assert!(!held.try_acquire(&ibm));
    assert!(held.try_acquire(&sap));
    assert!(held.is_held(&ibm));
    held.release(&ibm);
    assert!(!held.is_held(&ibm));
    assert!(held.is_held(&sap));
    assert!(held.try_acquire(&ibm));
}

#[test]
fn message_of_no_value() {
    let e = FetchError::NoValue("./cache/finanzapi/getweekly/IBM".to_string());
    assert_eq!(e.message(), "no value could be obtained at ./cache/finanzapi/getweekly/IBM");
}

#[test]
fn message_of_unsupported() {
    let e = FetchError::Unsupported("search".to_string());
    assert_eq!(e.message(), "unsupported: search");
}

#[test]
fn message_of_outside_errors() {
    let io = FetchError::IO(std::io::Error::new(std::io::ErrorKind::Other, "disk full"));
    assert_eq!(io.message(), "storage: disk full");
    let bad = serde_json::from_str::<serde_json::Value>("{").unwrap_err();
    assert!(FetchError::SerdeJson(bad).message().starts_with("serialization: "));
    let r = FinanzApiRequestInformation::GetWeekly {
        key: "IBM".to_string(),
        from: None,
        bis: Date { year: 2023, month: 1, day: 1 },
    };
    match r.set_bis("x".to_string()) {
        Err(e) => assert!(e.message().starts_with("date parse: ")),
        Ok(_) => panic!("expected a parse failure"),
    }
}
