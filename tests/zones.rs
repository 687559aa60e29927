use timestamp_bot::error::BotError;
use timestamp_bot::timezone::{resolve, UtcOffset};

fn secs(r: Result<UtcOffset, BotError>) -> i32 {
    r.unwrap().seconds()
}

#[test]
fn resolve_default_and_utc_plus_three() {
    for d in [-7200, 0, 3600, 19800] {
        let default = UtcOffset::east_opt(d).unwrap();
        assert_eq!(resolve("default", default), Ok(default));
        assert_eq!(secs(resolve("utc+3", default)), 10800);
    }
}

#[test]
fn resolve_forms() {
    let default = UtcOffset::east_opt(3600).unwrap();
    assert_eq!(secs(resolve("+3", default)), 10800);
    assert_eq!(secs(resolve("-4", default)), -14400);
    assert_eq!(secs(resolve("5", default)), 18000);
    assert_eq!(secs(resolve("utc", default)), 0);
    assert_eq!(secs(resolve("UTC-11", default)), -39600);
    assert_eq!(secs(resolve("default+11", default)), 43200);
    assert_eq!(secs(resolve("Default-2", default)), -3600);
    assert_eq!(secs(resolve("pt", default)), -28800);
    assert_eq!(secs(resolve("EST", default)), -18000);
    assert_eq!(secs(resolve("gmt", default)), 0);
}

#[test]
fn resolve_refuses() {
    let default = UtcOffset::east_opt(3600).unwrap();
    for d in ["", "mars", "utc+", "utc+123", "+24", "default+23", "utc 3", "+-3", "defaults"] {
        assert_eq!(resolve(d, default), Err(BotError::UnrecognizedTimezone), "{}", d);
    }
    assert_eq!(secs(resolve("+23", default)), 82800);
}

#[test]
fn offset_range() {
    assert!(UtcOffset::east_opt(86400).is_none());
    assert!(UtcOffset::east_opt(-86400).is_none());
    assert_eq!(UtcOffset::east_opt(86399).unwrap().seconds(), 86399);
}
