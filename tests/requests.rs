use timestamp_bot::compile::{compile, select_format, unquoted, Reply, TimestampRequest, LEGEND};
use timestamp_bot::error::BotError;
use timestamp_bot::format::TimestampFormat;
use timestamp_bot::options::{find_last, find_text, CommandOption, OptionValue};
use timestamp_bot::timezone::UtcOffset;

fn text(name: &str, value: &str) -> CommandOption {
    CommandOption { name: name.to_string(), value: OptionValue::Text(value.to_string()) }
}

fn flag(name: &str, value: bool) -> CommandOption {
    CommandOption { name: name.to_string(), value: OptionValue::Flag(value) }
}

fn null(name: &str) -> CommandOption {
    CommandOption { name: name.to_string(), value: OptionValue::Null }
}

fn hour_east() -> UtcOffset {
    UtcOffset::east_opt(3600).unwrap()
}

fn ok_text(r: Result<Reply, BotError>) -> String {
    let reply = r.unwrap();
    assert!(!reply.public);
    reply.text
}

#[test]
fn compile_defaults_use_relative_and_legend() {
    let opts = vec![text("descriptor", "6pm")];
    let t = ok_text(compile(&opts, 1700003600, hour_east()));
    let badge = "<t:1700000000:R>";
    assert_eq!(t, format!("`{0}` => {0}{1}", badge, LEGEND));
    assert!(t.contains("Other options"));
}

#[test]
fn compile_without_list_has_no_legend() {
    let opts = vec![text("descriptor", "6pm"), flag("list", false)];
    let t = ok_text(compile(&opts, 1700003600, hour_east()));
    assert_eq!(t, "`<t:1700000000:R>` => <t:1700000000:R>");
    assert!(!t.contains("Other options"));
}

#[test]
fn compile_with_format_and_timezone() {
    let opts = vec![
        text("descriptor", "23:45"),
        text("format", "\"T\""),
        text("timezone", "utc-4"),
        flag("list", false),
    ];
    let t = ok_text(compile(&opts, 1700000000, hour_east()));
    assert_eq!(t, "`<t:1700014400:T>` => <t:1700014400:T>");
}

#[test]
fn compile_missing_descriptor() {
    let opts = vec![text("timezone", "utc"), null("descriptor")];
    assert_eq!(compile(&opts, 0, hour_east()).unwrap_err(), BotError::MissingRequiredOption);
}

#[test]
fn compile_bad_format() {
    let opts = vec![text("descriptor", "now"), text("format", "X")];
    assert_eq!(compile(&opts, 0, hour_east()).unwrap_err(), BotError::InvalidFormatMarker);
    let opts = vec![text("descriptor", "now"), text("format", "RT")];
    assert_eq!(compile(&opts, 0, hour_east()).unwrap_err(), BotError::InvalidFormatMarker);
}

#[test]
fn compile_bad_timezone() {
    let opts = vec![text("descriptor", "now"), text("timezone", "mars")];
    assert_eq!(compile(&opts, 0, hour_east()).unwrap_err(), BotError::UnrecognizedTimezone);
}

#[test]
fn compile_out_of_range_local_time() {
    let opts = vec![text("descriptor", "now")];
    assert_eq!(compile(&opts, i64::MAX, hour_east()).unwrap_err(), BotError::AmbiguousOrInvalidLocalTime);
}

#[test]
fn extractor_null_then_value() {
    let opts = vec![null("format"), text("format", "T")];
    assert_eq!(find_text(&opts, "format"), Some("T".to_string()));
    let req = TimestampRequest::extract(&opts);
    assert_eq!(req.format, "T");
}

#[test]
fn extractor_later_wins_and_null_keeps() {
    let opts = vec![text("format", "d"), text("format", "D"), null("format")];
    assert_eq!(find_text(&opts, "format"), Some("D".to_string()));
    assert_eq!(find_last(&opts, "format"), Some(1));
    let opts = vec![flag("list", true), flag("list", false), null("list"), text("other", "x")];
    assert!(!TimestampRequest::extract(&opts).list);
    let opts = vec![text("other", "x")];
    assert_eq!(find_text(&opts, "format"), None);
    assert_eq!(find_last(&opts, "list"), None);
}

#[test]
fn extractor_any_kind_of_value_wins() {
    let opts = vec![
        text("format", "T"),
        CommandOption { name: "format".to_string(), value: OptionValue::Integer(-12) },
    ];
    assert_eq!(find_text(&opts, "format"), Some("-12".to_string()));
    let opts = vec![text("descriptor", "x"), flag("descriptor", true)];
    assert_eq!(find_text(&opts, "descriptor"), Some("true".to_string()));
    let opts = vec![flag("list", false), text("list", "no")];
    assert!(TimestampRequest::extract(&opts).list);
}

#[test]
fn compile_integer_format_is_refused() {
    let opts = vec![
        text("descriptor", "now"),
        text("format", "T"),
        CommandOption { name: "format".to_string(), value: OptionValue::Integer(5) },
    ];
    assert_eq!(compile(&opts, 0, hour_east()).unwrap_err(), BotError::InvalidFormatMarker);
}

#[test]
fn compile_null_then_format_uses_later_marker() {
    let opts = vec![text("descriptor", "6pm"), null("format"), text("format", "T")];
    let t = ok_text(compile(&opts, 1700003600, hour_east()));
    assert!(t.starts_with("`<t:1700000000:T>` => <t:1700000000:T>"));
}

#[test]
fn compile_timezone_taken_as_supplied() {
    let opts = vec![text("descriptor", "now"), text("timezone", "\"pt\"")];
    assert_eq!(compile(&opts, 0, hour_east()).unwrap_err(), BotError::UnrecognizedTimezone);
    let opts = vec![text("descriptor", "now"), text("timezone", "pt"), flag("list", false)];
    assert_eq!(ok_text(compile(&opts, 0, hour_east())), "`<t:28800:R>` => <t:28800:R>");
}

#[test]
fn compile_ignores_unknown_names() {
    let base = vec![text("descriptor", "6pm"), flag("list", false)];
    let more = vec![text("colour", "red"), text("descriptor", "6pm"), text("zone", "pt"), flag("list", false)];
    assert_eq!(ok_text(compile(&base, 1700003600, hour_east())), ok_text(compile(&more, 1700003600, hour_east())));
}

#[test]
fn compile_succeeds_at_wide_local_times() {
    let opts = vec![text("descriptor", "now"), flag("list", false)];
    let t = ok_text(compile(&opts, 8_000_000_000_000, hour_east()));
    assert_eq!(t, "`<t:7999999996400:R>` => <t:7999999996400:R>");
    let t = ok_text(compile(&opts, -8_000_000_000_000, hour_east()));
    assert_eq!(t, "`<t:-8000000003600:R>` => <t:-8000000003600:R>");
}

#[test]
fn extractor_defaults() {
    let req = TimestampRequest::extract(&vec![]);
    assert_eq!(req.descriptor, None);
    assert_eq!(req.timezone, "default");
    assert_eq!(req.format, "R");
    assert!(req.list);
}

#[test]
fn format_selection_unquotes() {
    assert_eq!(select_format("\"F\""), Ok(TimestampFormat::FullWithDayOfWeek));
    assert_eq!(select_format("t"), Ok(TimestampFormat::ShortTime));
    assert_eq!(select_format("\"\""), Err(BotError::InvalidFormatMarker));
    assert_eq!(select_format(""), Err(BotError::InvalidFormatMarker));
    assert_eq!(unquoted("\"pt\""), "pt");
    assert_eq!(unquoted("\"pt"), "\"pt");
    assert_eq!(unquoted("\""), "\"");
}
