//! Compiles the options of the `timestamp` command into the reply text: the
//! badge shown once as copyable markup and once live, optionally followed by
//! a legend of all format markers.

use vstd::prelude::*;
use crate::error::BotError;
use crate::format::{badge_text, format_of, render, TimestampFormat};
use crate::options::{find_last, find_text, last_text, last_value, CommandOption, OptionValue};
use crate::format::marker_of;
use crate::text::{avoids, contains_run, decimal, lemma_avoids_no_run, lemma_concat_avoids, lemma_nat_digits_are_digits, nat_digits, push_char};
use crate::timezone::{resolve, resolved_secs, UtcOffset};

verus! {

/// Legend of the format markers, appended when the `list` option is set.
pub const LEGEND: &'static str = "\n__Other options:__\n**R**elative, short **t**ime, long **T**ime, short **d**ate, long **D**ate, **f**ull datetime, **F**ull datetime with Day-of-Week";

/// A reply to an interaction, and whether everyone in the channel sees it.
#[derive(Debug, Clone)]
pub struct Reply {
    pub text: String,
    pub public: bool,
}

/// The options of the `timestamp` command, defaults filled in.
#[derive(Debug, Clone)]
pub struct TimestampRequest {
    pub descriptor: Option<String>,
    pub timezone: String,
    pub format: String,
    pub list: bool,
}

/// The request after validation: everything the badge needs but the instant.
#[derive(Debug, Clone)]
pub struct ResolvedRequest {
    pub descriptor: String,
    pub offset: UtcOffset,
    pub format: TimestampFormat,
    pub list: bool,
}

pub open spec fn text_or(v: Option<Seq<char>>, d: Seq<char>) -> Seq<char> {
    match v {
        Some(t) => t,
        None => d,
    }
}

/// `s` without one pair of enclosing double quotes, when it has them.
pub open spec fn unquote(s: Seq<char>) -> Seq<char> {
    if s.len() >= 2 && s[0] == '"' && s[s.len() - 1] == '"' {
        s.subrange(1, s.len() - 1)
    } else {
        s
    }
}

/// The format that a format option value selects: one marker letter,
/// possibly quoted.
pub open spec fn format_choice(s: Seq<char>) -> Option<TimestampFormat> {
    let u = unquote(s);
    if u.len() == 1 {
        format_of(u[0])
    } else {
        None
    }
}

/// What `extract` reads from the options: descriptor, timezone, format and
/// list flag, with the defaults `default`, `R` and `true`. A list value that
/// is not a flag reads as the default.
pub open spec fn request_of(
    opts: Seq<CommandOption>,
) -> (Option<Seq<char>>, Seq<char>, Seq<char>, bool) {
    (
        last_text(opts, "descriptor"@),
        text_or(last_text(opts, "timezone"@), "default"@),
        text_or(last_text(opts, "format"@), "R"@),
        match last_value(opts, "list"@) {
            Some(OptionValue::Flag(b)) => b,
            _ => true,
        },
    )
}

/// The validated request as offset seconds, format and list flag, or the
/// first failure in the order: descriptor, format, timezone.
pub open spec fn plan_of(
    req: (Option<Seq<char>>, Seq<char>, Seq<char>, bool),
    default_secs: int,
) -> Result<(int, TimestampFormat, bool), BotError> {
    if req.0 is None {
        Err(BotError::MissingRequiredOption)
    } else if format_choice(req.2) is None {
        Err(BotError::InvalidFormatMarker)
    } else if resolved_secs(req.1, default_secs) is None {
        Err(BotError::UnrecognizedTimezone)
    } else {
        Ok((resolved_secs(req.1, default_secs)->Some_0, format_choice(req.2)->Some_0, req.3))
    }
}

/// The reply text for a badge.
pub open spec fn reply_text(badge: Seq<char>, list: bool) -> Seq<char> {
    seq!['`'] + badge + seq!['`', ' ', '=', '>', ' '] + badge + if list { LEGEND@ } else { Seq::empty() }
}

/// Without the list flag the reply never holds the legend's heading.
pub proof fn lemma_no_legend_without_list(timestamp: int, f: TimestampFormat)
    ensures
        !contains_run(reply_text(badge_text(timestamp, f), false), "Other options"@),
{
    let o = 'O';
    let digits = if timestamp < 0 { nat_digits((-timestamp) as nat) } else { nat_digits(timestamp as nat) };
    lemma_nat_digits_are_digits(if timestamp < 0 { (-timestamp) as nat } else { timestamp as nat });
    assert(avoids(digits, o));
    let num = decimal(timestamp);
    if timestamp < 0 {
        lemma_concat_avoids(seq!['-'], digits, o);
    }
    assert(avoids(num, o));
    lemma_concat_avoids(seq!['<', 't', ':'], num, o);
    lemma_concat_avoids(seq!['<', 't', ':'] + num, seq![':', marker_of(f), '>'], o);
    let badge = badge_text(timestamp, f);
    assert(avoids(badge, o));
    lemma_concat_avoids(seq!['`'], badge, o);
    lemma_concat_avoids(seq!['`'] + badge, seq!['`', ' ', '=', '>', ' '], o);
    lemma_concat_avoids(seq!['`'] + badge + seq!['`', ' ', '=', '>', ' '], badge, o);
    let t = reply_text(badge, false);
    assert(t =~= seq!['`'] + badge + seq!['`', ' ', '=', '>', ' '] + badge);
    reveal_strlit("Other options");
    lemma_avoids_no_run(t, "Other options"@);
}

/// With the list flag the reply holds the legend's heading.
pub proof fn lemma_legend_with_list(timestamp: int, f: TimestampFormat)
    ensures
        contains_run(reply_text(badge_text(timestamp, f), true), "Other options"@),
{
    reveal_strlit("\n__Other options:__\n**R**elative, short **t**ime, long **T**ime, short **d**ate, long **D**ate, **f**ull datetime, **F**ull datetime with Day-of-Week");
    reveal_strlit("Other options");
    let badge = badge_text(timestamp, f);
    let head = seq!['`'] + badge + seq!['`', ' ', '=', '>', ' '] + badge;
    let t = reply_text(badge, true);
    assert(t =~= head + LEGEND@);
    let i: int = head.len() as int + 3;
    assert(t.subrange(i, i + 13) =~= "Other options"@);
}

impl TimestampRequest {
    pub open spec fn view_tuple(&self) -> (Option<Seq<char>>, Seq<char>, Seq<char>, bool) {
        (
            match self.descriptor {
                Some(d) => Some(d@),
                None => None,
            },
            self.timezone@,
            self.format@,
            self.list,
        )
    }

    /// Reads the command's options, filling in the defaults.
    pub fn extract(options: &Vec<CommandOption>) -> (r: TimestampRequest)
        ensures
            r.view_tuple() == request_of(options@),
    {
        let descriptor = find_text(options, "descriptor");
        let timezone = match find_text(options, "timezone") {
            Some(t) => t,
            None => String::from_str("default"),
        };
        let format = match find_text(options, "format") {
            Some(t) => t,
            None => String::from_str("R"),
        };
        let list = match find_last(options, "list") {
            Some(i) => match &options[i].value {
                OptionValue::Flag(b) => *b,
                _ => true,
            },
            None => true,
        };
        TimestampRequest { descriptor, timezone, format, list }
    }

    /// Validates the request: the descriptor must be there, the format must
    /// be a marker letter and the timezone must resolve.
    pub fn validate(&self, default_offset: UtcOffset) -> (r: Result<ResolvedRequest, BotError>)
        ensures
            r is Ok == plan_of(self.view_tuple(), default_offset.secs_spec()) is Ok,
            r is Err ==> r->Err_0 == plan_of(self.view_tuple(), default_offset.secs_spec())->Err_0,
            r is Ok ==> ({
                let p = plan_of(self.view_tuple(), default_offset.secs_spec())->Ok_0;
                &&& r->Ok_0.offset.secs_spec() == p.0
                &&& r->Ok_0.format == p.1
                &&& r->Ok_0.list == p.2
                &&& Some(r->Ok_0.descriptor@) == self.view_tuple().0
            }),
    {
        let descriptor = match &self.descriptor {
            Some(d) => d.clone(),
            None => return Err(BotError::MissingRequiredOption),
        };
        let format = match select_format(self.format.as_str()) {
            Ok(f) => f,
            Err(e) => return Err(e),
        };
        let offset = match resolve(self.timezone.as_str(), default_offset) {
            Ok(o) => o,
            Err(e) => return Err(e),
        };
        Ok(ResolvedRequest { descriptor, offset, format, list: self.list })
    }
}

/// `s` without one pair of enclosing double quotes, when it has them.
pub fn unquoted(s: &str) -> (r: String)
    ensures
        r@ == unquote(s@),
{
    let n = s.unicode_len();
    if n >= 2 && s.get_char(0) == '"' && s.get_char(n - 1) == '"' {
        String::from_str(s.substring_char(1, n - 1))
    } else {
        String::from_str(s)
    }
}

/// The format that a format option value selects.
pub fn select_format(s: &str) -> (r: Result<TimestampFormat, BotError>)
    ensures
        r is Ok == format_choice(s@) is Some,
        r is Ok ==> r->Ok_0 == format_choice(s@)->Some_0,
        r is Err ==> r->Err_0 == BotError::InvalidFormatMarker,
{
    let u = unquoted(s);
    if u.as_str().unicode_len() == 1 {
        TimestampFormat::from_marker(u.as_str().get_char(0))
    } else {
        Err(BotError::InvalidFormatMarker)
    }
}

/// Builds the reply text for a badge.
pub fn build_text(badge: &String, list: bool) -> (r: String)
    ensures
        r@ == reply_text(badge@, list),
{
    let mut s = String::new();
    push_char(&mut s, '`');
    s.append(badge.as_str());
    push_char(&mut s, '`');
    push_char(&mut s, ' ');
    push_char(&mut s, '=');
    push_char(&mut s, '>');
    push_char(&mut s, ' ');
    s.append(badge.as_str());
    if list {
        s.append(LEGEND);
    }
    assert(s@ =~= reply_text(badge@, list));
    s
}

/// The private reply for a validated request, given the instant that its
/// local time maps to (`None` when it maps to none or to several).
pub fn reply_for_instant(req: &ResolvedRequest, instant: Option<i64>) -> (r: Result<Reply, BotError>)
    ensures
        instant is None ==> r == Err::<Reply, BotError>(BotError::AmbiguousOrInvalidLocalTime),
        instant is Some ==> r is Ok
            && r->Ok_0.text@ == reply_text(badge_text(instant->Some_0 as int, req.format), req.list)
            && !r->Ok_0.public,
{
    match instant {
        Some(t) => {
            let badge = render(t, req.format);
            Ok(Reply { text: build_text(&badge, req.list), public: false })
        },
        None => Err(BotError::AmbiguousOrInvalidLocalTime),
    }
}

/// Relies on chrono's `NaiveDateTime::and_local_timezone` with a
/// `FixedOffset`, which maps a local time to exactly one instant, the local
/// time minus the offset, except at the edges of chrono's date range (years
/// -262143 to 262142; within 8 * 10^12 seconds of the epoch there is always
/// one). The local
/// time goes in as seconds since the epoch read as UTC, through
/// `DateTime::from_timestamp` and `naive_utc`; the instant comes back through
/// `DateTime::timestamp`.
#[verifier::external_body]
fn local_to_instant(local_secs: i64, offset: UtcOffset) -> (r: Option<i64>)
    ensures
        r is Some ==> r->Some_0 as int == local_secs as int - offset.secs_spec(),
        -8_000_000_000_000 <= local_secs <= 8_000_000_000_000 ==> r is Some,
{
    let naive = chrono::DateTime::from_timestamp(local_secs, 0)?.naive_utc();
    let zone = chrono::FixedOffset::east_opt(offset.seconds())?;
    naive.and_local_timezone(zone).single().map(|t| t.timestamp())
}

/// What `compile` answers for the options, the local time and the default
/// offset: the first validation failure, or else the reply for the instant.
/// Only a local time beyond chrono's date range may fail to map to an instant.
pub open spec fn compiled(
    opts: Seq<CommandOption>,
    now_local: int,
    default_secs: int,
    r: Result<Reply, BotError>,
) -> bool {
    let plan = plan_of(request_of(opts), default_secs);
    &&& plan is Err ==> r == Err::<Reply, BotError>(plan->Err_0)
    &&& plan is Ok && r is Err ==> r->Err_0 == BotError::AmbiguousOrInvalidLocalTime
    &&& plan is Ok && -8_000_000_000_000 <= now_local <= 8_000_000_000_000 ==> r is Ok
    &&& plan is Ok && r is Ok ==> {
        &&& r->Ok_0.text@ == reply_text(badge_text(now_local - plan->Ok_0.0, plan->Ok_0.1), plan->Ok_0.2)
        &&& !r->Ok_0.public
    }
}

/// Compiles the `timestamp` command's options against a local wall-clock
/// time (seconds since the epoch, read as UTC) into its private reply.
pub fn compile(options: &Vec<CommandOption>, now_local: i64, default_offset: UtcOffset) -> (r: Result<Reply, BotError>)
    ensures
        compiled(options@, now_local as int, default_offset.secs_spec(), r),
{
    let req = TimestampRequest::extract(options);
    let resolved = match req.validate(default_offset) {
        Ok(v) => v,
        Err(e) => return Err(e),
    };
    let instant = local_to_instant(now_local, resolved.offset);
    reply_for_instant(&resolved, instant)
}

} // verus!
