//! Display formats, their marker letters, and the badge token
//! `<t:{seconds}:{marker}>` that the chat client renders.

use vstd::prelude::*;
use crate::error::BotError;
use crate::text::{decimal, push_char, push_decimal};

verus! {

#[derive(Debug, Clone, Copy, PartialEq, Eq, Structural)]
pub enum TimestampFormat {
    Relative,
    ShortTime,
    LongTime,
    ShortDate,
    LongDate,
    Full,
    FullWithDayOfWeek,
}

/// The marker letter of each format.
pub open spec fn marker_of(f: TimestampFormat) -> char {
    match f {
        TimestampFormat::Relative => 'R',
        TimestampFormat::ShortTime => 't',
        TimestampFormat::LongTime => 'T',
        TimestampFormat::ShortDate => 'd',
        TimestampFormat::LongDate => 'D',
        TimestampFormat::Full => 'f',
        TimestampFormat::FullWithDayOfWeek => 'F',
    }
}

/// The marker alphabet.
pub open spec fn is_marker(c: char) -> bool {
    c == 'R' || c == 't' || c == 'T' || c == 'd' || c == 'D' || c == 'f' || c == 'F'
}

/// The format a marker letter names, if any.
pub open spec fn format_of(c: char) -> Option<TimestampFormat> {
    if c == 'R' { Some(TimestampFormat::Relative) }
    else if c == 't' { Some(TimestampFormat::ShortTime) }
    else if c == 'T' { Some(TimestampFormat::LongTime) }
    else if c == 'd' { Some(TimestampFormat::ShortDate) }
    else if c == 'D' { Some(TimestampFormat::LongDate) }
    else if c == 'f' { Some(TimestampFormat::Full) }
    else if c == 'F' { Some(TimestampFormat::FullWithDayOfWeek) }
    else { None }
}

/// The badge token for an instant and a format.
pub open spec fn badge_text(timestamp: int, f: TimestampFormat) -> Seq<char> {
    seq!['<', 't', ':'] + decimal(timestamp) + seq![':', marker_of(f), '>']
}

impl TimestampFormat {
    pub fn to_marker(&self) -> (c: char)
        ensures
            c == marker_of(*self),
            is_marker(c),
    {
        match self {
            TimestampFormat::Relative => 'R',
            TimestampFormat::ShortTime => 't',
            TimestampFormat::LongTime => 'T',
            TimestampFormat::ShortDate => 'd',
            TimestampFormat::LongDate => 'D',
            TimestampFormat::Full => 'f',
            TimestampFormat::FullWithDayOfWeek => 'F',
        }
    }

    /// The format a marker letter names; any other character is refused.
    pub fn from_marker(c: char) -> (r: Result<TimestampFormat, BotError>)
        ensures
            is_marker(c) <==> r is Ok,
            r is Ok ==> Some(r->Ok_0) == format_of(c),
            r is Err ==> r->Err_0 == BotError::InvalidFormatMarker,
    {
        match c {
            'R' => Ok(TimestampFormat::Relative),
            't' => Ok(TimestampFormat::ShortTime),
            'T' => Ok(TimestampFormat::LongTime),
            'd' => Ok(TimestampFormat::ShortDate),
            'D' => Ok(TimestampFormat::LongDate),
            'f' => Ok(TimestampFormat::Full),
            'F' => Ok(TimestampFormat::FullWithDayOfWeek),
            _ => Err(BotError::InvalidFormatMarker),
        }
    }
}

/// Reading a marker and writing it back gives the same letter, for each of
/// the seven markers.
pub proof fn lemma_marker_round_trip(c: char)
    requires
        is_marker(c),
    ensures
        format_of(c) is Some,
        marker_of(format_of(c)->Some_0) == c,
{
}

/// Writing a format's marker and reading it back gives the same format.
pub proof fn lemma_format_round_trip(f: TimestampFormat)
    ensures
        format_of(marker_of(f)) == Some(f),
{
}

/// A character outside the marker alphabet names no format.
pub proof fn lemma_foreign_marker_refused(c: char)
    requires
        !is_marker(c),
    ensures
        format_of(c) is None,
{
}

/// Renders the badge token `<t:{timestamp}:{marker}>`.
pub fn render(timestamp: i64, format: TimestampFormat) -> (r: String)
    ensures
        r@ == badge_text(timestamp as int, format),
{
    let mut s = String::new();
    push_char(&mut s, '<');
    push_char(&mut s, 't');
    push_char(&mut s, ':');
    push_decimal(&mut s, timestamp);
    push_char(&mut s, ':');
    push_char(&mut s, format.to_marker());
    push_char(&mut s, '>');
    assert(s@ =~= badge_text(timestamp as int, format));
    s
}

} // verus!
