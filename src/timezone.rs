//! Fixed UTC offsets and the descriptor grammar that names them.
//!
//! Accepted, ignoring ASCII case: `default` or `default±H` (relative to the
//! configured default), `utc` or `utc±H`, a bare `±H` or `H`, and a few zone
//! abbreviations. `H` is one or two decimal digits of hours. The result must
//! lie strictly within one day of UTC.

use vstd::prelude::*;
use crate::error::BotError;
use crate::text::{digit_value, is_digit, lower_char, lower_chars, lower_seq, matches_at};

verus! {

/// A fixed offset from UTC, in seconds east, strictly within one day.
#[derive(Debug, Clone, Copy, PartialEq, Eq, Structural)]
pub struct UtcOffset {
    secs: i32,
}

pub open spec fn offset_in_range(secs: int) -> bool {
    -86400 < secs && secs < 86400
}

impl UtcOffset {
    #[verifier::type_invariant]
    spec fn inv(self) -> bool {
        offset_in_range(self.secs as int)
    }

    pub closed spec fn secs_spec(self) -> int {
        self.secs as int
    }

    /// The offset `secs` seconds east of UTC, when that is within one day.
    pub fn east_opt(secs: i32) -> (r: Option<UtcOffset>)
        ensures
            r is Some <==> offset_in_range(secs as int),
            r is Some ==> r->Some_0.secs_spec() == secs as int,
    {
        if -86400 < secs && secs < 86400 {
            Some(UtcOffset { secs })
        } else {
            None
        }
    }

    pub fn seconds(&self) -> (r: i32)
        ensures
            r as int == self.secs_spec(),
            offset_in_range(r as int),
    {
        proof {
            use_type_invariant(self);
        }
        self.secs
    }
}

/// `s` starts with `pat`.
pub open spec fn has_prefix(s: Seq<char>, pat: Seq<char>) -> bool {
    pat.len() <= s.len() && s.subrange(0, pat.len() as int) == pat
}

/// One or two decimal digits of hours.
pub open spec fn unsigned_hours(t: Seq<char>) -> Option<int> {
    if t.len() == 1 && is_digit(t[0]) {
        Some(digit_value(t[0]))
    } else if t.len() == 2 && is_digit(t[0]) && is_digit(t[1]) {
        Some(10 * digit_value(t[0]) + digit_value(t[1]))
    } else {
        None
    }
}

/// Hours with an optional sign.
pub open spec fn signed_hours(t: Seq<char>) -> Option<int> {
    if t.len() > 0 && t[0] == '+' {
        unsigned_hours(t.subrange(1, t.len() as int))
    } else if t.len() > 0 && t[0] == '-' {
        match unsigned_hours(t.subrange(1, t.len() as int)) {
            Some(h) => Some(-h),
            None => None,
        }
    } else {
        unsigned_hours(t)
    }
}

/// `base`, moved by the signed hours in `rest` when there are any.
pub open spec fn shifted(rest: Seq<char>, base: int) -> Option<int> {
    if rest.len() == 0 {
        Some(base)
    } else {
        match signed_hours(rest) {
            Some(h) => Some(base + 3600 * h),
            None => None,
        }
    }
}

/// Hours east of UTC of each zone abbreviation (standard time).
pub open spec fn zone_hours(name: Seq<char>) -> Option<int> {
    if name == "gmt"@ { Some(0) }
    else if name == "cet"@ { Some(1) }
    else if name == "est"@ || name == "et"@ { Some(-5) }
    else if name == "edt"@ { Some(-4) }
    else if name == "cst"@ || name == "ct"@ { Some(-6) }
    else if name == "mst"@ || name == "mt"@ { Some(-7) }
    else if name == "pst"@ || name == "pt"@ { Some(-8) }
    else { None }
}

/// Offset in seconds named by a lower-cased descriptor, not yet held to one day.
pub open spec fn descriptor_secs(l: Seq<char>, default_secs: int) -> Option<int> {
    if has_prefix(l, "default"@) {
        shifted(l.subrange("default"@.len() as int, l.len() as int), default_secs)
    } else if has_prefix(l, "utc"@) {
        shifted(l.subrange("utc"@.len() as int, l.len() as int), 0)
    } else if zone_hours(l) is Some {
        Some(3600 * zone_hours(l)->Some_0)
    } else {
        match signed_hours(l) {
            Some(h) => Some(3600 * h),
            None => None,
        }
    }
}

/// The offset in seconds that a descriptor names, if it names one.
pub open spec fn resolved_secs(descriptor: Seq<char>, default_secs: int) -> Option<int> {
    match descriptor_secs(lower_seq(descriptor), default_secs) {
        Some(s) => if offset_in_range(s) { Some(s) } else { None },
        None => None,
    }
}

fn unsigned_hours_from(v: &Vec<char>, start: usize) -> (r: Option<i64>)
    requires
        start <= v@.len(),
    ensures
        r is Some == unsigned_hours(v@.subrange(start as int, v@.len() as int)) is Some,
        r is Some ==> r->Some_0 as int == unsigned_hours(v@.subrange(start as int, v@.len() as int))->Some_0,
{
    let ghost t = v@.subrange(start as int, v@.len() as int);
    let n = v.len() - start;
    if n == 1 && '0' <= v[start] && v[start] <= '9' {
        Some((v[start] as u32 - '0' as u32) as i64)
    } else if n == 2 && '0' <= v[start] && v[start] <= '9' && '0' <= v[start + 1] && v[start + 1] <= '9' {
        let hi = (v[start] as u32 - '0' as u32) as i64;
        let lo = (v[start + 1] as u32 - '0' as u32) as i64;
        Some(10 * hi + lo)
    } else {
        assert(unsigned_hours(t) is None);
        None
    }
}

fn signed_hours_from(v: &Vec<char>, start: usize) -> (r: Option<i64>)
    requires
        start <= v@.len(),
    ensures
        r is Some == signed_hours(v@.subrange(start as int, v@.len() as int)) is Some,
        r is Some ==> r->Some_0 as int == signed_hours(v@.subrange(start as int, v@.len() as int))->Some_0,
        r is Some ==> -99 <= r->Some_0 <= 99,
{
    let ghost t = v@.subrange(start as int, v@.len() as int);
    if start < v.len() && (v[start] == '+' || v[start] == '-') {
        assert(t.subrange(1, t.len() as int) =~= v@.subrange(start + 1, v@.len() as int));
        match unsigned_hours_from(v, start + 1) {
            Some(h) => if v[start] == '+' { Some(h) } else { Some(-h) },
            None => None,
        }
    } else {
        unsigned_hours_from(v, start)
    }
}

fn shifted_from(v: &Vec<char>, start: usize, base: i64) -> (r: Option<i64>)
    requires
        start <= v@.len(),
        -86400 <= base <= 86400,
    ensures
        r is Some == shifted(v@.subrange(start as int, v@.len() as int), base as int) is Some,
        r is Some ==> r->Some_0 as int == shifted(v@.subrange(start as int, v@.len() as int), base as int)->Some_0,
{
    if start == v.len() {
        Some(base)
    } else {
        match signed_hours_from(v, start) {
            Some(h) => Some(base + 3600 * h),
            None => None,
        }
    }
}

/// Whether `v` is exactly the literal `lit`.
fn is_word(v: &Vec<char>, lit: &str) -> (r: bool)
    ensures
        r == (v@ == lit@),
{
    let r = matches_at(v, 0, lit) && v.len() == lit.unicode_len();
    assert(v@.subrange(0, v@.len() as int) =~= v@);
    r
}

fn zone_hours_of(v: &Vec<char>) -> (r: Option<i64>)
    ensures
        r is Some == zone_hours(v@) is Some,
        r is Some ==> r->Some_0 as int == zone_hours(v@)->Some_0,
        r is Some ==> -8 <= r->Some_0 <= 1,
{
    if is_word(v, "gmt") {
        Some(0)
    } else if is_word(v, "cet") {
        Some(1)
    } else if is_word(v, "est") || is_word(v, "et") {
        Some(-5)
    } else if is_word(v, "edt") {
        Some(-4)
    } else if is_word(v, "cst") || is_word(v, "ct") {
        Some(-6)
    } else if is_word(v, "mst") || is_word(v, "mt") {
        Some(-7)
    } else if is_word(v, "pst") || is_word(v, "pt") {
        Some(-8)
    } else {
        None
    }
}

/// Resolves a timezone descriptor against the configured default offset.
pub fn resolve(descriptor: &str, default_offset: UtcOffset) -> (r: Result<UtcOffset, BotError>)
    ensures
        r is Ok == resolved_secs(descriptor@, default_offset.secs_spec()) is Some,
        r is Ok ==> r->Ok_0.secs_spec() == resolved_secs(descriptor@, default_offset.secs_spec())->Some_0,
        r is Err ==> r->Err_0 == BotError::UnrecognizedTimezone,
{
    let v = lower_chars(descriptor);
    let base = default_offset.seconds() as i64;
    let secs = if matches_at(&v, 0, "default") {
        shifted_from(&v, "default".unicode_len(), base)
    } else if matches_at(&v, 0, "utc") {
        shifted_from(&v, "utc".unicode_len(), 0)
    } else {
        match zone_hours_of(&v) {
            Some(h) => Some(3600 * h),
            None => match signed_hours_from(&v, 0) {
                Some(h) => Some(3600 * h),
                None => None,
            },
        }
    };
    proof {
        assert(v@.subrange(0, v@.len() as int) =~= v@);
    }
    match secs {
        Some(s) => {
            if -86400 < s && s < 86400 {
                match UtcOffset::east_opt(s as i32) {
                    Some(o) => Ok(o),
                    None => Err(BotError::UnrecognizedTimezone),
                }
            } else {
                Err(BotError::UnrecognizedTimezone)
            }
        },
        None => Err(BotError::UnrecognizedTimezone),
    }
}

/// `default` names the configured offset itself, and `utc+3` names three
/// hours east of UTC whatever the default is.
pub proof fn lemma_default_and_utc(default_secs: int)
    requires
        offset_in_range(default_secs),
    ensures
        resolved_secs("default"@, default_secs) == Some(default_secs),
        resolved_secs("utc+3"@, default_secs) == Some(10800int),
{
    reveal_strlit("default");
    reveal_strlit("utc");
    reveal_strlit("utc+3");
    let d = lower_seq("default"@);
    assert(d =~= "default"@);
    assert(d.subrange(0, 7) =~= d);
    assert(d.subrange(7, 7) =~= Seq::<char>::empty());
    let u = lower_seq("utc+3"@);
    assert(u =~= "utc+3"@);
    assert(u.subrange(0, 3) =~= "utc"@);
    let rest = u.subrange(3, 5);
    assert(rest =~= seq!['+', '3']);
    assert(rest.subrange(1, 2) =~= seq!['3']);
}

/// Resolution ignores ASCII case: a descriptor and its lower-cased form name
/// the same offset.
pub proof fn lemma_case_insensitive(descriptor: Seq<char>, default_secs: int)
    ensures
        resolved_secs(lower_seq(descriptor), default_secs) == resolved_secs(descriptor, default_secs),
{
    let l = lower_seq(descriptor);
    assert forall|i: int| 0 <= i < l.len() implies #[trigger] lower_seq(l)[i] == l[i] by {
        let c = descriptor[i];
        if 'A' <= c && c <= 'Z' {
            assert(lower_char(c) as u32 == c as u32 + 32);
        }
    }
    assert(lower_seq(l) =~= l);
}

} // verus!
