//! The time subcommand: conversion between Unix timestamps and civil time
//! strings of the fixed shape `yyyy-mm-dd hh:mm:ss`, in seconds or in
//! milliseconds, at the local offset with a fixed UTC+8 fallback.
//!
//! Calendar arithmetic is the work of an external collaborator (the `time`
//! crate); the handlers here validate the request, scale between units, and
//! assemble the result lines.

use vstd::prelude::*;
use crate::errors::CmdError;
use crate::registry::{Command, CommandKind, Module};
use crate::text::{dec_int, int_text_val, is_i128_text, trunc_div};

verus! {

/// The time subcommand.
pub struct Time {}

impl Command for Time {
    /// The registry entry of the time subcommand.
    fn module() -> (d: Module)
        ensures
            d.name@ == "time"@,
            d.desc@ == "date and time operations: timestamp conversion"@,
            d.kind == CommandKind::TimeOps,
    {
        Module {
            name: "time".to_owned(),
            desc: "date and time operations: timestamp conversion".to_owned(),
            kind: CommandKind::TimeOps,
        }
    }
}

/// The unit a timestamp is given or asked for in.
#[derive(Clone, Copy, PartialEq, Eq, Structural)]
pub enum TimeUnit {
    Seconds,
    Millis,
}

/// `u` names a supported unit.
pub open spec fn valid_unit(u: Seq<char>) -> bool {
    u == "s"@ || u == "ms"@
}

/// The unit named by `u`.
pub open spec fn unit_of(u: Seq<char>) -> TimeUnit
    recommends
        valid_unit(u),
{
    if u == "s"@ {
        TimeUnit::Seconds
    } else {
        TimeUnit::Millis
    }
}

/// Nanoseconds per tick of the unit.
pub open spec fn unit_scale(u: TimeUnit) -> int {
    match u {
        TimeUnit::Seconds => 1_000_000_000,
        TimeUnit::Millis => 1_000_000,
    }
}

/// Reads the unit argument: exactly `s` or `ms`, anything else is
/// unsupported.
pub fn parse_unit(unit: &str) -> (r: Result<TimeUnit, CmdError>)
    ensures
        unit@ == "s"@ <==> r == Ok::<TimeUnit, CmdError>(TimeUnit::Seconds),
        unit@ == "ms"@ <==> r == Ok::<TimeUnit, CmdError>(TimeUnit::Millis),
        !valid_unit(unit@) <==> r == Err::<TimeUnit, CmdError>(CmdError::UnsupportedUnit),
{
    proof {
        reveal_strlit("s");
        reveal_strlit("ms");
    }
    let n = unit.unicode_len();
    if n == 1 && unit.get_char(0) == 's' {
        proof {
            assert(unit@ =~= "s"@);
        }
        Ok(TimeUnit::Seconds)
    } else if n == 2 && unit.get_char(0) == 'm' && unit.get_char(1) == 's' {
        proof {
            assert(unit@ =~= "ms"@);
        }
        Ok(TimeUnit::Millis)
    } else {
        proof {
            assert(unit@ != "s"@ && unit@ != "ms"@);
        }
        Err(CmdError::UnsupportedUnit)
    }
}

/// An offset from UTC in whole seconds, as far as the calendar collaborator
/// can represent one.
pub struct UtcOffsetSecs {
    pub seconds: i32,
}

impl UtcOffsetSecs {
    /// The collaborator stores offsets up to twenty-five hours, fifty-nine
    /// minutes and fifty-nine seconds on either side of UTC.
    pub open spec fn wf(&self) -> bool {
        -93599 <= self.seconds <= 93599
    }
}

/// The offset used when the local one cannot be determined: UTC+8.
pub const FALLBACK_OFFSET_SECONDS: i32 = 28800;

/// Relies on `time::UtcOffset::current_local_offset` and
/// `time::UtcOffset::whole_seconds`: the local offset of this process in
/// seconds, or `None` when it cannot be determined. An offset always fits
/// `time`'s stored range of up to 25:59:59 on either side of UTC.
#[verifier::external_body]
fn local_offset_seconds() -> (r: Option<i32>)
    ensures
        r matches Some(s) ==> -93599 <= s <= 93599,
{
    match time::UtcOffset::current_local_offset() {
        Ok(o) => Some(o.whole_seconds()),
        Err(_) => None,
    }
}

/// The offset the handlers work at, given what the collaborator reported:
/// the local offset when one came back in the representable range, the fixed
/// UTC+8 fallback otherwise.
pub fn offset_from_local(local: Option<i32>) -> (r: UtcOffsetSecs)
    ensures
        r.wf(),
        match local {
            Some(s) => if -93599 <= s <= 93599 {
                r.seconds == s
            } else {
                r.seconds == FALLBACK_OFFSET_SECONDS
            },
            None => r.seconds == FALLBACK_OFFSET_SECONDS,
        },
{
    match local {
        Some(s) => {
            if -93599 <= s && s <= 93599 {
                UtcOffsetSecs { seconds: s }
            } else {
                UtcOffsetSecs { seconds: FALLBACK_OFFSET_SECONDS }
            }
        },
        None => UtcOffsetSecs { seconds: FALLBACK_OFFSET_SECONDS },
    }
}

/// The offset applied to every conversion: the local one when it can be
/// determined, UTC+8 otherwise.
pub fn get_utc_offset() -> (r: UtcOffsetSecs)
    ensures
        r.wf(),
{
    offset_from_local(local_offset_seconds())
}

/// Relies on `time::OffsetDateTime::now_utc` and `unix_timestamp_nanos`: the
/// current moment as nanoseconds since the Unix epoch.
#[verifier::external_body]
fn now_unix_nanos() -> (r: i128) {
    time::OffsetDateTime::now_utc().unix_timestamp_nanos()
}

/// The civil time string of the moment `nanos` nanoseconds after the Unix
/// epoch, at the given offset, in the shape `yyyy-mm-dd hh:mm:ss`. A
/// function of its arguments alone; named because the calendar arithmetic
/// behind it belongs to the collaborator.
pub uninterp spec fn fmt_of(nanos: int, offset_seconds: int) -> Seq<char>;

/// Whether the moment `nanos` can be rendered at the given offset: the
/// moment and the offset must lie in the collaborator's calendar range.
/// Like the rendering itself, a function of the two arguments alone.
pub uninterp spec fn fmt_ok_of(nanos: int, offset_seconds: int) -> bool;

/// Relies on `time::OffsetDateTime::from_unix_timestamp_nanos`,
/// `checked_to_offset`, `time::format_description::parse` and
/// `OffsetDateTime::format`: renders the moment at the offset as
/// `yyyy-mm-dd hh:mm:ss`, or `None` when the moment or the offset is outside
/// the collaborator's range; whether it succeeds depends on the arguments
/// alone.
#[verifier::external_body]
fn format_at_offset(nanos: i128, offset_seconds: i32) -> (r: Option<String>)
    ensures
        r is Some <==> fmt_ok_of(nanos as int, offset_seconds as int),
        r matches Some(s) ==> s@ == fmt_of(nanos as int, offset_seconds as int),
{
    let off = time::UtcOffset::from_whole_seconds(offset_seconds).ok()?;
    let odt = time::OffsetDateTime::from_unix_timestamp_nanos(nanos).ok()?;
    let odt = odt.checked_to_offset(off)?;
    let fmt = time::format_description::parse(
        "[year]-[month]-[day] [hour]:[minute]:[second]",
    ).ok()?;
    odt.format(&fmt).ok()
}

/// The Unix timestamp, in whole seconds, of the civil time string `s` read
/// at the given offset. A function of its arguments alone.
pub uninterp spec fn dt_seconds_of(s: Seq<char>, offset_seconds: int) -> int;

/// The Unix timestamp, in nanoseconds, of the civil time string `s` read at
/// the given offset. A function of its arguments alone.
pub uninterp spec fn dt_nanos_of(s: Seq<char>, offset_seconds: int) -> int;

/// Whether `s` parses as a `yyyy-mm-dd hh:mm:ss` moment readable at the
/// given offset. Like the parse itself, a function of the two arguments
/// alone.
pub uninterp spec fn dt_ok_of(s: Seq<char>, offset_seconds: int) -> bool;

/// Relies on `time::format_description::parse`,
/// `time::PrimitiveDateTime::parse`, `assume_offset`, `unix_timestamp` and
/// `unix_timestamp_nanos`: reads a `yyyy-mm-dd hh:mm:ss` string as a moment
/// at the given offset and returns its timestamp in whole seconds and in
/// nanoseconds, or `None` when the string does not parse or the offset is
/// outside the collaborator's range; whether it succeeds depends on the
/// arguments alone. The format has no subsecond component, so the parsed
/// moment lies on a whole second.
#[verifier::external_body]
fn parse_at_offset(s: &str, offset_seconds: i32) -> (r: Option<(i64, i128)>)
    ensures
        r is Some <==> dt_ok_of(s@, offset_seconds as int),
        r matches Some(p) ==> p.0 as int == dt_seconds_of(s@, offset_seconds as int) && p.1
            as int == dt_nanos_of(s@, offset_seconds as int) && p.1 as int == p.0 as int
            * 1_000_000_000,
{
    let off = time::UtcOffset::from_whole_seconds(offset_seconds).ok()?;
    let fmt = time::format_description::parse(
        "[year]-[month]-[day] [hour]:[minute]:[second]",
    ).ok()?;
    let pdt = time::PrimitiveDateTime::parse(s, &fmt).ok()?;
    let odt = pdt.assume_offset(off);
    Some((odt.unix_timestamp(), odt.unix_timestamp_nanos()))
}

/// Relies on `str::parse::<i128>`: `Some` exactly for an optional ASCII
/// sign followed by one or more ASCII digits whose value fits the type, and
/// then the value those digits denote.
#[verifier::external_body]
fn parse_i128(s: &str) -> (r: Option<i128>)
    ensures
        r is Some <==> is_i128_text(s@),
        r matches Some(v) ==> v as int == int_text_val(s@),
{
    s.parse::<i128>().ok()
}

/// Relies on the decimal `Display` of `i128`: the digits of the value, with
/// a leading minus sign when it is negative.
#[verifier::external_body]
fn i128_to_string(n: i128) -> (r: String)
    ensures
        r@ == dec_int(n as int),
{
    n.to_string()
}

/// Machine division of a timestamp by a positive scale, truncating toward
/// zero.
fn div_trunc_by(n: i128, d: i128) -> (r: i128)
    requires
        1 < d,
    ensures
        r as int == trunc_div(n as int, d as int),
{
    match n.checked_div(d) {
        Some(q) => q,
        None => {
            proof {
                let x = n as int;
                assert((-x) / (d as int) <= -x) by (nonlinear_arith)
                    requires
                        x < 0,
                        d > 1,
                ;
                assert(false);
            }
            0
        },
    }
}

/// The single result line reporting the current timestamp of the moment
/// `nanos`, in the requested unit.
pub open spec fn current_lines(unit: TimeUnit, nanos: int) -> Seq<Seq<char>> {
    match unit {
        TimeUnit::Seconds => seq![
            "current timestamp (s): "@ + dec_int(trunc_div(nanos, 1_000_000_000)),
        ],
        TimeUnit::Millis => seq![
            "current timestamp (ms): "@ + dec_int(trunc_div(nanos, 1_000_000)),
        ],
    }
}

/// Renders the current-timestamp report for the moment `now_nanos`.
pub fn current_timestamp_lines(unit: TimeUnit, now_nanos: i128) -> (r: Vec<String>)
    ensures
        r.deep_view() == current_lines(unit, now_nanos as int),
{
    let (prefix, scale): (&str, i128) = match unit {
        TimeUnit::Seconds => ("current timestamp (s): ", 1_000_000_000),
        TimeUnit::Millis => ("current timestamp (ms): ", 1_000_000),
    };
    let q = div_trunc_by(now_nanos, scale);
    let mut line = prefix.to_owned();
    let digits = i128_to_string(q);
    line.append(digits.as_str());
    let lines = vec![line];
    proof {
        assert(lines.deep_view() =~= current_lines(unit, now_nanos as int));
    }
    lines
}

/// The result lines of the current-timestamp request, `None` standing for a
/// missing unit argument.
pub fn print_current_timestamp(unit: Option<&str>) -> (r: Result<Vec<String>, CmdError>)
    ensures
        unit is None <==> r == Err::<Vec<String>, CmdError>(CmdError::InvalidArgument),
        r matches Err(e) ==> e is InvalidArgument || e is UnsupportedUnit,
        unit matches Some(u) ==> (!valid_unit(u@) <==> r == Err::<Vec<String>, CmdError>(CmdError::UnsupportedUnit)),
        r matches Ok(lines) ==> unit matches Some(u) && valid_unit(u@) && (exists|n: int|
            lines.deep_view() == current_lines(unit_of(u@), n)),
{
    let u = match unit {
        None => {
            return Err(CmdError::InvalidArgument);
        },
        Some(u) => u,
    };
    let tu = match parse_unit(u) {
        Ok(t) => t,
        Err(e) => {
            return Err(e);
        },
    };
    let now = now_unix_nanos();
    let lines = current_timestamp_lines(tu, now);
    proof {
        assert(lines.deep_view() == current_lines(unit_of(u@), now as int));
    }
    Ok(lines)
}

/// The single result line of a timestamp-to-string conversion.
pub open spec fn ts_ok_lines(ts: Seq<char>, unit: TimeUnit, offset_seconds: int) -> Seq<
    Seq<char>,
> {
    seq!["formatted time: "@ + fmt_of(unit_scale(unit) * int_text_val(ts), offset_seconds)]
}

/// When a timestamp-to-string conversion succeeds: the text is an integer,
/// the scaled moment fits the widest machine integer, and the collaborator
/// can render that moment at the offset.
pub open spec fn ts_success(ts: Seq<char>, unit: TimeUnit, offset_seconds: int) -> bool {
    is_i128_text(ts) && i128::MIN <= unit_scale(unit) * int_text_val(ts) <= i128::MAX
        && fmt_ok_of(unit_scale(unit) * int_text_val(ts), offset_seconds)
}

/// Converts the timestamp written in `ts_text`, taken in `unit`, to a civil
/// time string at the given offset. The unit must be supported and the
/// timestamp must be an integer in range; a moment the collaborator cannot
/// represent fails like a malformed timestamp.
pub fn timestamp_to_str(ts_text: &str, unit: &str, offset_seconds: i32) -> (r: Result<
    Vec<String>,
    CmdError,
>)
    ensures
        !valid_unit(unit@) <==> r == Err::<Vec<String>, CmdError>(CmdError::UnsupportedUnit),
        valid_unit(unit@) && !is_i128_text(ts_text@) ==> r == Err::<Vec<String>, CmdError>(CmdError::InvalidFormat),
        r matches Err(e) ==> e is UnsupportedUnit || e is InvalidFormat,
        r is Ok <==> valid_unit(unit@) && ts_success(ts_text@, unit_of(unit@), offset_seconds as int),
        r matches Ok(lines) ==> valid_unit(unit@) && is_i128_text(ts_text@)
            && lines.deep_view() == ts_ok_lines(ts_text@, unit_of(unit@), offset_seconds as int),
{
    let tu = match parse_unit(unit) {
        Ok(t) => t,
        Err(e) => {
            return Err(e);
        },
    };
    let v = match parse_i128(ts_text) {
        Some(v) => v,
        None => {
            return Err(CmdError::InvalidFormat);
        },
    };
    let scale: i128 = match tu {
        TimeUnit::Seconds => 1_000_000_000,
        TimeUnit::Millis => 1_000_000,
    };
    proof {
        assert(v as int * scale as int == unit_scale(unit_of(unit@)) * int_text_val(ts_text@));
    }
    let nanos = match v.checked_mul(scale) {
        Some(n) => n,
        None => {
            return Err(CmdError::InvalidFormat);
        },
    };
    match format_at_offset(nanos, offset_seconds) {
        Some(s) => {
            let mut line = "formatted time: ".to_owned();
            line.append(s.as_str());
            let lines = vec![line];
            proof {
                assert(nanos as int == unit_scale(tu) * int_text_val(ts_text@));
                assert(lines.deep_view() =~= ts_ok_lines(
                    ts_text@,
                    unit_of(unit@),
                    offset_seconds as int,
                ));
            }
            Ok(lines)
        },
        None => Err(CmdError::InvalidFormat),
    }
}

/// The single result line of a string-to-timestamp conversion.
pub open spec fn st_ok_lines(s: Seq<char>, unit: TimeUnit, offset_seconds: int) -> Seq<
    Seq<char>,
> {
    match unit {
        TimeUnit::Seconds => seq![
            "timestamp (s): "@ + dec_int(dt_seconds_of(s, offset_seconds)),
        ],
        TimeUnit::Millis => seq![
            "timestamp (ms): "@ + dec_int(1000 * dt_seconds_of(s, offset_seconds)),
        ],
    }
}

/// Converts the civil time string `time_str`, read at the given offset, to a
/// timestamp in `unit`. The unit must be supported; a string that does not
/// match `yyyy-mm-dd hh:mm:ss` fails with an invalid format.
pub fn str_to_timestamp(time_str: &str, unit: &str, offset_seconds: i32) -> (r: Result<
    Vec<String>,
    CmdError,
>)
    ensures
        !valid_unit(unit@) <==> r == Err::<Vec<String>, CmdError>(CmdError::UnsupportedUnit),
        r matches Err(e) ==> e is UnsupportedUnit || e is InvalidFormat,
        r is Ok <==> valid_unit(unit@) && dt_ok_of(time_str@, offset_seconds as int),
        r matches Ok(lines) ==> valid_unit(unit@) && lines.deep_view() == st_ok_lines(
            time_str@,
            unit_of(unit@),
            offset_seconds as int,
        ),
{
    let tu = match parse_unit(unit) {
        Ok(t) => t,
        Err(e) => {
            return Err(e);
        },
    };
    let (secs, nanos) = match parse_at_offset(time_str, offset_seconds) {
        Some(p) => p,
        None => {
            return Err(CmdError::InvalidFormat);
        },
    };
    let (prefix, value): (&str, i128) = match tu {
        TimeUnit::Seconds => ("timestamp (s): ", secs as i128),
        TimeUnit::Millis => ("timestamp (ms): ", div_trunc_by(nanos, 1_000_000)),
    };
    proof {
        if tu is Millis {
            let s_int = secs as int;
            if s_int >= 0 {
                vstd::arithmetic::div_mod::lemma_div_by_multiple(s_int * 1000, 1_000_000);
            } else {
                vstd::arithmetic::div_mod::lemma_div_by_multiple((-s_int) * 1000, 1_000_000);
            }
            assert(value as int == 1000 * s_int);
        }
    }
    let mut line = prefix.to_owned();
    let digits = i128_to_string(value);
    line.append(digits.as_str());
    let lines = vec![line];
    proof {
        assert(lines.deep_view() =~= st_ok_lines(time_str@, unit_of(unit@), offset_seconds as int));
    }
    Ok(lines)
}

/// The handler of the time subcommand: exactly one selector is honoured, in
/// the order current-time, timestamp, time string; no selector at all is an
/// invalid command. The offset of the conversions is the local one, with the
/// fixed UTC+8 fallback.
pub fn time_run(
    now: bool,
    timestamp: Option<&str>,
    time_str: Option<&str>,
    unit: Option<&str>,
) -> (r: Result<Vec<String>, CmdError>)
    ensures
        !now && timestamp is None && time_str is None ==> r == Err::<Vec<String>, CmdError>(CmdError::InvalidArgument),
        now || timestamp is Some || time_str is Some ==> (unit is None <==> r == Err::<Vec<String>, CmdError>(
            CmdError::InvalidArgument,
        )),
        (now || timestamp is Some || time_str is Some) && unit is Some ==> (!valid_unit(
            unit->Some_0@,
        ) <==> r == Err::<Vec<String>, CmdError>(CmdError::UnsupportedUnit)),
        r matches Err(e) ==> e is InvalidArgument || e is UnsupportedUnit || e is InvalidFormat,
        now && unit is Some && valid_unit(unit->Some_0@) ==> r is Ok,
        !now && timestamp is Some && unit is Some && valid_unit(unit->Some_0@) ==> (exists|
            off: int,
        |
            -93599 <= off <= 93599 && (r is Ok <==> #[trigger] ts_success(
                timestamp->Some_0@,
                unit_of(unit->Some_0@),
                off,
            ))),
        !now && timestamp is None && time_str is Some && unit is Some && valid_unit(
            unit->Some_0@,
        ) ==> (exists|off: int|
            -93599 <= off <= 93599 && (r is Ok <==> dt_ok_of(time_str->Some_0@, off))),
        now && r is Ok ==> unit is Some && valid_unit(unit->Some_0@) && (exists|n: int|
            r->Ok_0.deep_view() == current_lines(unit_of(unit->Some_0@), n)),
        !now && timestamp is Some && r is Ok ==> unit is Some && valid_unit(unit->Some_0@)
            && is_i128_text(timestamp->Some_0@) && (exists|off: int|
            -93599 <= off <= 93599 && r->Ok_0.deep_view() == ts_ok_lines(
                timestamp->Some_0@,
                unit_of(unit->Some_0@),
                off,
            )),
        !now && timestamp is None && time_str is Some && r is Ok ==> unit is Some && valid_unit(
            unit->Some_0@,
        ) && (exists|off: int|
            -93599 <= off <= 93599 && r->Ok_0.deep_view() == st_ok_lines(
                time_str->Some_0@,
                unit_of(unit->Some_0@),
                off,
            )),
{
    if now {
        print_current_timestamp(unit)
    } else if let Some(t) = timestamp {
        match unit {
            None => Err(CmdError::InvalidArgument),
            Some(u) => {
                let off = get_utc_offset();
                let r = timestamp_to_str(t, u, off.seconds);
                proof {
                    if valid_unit(u@) {
                        assert(unit->Some_0@ == u@ && timestamp->Some_0@ == t@);
                        assert(-93599 <= off.seconds as int <= 93599 && (r is Ok <==> ts_success(
                            timestamp->Some_0@,
                            unit_of(unit->Some_0@),
                            off.seconds as int,
                        )));
                    }
                    if r is Ok {
                        assert(r->Ok_0.deep_view() == ts_ok_lines(
                            t@,
                            unit_of(u@),
                            off.seconds as int,
                        ));
                    }
                }
                r
            },
        }
    } else if let Some(s) = time_str {
        match unit {
            None => Err(CmdError::InvalidArgument),
            Some(u) => {
                let off = get_utc_offset();
                let r = str_to_timestamp(s, u, off.seconds);
                proof {
                    if valid_unit(u@) {
                        assert(-93599 <= off.seconds as int <= 93599 && (r is Ok <==> dt_ok_of(
                            s@,
                            off.seconds as int,
                        )));
                    }
                    if r is Ok {
                        assert(r->Ok_0.deep_view() == st_ok_lines(
                            s@,
                            unit_of(u@),
                            off.seconds as int,
                        ));
                    }
                }
                r
            },
        }
    } else {
        Err(CmdError::InvalidArgument)
    }
}

} // verus!
