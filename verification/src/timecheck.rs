//! Time-threshold matching: compare an extracted timestamp against the
//! current time using a duration threshold parsed from the rule's value
//! field. The clock and timestamp parsing come from the `chrono` crate
//! behind trusted declarations; the comparison itself is verified.

use vstd::prelude::*;

use crate::rule::{spec_parse_time, Exp, parse_time};
use crate::text::{i64_to_string, spec_i64_string, str_eq};

verus! {

/// Every timestamp chrono can represent lies strictly within this many
/// seconds of the epoch (its documented datetime range spans roughly
/// 524288 years, about 8.3e12 seconds; this bound is 2^44).
pub const TIME_RANGE_BOUND: i64 = 0x1000_0000_0000;

/// The same bound in milliseconds.
pub const TIME_RANGE_BOUND_MILLIS: i64 = 0x1000_0000_0000 * 1000;

/// A snapshot of the current time: the true epoch timestamp, the local
/// wall-clock rendered as a naive timestamp, and that wall-clock's
/// midnight. Time-threshold checks take one of these so that the decision
/// is a function of its inputs.
pub struct NowInfo {
    pub epoch_secs: i64,
    pub local_secs: i64,
    pub midnight_secs: i64,
}

impl NowInfo {
    /// The fields a clock snapshot always satisfies: everything in
    /// chrono's range, and midnight opening the day of the local time.
    pub open spec fn wf(&self) -> bool {
        &&& -TIME_RANGE_BOUND < self.epoch_secs < TIME_RANGE_BOUND
        &&& -TIME_RANGE_BOUND < self.local_secs < TIME_RANGE_BOUND
        &&& -TIME_RANGE_BOUND < self.midnight_secs < TIME_RANGE_BOUND
        &&& self.midnight_secs <= self.local_secs < self.midnight_secs + 86400
    }
}

/// Relies on chrono's `Local::now`: the local naive timestamp, its
/// midnight truncation and the epoch timestamp all lie within chrono's
/// documented datetime range, and midnight opens the day holding the
/// local time.
#[verifier::external_body]
pub fn now_info() -> (r: NowInfo)
    ensures
        r.wf(),
{
    let now = chrono::Local::now();
    let naive = now.naive_local();
    let epoch_secs = now.timestamp();
    let local_secs = naive.and_utc().timestamp();
    let midnight = naive.date().and_hms_opt(0, 0, 0).unwrap_or(naive);
    let midnight_secs = midnight.and_utc().timestamp();
    NowInfo { epoch_secs, local_secs, midnight_secs }
}

/// The naive timestamp that a text parses to under a format pattern, or
/// nothing when the parse fails; a function of the two strings alone.
pub uninterp spec fn parsed_epoch_of(s: Seq<char>, fmt: Seq<char>) -> Option<int>;

/// Relies on chrono's `NaiveDateTime::parse_from_str`: the result is a
/// function of the text and the format pattern alone, and a parsed
/// timestamp lies within chrono's documented datetime range.
#[verifier::external_body]
pub(crate) fn parse_datetime_secs(s: &str, fmt: &str) -> (r: Option<i64>)
    ensures
        r is Some <==> parsed_epoch_of(s@, fmt@) is Some,
        r is Some ==> r->0 as int == parsed_epoch_of(s@, fmt@)->0,
        r is Some ==> -TIME_RANGE_BOUND < r->0 < TIME_RANGE_BOUND,
{
    match chrono::NaiveDateTime::parse_from_str(s, fmt) {
        Ok(t) => Some(t.and_utc().timestamp()),
        Err(_) => None,
    }
}

/// The display rendering of a naive timestamp ("2014-11-28 12:00:09");
/// a function of the timestamp alone.
pub uninterp spec fn time_text_of(secs: int) -> Seq<char>;

/// Relies on chrono's `NaiveDateTime` `Display` implementation to render
/// a timestamp, a function of the timestamp alone.
#[verifier::external_body]
pub(crate) fn format_time_text(secs: i64) -> (r: String)
    ensures
        r@ == time_text_of(secs as int),
{
    match chrono::DateTime::from_timestamp(secs, 0) {
        Some(t) => t.naive_utc().to_string(),
        None => String::new(),
    }
}

/// The format string selecting date-only comparison mode.
pub open spec fn date_only_format() -> Seq<char> {
    "%Y-%m-%d"@
}

pub open spec fn date_time_format() -> Seq<char> {
    "%Y-%m-%d %H:%M:%S"@
}

pub open spec fn midnight_suffix() -> Seq<char> {
    " 00:00:00"@
}

/// The timestamp the extracted value stands for. In date-only mode the
/// value is anchored to midnight; otherwise it is parsed with the rule's
/// own format.
pub open spec fn spec_target_time(exp_format: Seq<char>, m: Seq<char>) -> Option<int> {
    if exp_format == date_only_format() {
        parsed_epoch_of(m + midnight_suffix(), date_time_format())
    } else {
        parsed_epoch_of(m, exp_format)
    }
}

/// The side of "now" the target is compared against: today's midnight in
/// date-only mode, the local wall-clock otherwise.
pub open spec fn spec_now_anchor(exp_format: Seq<char>, now: NowInfo) -> int {
    if exp_format == date_only_format() {
        now.midnight_secs as int
    } else {
        now.local_secs as int
    }
}

/// Whether the extracted time is fresh enough: the difference between now
/// and the target stays below the threshold. A target in the future gives
/// a negative difference and always matches; an unparseable value never
/// matches.
pub open spec fn spec_time_matched(
    exp_format: Seq<char>,
    exp_value: Seq<char>,
    m: Seq<char>,
    now: NowInfo,
) -> bool {
    match spec_target_time(exp_format, m) {
        Some(t) => spec_now_anchor(exp_format, now) - t < spec_parse_time(exp_value),
        None => false,
    }
}

/// The explanation when the extracted value does not parse as a time.
pub open spec fn spec_time_parse_fail_message(m: Seq<char>, fmt: Seq<char>) -> Seq<char> {
    "could not parse time value: "@ + m + " with format: "@ + fmt
}

/// The explanation of a time comparison: current time, target time,
/// difference, threshold and verdict.
pub open spec fn spec_time_compare_message(
    now_text: Seq<char>,
    target_text: Seq<char>,
    diff: int,
    threshold: int,
    value: Seq<char>,
    matched: bool,
) -> Seq<char> {
    "current time: "@ + now_text + ", target time: "@ + target_text + ", diff: "@
        + spec_i64_string(diff) + (if matched {
        "s < threshold: "@
    } else {
        "s >= threshold: "@
    }) + spec_i64_string(threshold) + "s("@ + value + (if matched {
        "), within the time range"@
    } else {
        "), outside the time range"@
    })
}

/// The full explanation attached to a time-threshold match result.
pub open spec fn spec_time_value_message(
    exp_format: Seq<char>,
    exp_value: Seq<char>,
    m: Seq<char>,
    now: NowInfo,
) -> Seq<char> {
    match spec_target_time(exp_format, m) {
        Some(t) => {
            let anchor = spec_now_anchor(exp_format, now);
            let threshold = spec_parse_time(exp_value);
            spec_time_compare_message(
                time_text_of(anchor),
                time_text_of(t),
                anchor - t,
                threshold,
                exp_value,
                anchor - t < threshold,
            )
        },
        None => spec_time_parse_fail_message(m, exp_format),
    }
}

/// Evaluate a time-threshold rule against an extracted value. In
/// date-only mode (`format == "%Y-%m-%d"`) the value is parsed as a bare
/// date and both sides are anchored to midnight; otherwise the value is
/// parsed with the rule's format. The check passes exactly when
/// `now - target < threshold`, with the threshold taken from the rule's
/// value field.
pub fn process_time_value(exp: &Exp, m: &str, now: &NowInfo) -> (r: (bool, String))
    requires
        now.wf(),
    ensures
        r.0 == spec_time_matched(exp.format@, exp.value@, m@, *now),
        r.1@ == spec_time_value_message(exp.format@, exp.value@, m@, *now),
{
    let date_mode = str_eq(exp.format.as_str(), "%Y-%m-%d");
    let target: Option<i64> = if date_mode {
        let mut anchored = m.to_owned();
        anchored.append(" 00:00:00");
        parse_datetime_secs(anchored.as_str(), "%Y-%m-%d %H:%M:%S")
    } else {
        parse_datetime_secs(m, exp.format.as_str())
    };
    match target {
        Some(t) => {
            let anchor = if date_mode {
                now.midnight_secs
            } else {
                now.local_secs
            };
            let diff = anchor - t;
            let threshold = parse_time(exp.value.as_str());
            let matched = diff < threshold;
            let now_text = format_time_text(anchor);
            let target_text = format_time_text(t);
            let diff_text = i64_to_string(diff);
            let threshold_text = i64_to_string(threshold);
            let mut msg = String::new();
            msg.append("current time: ");
            msg.append(now_text.as_str());
            msg.append(", target time: ");
            msg.append(target_text.as_str());
            msg.append(", diff: ");
            msg.append(diff_text.as_str());
            if matched {
                msg.append("s < threshold: ");
            } else {
                msg.append("s >= threshold: ");
            }
            msg.append(threshold_text.as_str());
            msg.append("s(");
            msg.append(exp.value.as_str());
            if matched {
                msg.append("), within the time range");
            } else {
                msg.append("), outside the time range");
            }
            proof {
                assert(msg@ =~= spec_time_value_message(exp.format@, exp.value@, m@, *now));
            }
            (matched, msg)
        },
        None => {
            let mut msg = String::new();
            msg.append("could not parse time value: ");
            msg.append(m);
            msg.append(" with format: ");
            msg.append(exp.format.as_str());
            proof {
                assert(msg@ =~= spec_time_value_message(exp.format@, exp.value@, m@, *now));
            }
            (false, msg)
        },
    }
}

} // verus!
