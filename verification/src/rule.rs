//! The match-rule expression language: a compact pipe-delimited string
//! `marker|path|value` or `marker|path|value|format` parsed into an [`Exp`],
//! the duration-threshold grammar (`"300s"`, `"5m"`, `"2h"`, `"1d"`), and
//! literal matching of an extracted value against the configured one.

use vstd::prelude::*;

use crate::text::{parse_i64, spec_parse_i64, spec_split, spec_trim, split_char, str_eq, trim_str};

verus! {

/// A parsed match rule. `marker` selects the comparison: `"T"` asks for a
/// time-threshold check, anything else for literal equality. `json_path`
/// selects the value in the probed document, `value` is the literal to
/// compare with (or the threshold duration when time-based), and `format`
/// is the timestamp parse pattern (empty means date-only comparison).
pub struct Exp {
    pub marker: String,
    pub json_path: String,
    pub value: String,
    pub format: String,
}

/// A fatal configuration fault: the affected unit must be skipped or
/// refused, never silently continued.
#[derive(Debug)]
pub enum ConfigError {
    /// A rule expression with fewer than three pipe-separated fields.
    BadRuleExpression,
}

impl ConfigError {
    /// A short description of the fault.
    pub fn text(&self) -> (r: String)
        ensures
            r@ == "rule expression needs at least marker|path|value"@,
    {
        let r = "rule expression needs at least marker|path|value";
        r.to_owned()
    }
}

/// The pipe-separated fields of a rule expression.
pub open spec fn spec_exp_fields(s: Seq<char>) -> Seq<Seq<char>> {
    spec_split(s, '|')
}

/// A rule expression is well formed when it has at least three fields.
pub open spec fn spec_exp_ok(s: Seq<char>) -> bool {
    spec_exp_fields(s).len() >= 3
}

pub open spec fn spec_exp_marker(s: Seq<char>) -> Seq<char> {
    spec_exp_fields(s)[0]
}

pub open spec fn spec_exp_path(s: Seq<char>) -> Seq<char> {
    spec_exp_fields(s)[1]
}

pub open spec fn spec_exp_value(s: Seq<char>) -> Seq<char> {
    spec_trim(spec_exp_fields(s)[2])
}

pub open spec fn spec_exp_format(s: Seq<char>) -> Seq<char> {
    if spec_exp_fields(s).len() == 4 {
        spec_exp_fields(s)[3]
    } else {
        Seq::<char>::empty()
    }
}

/// Parse a rule expression. The `value` field is trimmed of surrounding
/// whitespace; the other fields are taken verbatim. Fewer than three
/// fields is a configuration error.
pub fn parse_exp(exp: &str) -> (r: Result<Exp, ConfigError>)
    ensures
        r is Ok <==> spec_exp_ok(exp@),
        r is Ok ==> r->Ok_0.marker@ == spec_exp_marker(exp@),
        r is Ok ==> r->Ok_0.json_path@ == spec_exp_path(exp@),
        r is Ok ==> r->Ok_0.value@ == spec_exp_value(exp@),
        r is Ok ==> r->Ok_0.format@ == spec_exp_format(exp@),
{
    let items = split_char(exp, '|');
    proof {
        assert(items.deep_view().len() == items@.len());
        assert(forall|i: int|
            0 <= i < items@.len() ==> items.deep_view()[i] == #[trigger] items@[i]@);
    }
    if items.len() < 3 {
        return Err(ConfigError::BadRuleExpression);
    }
    let marker = items[0].clone();
    let json_path = items[1].clone();
    let value = trim_str(items[2].as_str());
    let format = if items.len() == 4 {
        items[3].clone()
    } else {
        String::new()
    };
    Ok(Exp { marker, json_path, value, format })
}

/// Drop every trailing occurrence of the two given characters.
pub open spec fn drop_suffix_chars(s: Seq<char>, lo: char, up: char) -> Seq<char>
    decreases s.len(),
{
    if s.len() > 0 && (s.last() == lo || s.last() == up) {
        drop_suffix_chars(s.drop_last(), lo, up)
    } else {
        s
    }
}

/// The threshold for a recognized unit suffix: the prefix parsed as an
/// integer and scaled by the unit's seconds. An unparseable prefix or a
/// scaled value outside the machine range falls back to the default of
/// 300 seconds.
pub open spec fn scaled_threshold(digits: Seq<char>, factor: int) -> int {
    match spec_parse_i64(digits) {
        Some(v) => if i64::MIN <= v * factor <= i64::MAX {
            v * factor
        } else {
            300
        },
        None => 300,
    }
}

/// The threshold in seconds named by a duration string: a number with a
/// `d`, `h`, `m` or `s` suffix (either case); anything else is 300.
pub open spec fn spec_parse_time(s: Seq<char>) -> int {
    if s.len() > 0 && (s.last() == 'd' || s.last() == 'D') {
        scaled_threshold(drop_suffix_chars(s, 'd', 'D'), 86400)
    } else if s.len() > 0 && (s.last() == 'h' || s.last() == 'H') {
        scaled_threshold(drop_suffix_chars(s, 'h', 'H'), 3600)
    } else if s.len() > 0 && (s.last() == 'm' || s.last() == 'M') {
        scaled_threshold(drop_suffix_chars(s, 'm', 'M'), 60)
    } else if s.len() > 0 && (s.last() == 's' || s.last() == 'S') {
        scaled_threshold(drop_suffix_chars(s, 's', 'S'), 1)
    } else {
        300
    }
}

proof fn lemma_drop_suffix_subrange(s: Seq<char>, lo: char, up: char, i: int)
    requires
        0 <= i <= s.len(),
        forall|j: int| i <= j < s.len() ==> s[j] == lo || s[j] == up,
    ensures
        drop_suffix_chars(s, lo, up) == drop_suffix_chars(s.subrange(0, i), lo, up),
    decreases s.len() - i,
{
    if i < s.len() {
        assert(s[s.len() - 1] == lo || s[s.len() - 1] == up);
        assert(s.subrange(0, s.len() - 1) =~= s.drop_last());
        lemma_drop_suffix_subrange(s.drop_last(), lo, up, i);
        assert(s.drop_last().subrange(0, i) =~= s.subrange(0, i));
    } else {
        assert(s.subrange(0, i) =~= s);
    }
}

fn scaled_by_unit(input: &str, lo: char, up: char, factor: i64) -> (r: i64)
    requires
        1 <= factor <= 86400,
    ensures
        r as int == scaled_threshold(drop_suffix_chars(input@, lo, up), factor as int),
{
    let n = input.unicode_len();
    let mut end = n;
    while end > 0 && (input.get_char(end - 1) == lo || input.get_char(end - 1) == up)
        invariant
            0 <= end <= n,
            n == input@.len(),
            forall|j: int| end <= j < n ==> input@[j] == lo || input@[j] == up,
        decreases end,
    {
        end = end - 1;
    }
    proof {
        lemma_drop_suffix_subrange(input@, lo, up, end as int);
        let head = input@.subrange(0, end as int);
        if end > 0 {
            assert(head.last() == input@[end - 1]);
            assert(!(head.last() == lo || head.last() == up));
        }
        assert(drop_suffix_chars(head, lo, up) == head);
    }
    let digits = input.substring_char(0, end);
    match parse_i64(digits) {
        Some(v) => {
            proof {
                assert((v as i128) * (factor as i128) <= (i64::MAX as i128) * 86400
                    && (v as i128) * (factor as i128) >= (i64::MIN as i128) * 86400) by (nonlinear_arith)
                    requires
                        i64::MIN <= v <= i64::MAX,
                        1 <= factor <= 86400,
                ;
            }
            let prod: i128 = (v as i128) * (factor as i128);
            if prod < i64::MIN as i128 || prod > i64::MAX as i128 {
                300
            } else {
                prod as i64
            }
        },
        None => 300,
    }
}

/// Parse a duration string into a threshold in seconds. `"300s"`, `"5m"`,
/// `"2h"` and `"1d"` scale by the suffix; a missing or unrecognized
/// suffix, or an unparseable number, yields the default of 300 seconds.
pub fn parse_time(input: &str) -> (r: i64)
    ensures
        r as int == spec_parse_time(input@),
{
    let n = input.unicode_len();
    if n == 0 {
        return 300;
    }
    let last = input.get_char(n - 1);
    if last == 'd' || last == 'D' {
        scaled_by_unit(input, 'd', 'D', 86400)
    } else if last == 'h' || last == 'H' {
        scaled_by_unit(input, 'h', 'H', 3600)
    } else if last == 'm' || last == 'M' {
        scaled_by_unit(input, 'm', 'M', 60)
    } else if last == 's' || last == 'S' {
        scaled_by_unit(input, 's', 'S', 1)
    } else {
        300
    }
}

/// The explanation attached to a literal match result.
pub open spec fn spec_literal_message(found: Seq<char>, expected: Seq<char>, matched: bool)
    -> Seq<char> {
    if matched {
        "actual: "@ + found + ", expected: "@ + expected + ", match ok"@
    } else {
        "actual: "@ + found + ", expected: "@ + expected + ", match failed"@
    }
}

/// Compare an extracted value's canonical text with the configured
/// literal; the match holds exactly when the two strings are equal.
pub fn match_literal(found: &str, expected: &str) -> (r: (bool, String))
    ensures
        r.0 == (found@ == expected@),
        r.1@ == spec_literal_message(found@, expected@, r.0),
{
    let matched = str_eq(found, expected);
    let mut msg = String::new();
    msg.append("actual: ");
    msg.append(found);
    msg.append(", expected: ");
    msg.append(expected);
    if matched {
        msg.append(", match ok");
    } else {
        msg.append(", match failed");
    }
    proof {
        assert(msg@ =~= spec_literal_message(found@, expected@, matched));
    }
    (matched, msg)
}

} // verus!
