//! Verified text utilities: equality, trimming, splitting, decimal
//! rendering and parsing of integers. These are the string-level
//! building blocks of the rule parser and the match messages.

use vstd::prelude::*;

verus! {

/// Compare two string slices by their character sequences.
pub fn str_eq(a: &str, b: &str) -> (r: bool)
    ensures
        r == (a@ == b@),
{
    let sa = a.to_owned();
    let sb = b.to_owned();
    sa == sb
}

/// The whitespace characters that `trim` removes.
pub open spec fn is_space(c: char) -> bool {
    c == ' ' || c == '\t' || c == '\n' || c == '\r' || c == '\u{b}' || c == '\u{c}'
}

pub open spec fn spec_trim_start(s: Seq<char>) -> Seq<char>
    decreases s.len(),
{
    if s.len() > 0 && is_space(s[0]) {
        spec_trim_start(s.drop_first())
    } else {
        s
    }
}

pub open spec fn spec_trim_end(s: Seq<char>) -> Seq<char>
    decreases s.len(),
{
    if s.len() > 0 && is_space(s.last()) {
        spec_trim_end(s.drop_last())
    } else {
        s
    }
}

/// The sequence with leading and trailing whitespace removed.
pub open spec fn spec_trim(s: Seq<char>) -> Seq<char> {
    spec_trim_end(spec_trim_start(s))
}

proof fn lemma_trim_start_subrange(s: Seq<char>, i: int)
    requires
        0 <= i <= s.len(),
        forall|j: int| 0 <= j < i ==> is_space(s[j]),
    ensures
        spec_trim_start(s) == spec_trim_start(s.subrange(i, s.len() as int)),
    decreases i,
{
    if i > 0 {
        assert(is_space(s[0]));
        assert(s.subrange(1, s.len() as int) =~= s.drop_first());
        lemma_trim_start_subrange(s.drop_first(), i - 1);
        assert(s.drop_first().subrange(i - 1, s.drop_first().len() as int) =~= s.subrange(
            i,
            s.len() as int,
        ));
    } else {
        assert(s.subrange(0, s.len() as int) =~= s);
    }
}

proof fn lemma_trim_end_subrange(s: Seq<char>, i: int)
    requires
        0 <= i <= s.len(),
        forall|j: int| i <= j < s.len() ==> is_space(s[j]),
    ensures
        spec_trim_end(s) == spec_trim_end(s.subrange(0, i)),
    decreases s.len() - i,
{
    if i < s.len() {
        assert(is_space(s[s.len() - 1]));
        assert(s.subrange(0, s.len() - 1) =~= s.drop_last());
        lemma_trim_end_subrange(s.drop_last(), i);
        assert(s.drop_last().subrange(0, i) =~= s.subrange(0, i));
    } else {
        assert(s.subrange(0, i) =~= s);
    }
}

/// Remove leading and trailing whitespace.
pub fn trim_str(s: &str) -> (r: String)
    ensures
        r@ == spec_trim(s@),
{
    let n = s.unicode_len();
    let mut start: usize = 0;
    while start < n && is_space_exec(s.get_char(start))
        invariant
            0 <= start <= n,
            n == s@.len(),
            forall|j: int| 0 <= j < start ==> is_space(s@[j]),
        decreases n - start,
    {
        start = start + 1;
    }
    let mut end: usize = n;
    while end > start && is_space_exec(s.get_char(end - 1))
        invariant
            start <= end <= n,
            n == s@.len(),
            forall|j: int| 0 <= j < start ==> is_space(s@[j]),
            forall|j: int| end <= j < n ==> is_space(s@[j]),
        decreases end,
    {
        end = end - 1;
    }
    proof {
        lemma_trim_start_subrange(s@, start as int);
        let tail = s@.subrange(start as int, n as int);
        if end == start {
            assert(spec_trim_start(tail) =~= tail.subrange(0, 0)) by {
                if tail.len() > 0 {
                    assert(is_space(tail[0]));
                }
            }
            assert(spec_trim_end(tail.subrange(0, 0)) =~= s@.subrange(
                start as int,
                end as int,
            ));
        } else {
            assert(!is_space(tail[0]));
            assert(spec_trim_start(tail) == tail);
            lemma_trim_end_subrange(tail, end - start);
            assert(tail.subrange(0, end - start) =~= s@.subrange(start as int, end as int));
        }
    }
    let piece = s.substring_char(start, end);
    piece.to_owned()
}

/// Executable test for `is_space`.
pub fn is_space_exec(c: char) -> (r: bool)
    ensures
        r == is_space(c),
{
    c == ' ' || c == '\t' || c == '\n' || c == '\r' || c == '\u{b}' || c == '\u{c}'
}

/// Split a sequence at every occurrence of `sep`; a string with no
/// separator yields one piece, and separators at the edges yield empty
/// pieces, as `str::split` does.
pub open spec fn spec_split(s: Seq<char>, sep: char) -> Seq<Seq<char>>
    decreases s.len(),
{
    if s.len() == 0 {
        seq![Seq::<char>::empty()]
    } else {
        let rest = spec_split(s.drop_last(), sep);
        if s.last() == sep {
            rest.push(Seq::<char>::empty())
        } else {
            rest.update(rest.len() - 1, rest.last().push(s.last()))
        }
    }
}

pub proof fn lemma_split_len(s: Seq<char>, sep: char)
    ensures
        spec_split(s, sep).len() >= 1,
    decreases s.len(),
{
    if s.len() > 0 {
        lemma_split_len(s.drop_last(), sep);
    }
}

/// Split a string at every occurrence of `sep`.
pub fn split_char(s: &str, sep: char) -> (r: Vec<String>)
    ensures
        r.deep_view() == spec_split(s@, sep),
{
    let n = s.unicode_len();
    let mut pieces: Vec<String> = Vec::new();
    let mut start: usize = 0;
    let mut i: usize = 0;
    proof {
        assert(s@.subrange(0, 0) =~= Seq::<char>::empty());
        assert(pieces.deep_view().push(s@.subrange(0, 0)) =~= spec_split(
            s@.subrange(0, 0),
            sep,
        ));
    }
    while i < n
        invariant
            0 <= start <= i <= n,
            n == s@.len(),
            pieces.deep_view().push(s@.subrange(start as int, i as int)) =~= spec_split(
                s@.subrange(0, i as int),
                sep,
            ),
        decreases n - i,
    {
        let ghost prefix = s@.subrange(0, i as int);
        let ghost cur = s@.subrange(start as int, i as int);
        proof {
            assert(s@.subrange(0, i + 1).drop_last() =~= prefix);
            assert(s@.subrange(0, i + 1).last() == s@[i as int]);
            lemma_split_len(prefix, sep);
        }
        if s.get_char(i) == sep {
            let ghost old_pieces = pieces.deep_view();
            let piece = s.substring_char(start, i);
            let piece_owned = piece.to_owned();
            pieces.push(piece_owned);
            proof {
                assert(pieces.deep_view() =~= old_pieces.push(cur));
                assert(spec_split(s@.subrange(0, i + 1), sep) =~= spec_split(
                    prefix,
                    sep,
                ).push(Seq::<char>::empty()));
                assert(s@.subrange(i + 1, i + 1) =~= Seq::<char>::empty());
            }
            start = i + 1;
        } else {
            proof {
                let rest = spec_split(prefix, sep);
                assert(rest == pieces.deep_view().push(cur));
                assert(rest.last() == cur);
                assert(rest.update(rest.len() - 1, rest.last().push(s@[i as int])) =~= pieces
                    .deep_view()
                    .push(cur.push(s@[i as int])));
                assert(s@.subrange(start as int, i + 1) =~= cur.push(s@[i as int]));
            }
        }
        i = i + 1;
    }
    let piece = s.substring_char(start, n);
    pieces.push(piece.to_owned());
    proof {
        assert(s@.subrange(0, n as int) =~= s@);
        assert(pieces.deep_view() =~= spec_split(s@, sep));
    }
    pieces
}

/// A leading byte-order mark removed, if one is present.
pub open spec fn spec_strip_bom(s: Seq<char>) -> Seq<char> {
    if s.len() > 0 && s[0] == '\u{feff}' {
        s.drop_first()
    } else {
        s
    }
}

/// Text that may begin with a byte-order mark, which HTTP bodies
/// sometimes carry and JSON parsing refuses.
pub trait StripBom {
    spec fn bom_view(&self) -> Seq<char>;

    /// The text with a leading byte-order mark removed.
    fn strip_bom(&self) -> (r: String)
        ensures
            r@ == spec_strip_bom(self.bom_view()),
    ;
}

impl StripBom for str {
    open spec fn bom_view(&self) -> Seq<char> {
        self@
    }

    fn strip_bom(&self) -> (r: String) {
        let n = self.unicode_len();
        if n > 0 && self.get_char(0) == '\u{feff}' {
            let tail = self.substring_char(1, n);
            proof {
                assert(self@.subrange(1, n as int) =~= self@.drop_first());
            }
            tail.to_owned()
        } else {
            self.to_owned()
        }
    }
}

impl StripBom for String {
    open spec fn bom_view(&self) -> Seq<char> {
        self@
    }

    fn strip_bom(&self) -> (r: String) {
        self.as_str().strip_bom()
    }
}

/// Lexicographic order on character sequences by code point — the order
/// `String`'s `Ord` gives, since UTF-8 byte order agrees with code-point
/// order.
pub open spec fn lex_lt(a: Seq<char>, b: Seq<char>) -> bool
    decreases a.len(),
{
    if b.len() == 0 {
        false
    } else if a.len() == 0 {
        true
    } else if (a[0] as int) < (b[0] as int) {
        true
    } else if (a[0] as int) > (b[0] as int) {
        false
    } else {
        lex_lt(a.drop_first(), b.drop_first())
    }
}

/// A key/value list standing for an ordered map: keys strictly increasing
/// (hence unique), as iterating the original's ordered map yields them.
pub open spec fn pairs_sorted_by_key(m: Seq<(String, String)>) -> bool {
    forall|i: int, j: int| 0 <= i < j < m.len() ==> lex_lt(m[i].0@, m[j].0@)
}

/// The decimal digit character for a value below ten.
pub open spec fn digit_char(d: int) -> char {
    if d == 0 {
        '0'
    } else if d == 1 {
        '1'
    } else if d == 2 {
        '2'
    } else if d == 3 {
        '3'
    } else if d == 4 {
        '4'
    } else if d == 5 {
        '5'
    } else if d == 6 {
        '6'
    } else if d == 7 {
        '7'
    } else if d == 8 {
        '8'
    } else {
        '9'
    }
}

/// The decimal rendering of a non-negative integer.
pub open spec fn spec_u64_string(n: nat) -> Seq<char>
    decreases n,
{
    if n < 10 {
        seq![digit_char(n as int)]
    } else {
        spec_u64_string(n / 10).push(digit_char((n % 10) as int))
    }
}

/// The decimal rendering of a signed integer.
pub open spec fn spec_i64_string(n: int) -> Seq<char> {
    if n < 0 {
        seq!['-'] + spec_u64_string((-n) as nat)
    } else {
        spec_u64_string(n as nat)
    }
}

fn digit_str(d: u64) -> (r: &'static str)
    requires
        d < 10,
    ensures
        r@ == seq![digit_char(d as int)],
{
    let r = match d {
        0 => "0",
        1 => "1",
        2 => "2",
        3 => "3",
        4 => "4",
        5 => "5",
        6 => "6",
        7 => "7",
        8 => "8",
        _ => "9",
    };
    proof {
        reveal_strlit("0");
        reveal_strlit("1");
        reveal_strlit("2");
        reveal_strlit("3");
        reveal_strlit("4");
        reveal_strlit("5");
        reveal_strlit("6");
        reveal_strlit("7");
        reveal_strlit("8");
        reveal_strlit("9");
        assert(r@ =~= seq![digit_char(d as int)]);
    }
    r
}

fn push_u64_digits(n: u64, out: &mut String)
    ensures
        final(out)@ == old(out)@ + spec_u64_string(n as nat),
    decreases n,
{
    if n >= 10 {
        push_u64_digits(n / 10, out);
    }
    let d = digit_str(n % 10);
    out.append(d);
    proof {
        if n < 10 {
            assert(out@ =~= old(out)@ + spec_u64_string(n as nat));
        } else {
            assert(old(out)@ + spec_u64_string((n / 10) as nat) + seq![
                digit_char((n % 10) as int),
            ] =~= old(out)@ + spec_u64_string(n as nat));
        }
    }
}

/// Render a non-negative integer in decimal.
pub fn u64_to_string(n: u64) -> (r: String)
    ensures
        r@ == spec_u64_string(n as nat),
{
    let mut out = String::new();
    push_u64_digits(n, &mut out);
    proof {
        assert(out@ =~= spec_u64_string(n as nat));
    }
    out
}

/// Render a signed integer in decimal.
pub fn i64_to_string(n: i64) -> (r: String)
    ensures
        r@ == spec_i64_string(n as int),
{
    let mut out = String::new();
    if n < 0 {
        let dash = "-";
        proof {
            reveal_strlit("-");
        }
        out.append(dash);
        let mag = (-(n as i128)) as u64;
        push_u64_digits(mag, &mut out);
        proof {
            assert(out@ =~= spec_i64_string(n as int));
        }
    } else {
        push_u64_digits(n as u64, &mut out);
        proof {
            assert(out@ =~= spec_i64_string(n as int));
        }
    }
    out
}

/// Whether `c` is a decimal digit.
pub open spec fn is_digit(c: char) -> bool {
    48 <= c as int <= 57
}

/// The value of a decimal digit character.
pub open spec fn digit_val(c: char) -> int {
    c as int - 48
}

pub open spec fn all_digits(s: Seq<char>) -> bool {
    forall|i: int| 0 <= i < s.len() ==> is_digit(s[i])
}

/// The value of a sequence of decimal digit characters.
pub open spec fn digits_value(s: Seq<char>) -> int
    decreases s.len(),
{
    if s.len() == 0 {
        0
    } else {
        digits_value(s.drop_last()) * 10 + digit_val(s.last())
    }
}

/// Parsing a decimal integer with an optional sign, as `i64::from_str`
/// does: the whole input must be a sign followed by at least one digit,
/// and the value must fit.
pub open spec fn spec_parse_i64(s: Seq<char>) -> Option<int> {
    let negative = s.len() > 0 && s[0] == '-';
    let digits = if s.len() > 0 && (s[0] == '-' || s[0] == '+') {
        s.drop_first()
    } else {
        s
    };
    if digits.len() > 0 && all_digits(digits) {
        let v = if negative {
            -digits_value(digits)
        } else {
            digits_value(digits)
        };
        if i64::MIN <= v <= i64::MAX {
            Some(v)
        } else {
            None
        }
    } else {
        None
    }
}

proof fn lemma_digits_value_nonneg(s: Seq<char>)
    requires
        all_digits(s),
    ensures
        digits_value(s) >= 0,
    decreases s.len(),
{
    if s.len() > 0 {
        assert(all_digits(s.drop_last()));
        lemma_digits_value_nonneg(s.drop_last());
        assert(is_digit(s.last()));
    }
}

proof fn lemma_digits_value_prefix(s: Seq<char>, k: int)
    requires
        all_digits(s),
        0 <= k <= s.len(),
    ensures
        digits_value(s) >= digits_value(s.subrange(0, k)),
    decreases s.len() - k,
{
    if k < s.len() {
        lemma_digits_value_prefix(s, k + 1);
        let a = s.subrange(0, k);
        let b = s.subrange(0, k + 1);
        assert(b.drop_last() =~= a);
        assert(all_digits(a));
        lemma_digits_value_nonneg(a);
        assert(is_digit(b.last()));
        assert(digits_value(b) == digits_value(a) * 10 + digit_val(b.last()));
        assert(digits_value(a) * 10 >= digits_value(a));
    } else {
        assert(s.subrange(0, k) =~= s);
    }
}

/// Parse a decimal integer with an optional sign.
pub fn parse_i64(s: &str) -> (r: Option<i64>)
    ensures
        r is Some <==> spec_parse_i64(s@) is Some,
        r is Some ==> r->0 as int == spec_parse_i64(s@)->0,
{
    let n = s.unicode_len();
    let mut idx: usize = 0;
    let mut neg = false;
    if n > 0 {
        let c0 = s.get_char(0);
        if c0 == '-' {
            neg = true;
            idx = 1;
        } else if c0 == '+' {
            idx = 1;
        }
    }
    let ghost digits = if s@.len() > 0 && (s@[0] == '-' || s@[0] == '+') {
        s@.drop_first()
    } else {
        s@
    };
    proof {
        assert(digits =~= s@.subrange(idx as int, n as int));
    }
    if idx >= n {
        return None;
    }
    let mut acc: i128 = 0;
    let mut i = idx;
    while i < n
        invariant
            idx <= i <= n,
            n == s@.len(),
            idx <= 1,
            digits == (if s@.len() > 0 && (s@[0] == '-' || s@[0] == '+') {
                s@.drop_first()
            } else {
                s@
            }),
            neg == (s@.len() > 0 && s@[0] == '-'),
            digits =~= s@.subrange(idx as int, n as int),
            all_digits(s@.subrange(idx as int, i as int)),
            acc == digits_value(s@.subrange(idx as int, i as int)),
            0 <= acc <= i64::MAX as i128 + 1,
        decreases n - i,
    {
        let c = s.get_char(i);
        let code = c as u32;
        if code < 48 || code > 57 {
            proof {
                assert(digits[i - idx] == s@[i as int]);
                assert(!is_digit(digits[i - idx]));
                assert(!all_digits(digits));
            }
            return None;
        }
        let d = (code - 48) as i128;
        proof {
            let a = s@.subrange(idx as int, i as int);
            let b = s@.subrange(idx as int, i + 1);
            assert(b.drop_last() =~= a);
            assert(b.last() == s@[i as int]);
        }
        acc = acc * 10 + d;
        if acc > i64::MAX as i128 + 1 {
            proof {
                let b = s@.subrange(idx as int, i + 1);
                assert(digits_value(b) == acc);
                assert(b =~= digits.subrange(0, i + 1 - idx));
                if all_digits(digits) {
                    lemma_digits_value_prefix(digits, i + 1 - idx);
                    assert(digits_value(digits) > i64::MAX as int + 1);
                }
            }
            return None;
        }
        i = i + 1;
    }
    proof {
        assert(s@.subrange(idx as int, n as int) =~= digits);
        lemma_digits_value_nonneg(digits);
    }
    let v: i128 = if neg {
        -acc
    } else {
        acc
    };
    if v < i64::MIN as i128 || v > i64::MAX as i128 {
        None
    } else {
        Some(v as i64)
    }
}

} // verus!
