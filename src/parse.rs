//! Parsers for the run's settings: `Key: Value` headers, durations such as
//! `500ms` or `10s`, and HTTP method names.

use crate::text::{
    ascii_lower, ascii_lower_char, ascii_upper_seq, is_space, trim_seq, trim_str, upper_equals,
};
use std::time::Duration;
use vstd::prelude::*;

verus! {

/// `i` is the position of the first `:` in `s`.
pub open spec fn is_first_colon(s: Seq<char>, i: int) -> bool {
    &&& 0 <= i < s.len()
    &&& s[i] == ':'
    &&& forall|j: int| 0 <= j < i ==> s[j] != ':'
}

/// A header `Key: Value`: split at the first `:`, both sides trimmed, the key
/// not empty.
pub open spec fn header_of(s: Seq<char>) -> Option<(Seq<char>, Seq<char>)> {
    if exists|i: int| is_first_colon(s, i) {
        let i = choose|i: int| is_first_colon(s, i);
        let k = trim_seq(s.subrange(0, i));
        let v = trim_seq(s.subrange(i + 1, s.len() as int));
        if k.len() == 0 {
            None
        } else {
            Some((k, v))
        }
    } else {
        None
    }
}

/// Splits a header `Key: Value` at its first `:` and trims both sides; `None`
/// when there is no `:` or the key is empty.
pub fn parse_header(s: &str) -> (r: Option<(String, String)>)
    ensures
        match r {
            Some((k, v)) => header_of(s@) == Some((k@, v@)),
            None => header_of(s@) is None,
        },
{
    let n = s.unicode_len();
    let mut i: usize = 0;
    while i < n && s.get_char(i) != ':'
        invariant
            n == s@.len(),
            i <= n,
            forall|j: int| 0 <= j < i ==> s@[j] != ':',
        decreases n - i,
    {
        i = i + 1;
    }
    if i == n {
        proof {
            assert(!exists|j: int| is_first_colon(s@, j));
        }
        return None;
    }
    proof {
        assert(is_first_colon(s@, i as int));
        let c = choose|j: int| is_first_colon(s@, j);
        assert(c == i) by {
            if c < i {
                assert(s@[c] != ':');
            } else if c > i {
                assert(s@[i as int] != ':');
            }
        }
    }
    let k = trim_str(s.substring_char(0, i));
    let v = trim_str(s.substring_char(i + 1, n));
    if k.unicode_len() == 0 {
        return None;
    }
    Some((k.to_owned(), v.to_owned()))
}

/// The unit that ends a duration.
#[derive(Debug, Clone, Copy, PartialEq, Eq, Structural)]
pub enum TimeUnit {
    Millis,
    Secs,
    Mins,
    Hours,
}

/// The value of a decimal digit.
pub open spec fn digit_value(c: char) -> int {
    (c as u32) - ('0' as u32)
}

pub open spec fn is_digit(c: char) -> bool {
    '0' <= c && c <= '9'
}

/// The number that the decimal digits `d` spell.
pub open spec fn digits_value(d: Seq<char>) -> int
    decreases d.len(),
{
    if d.len() == 0 {
        0
    } else {
        digits_value(d.drop_last()) * 10 + digit_value(d.last())
    }
}

/// The digits of an unsigned number: `t` without an optional leading `+`.
pub open spec fn unsigned_digits(t: Seq<char>) -> Seq<char> {
    if t.len() > 0 && t[0] == '+' {
        t.drop_first()
    } else {
        t
    }
}

/// What `u64::from_str` accepts: an optional `+`, then one or more decimal
/// digits whose value fits in `u64`.
pub open spec fn u64_of(t: Seq<char>) -> Option<u64> {
    let d = unsigned_digits(t);
    if d.len() > 0 && (forall|i: int| 0 <= i < d.len() ==> is_digit(#[trigger] d[i]))
        && digits_value(d) <= u64::MAX {
        Some(digits_value(d) as u64)
    } else {
        None
    }
}

proof fn lemma_digits_value_grows(d: Seq<char>, i: int)
    requires
        0 <= i <= d.len(),
        forall|j: int| 0 <= j < d.len() ==> is_digit(#[trigger] d[j]),
    ensures
        digits_value(d.subrange(0, i)) <= digits_value(d),
        digits_value(d.subrange(0, i)) >= 0,
    decreases d.len(),
{
    if d.len() > 0 {
        assert(d.drop_last() =~= d.subrange(0, d.len() - 1));
        if i < d.len() {
            lemma_digits_value_grows(d.drop_last(), i);
            assert(d.drop_last().subrange(0, i) =~= d.subrange(0, i));
        } else {
            assert(d.subrange(0, i) =~= d);
            lemma_digits_value_grows(d.drop_last(), 0);
        }
        lemma_digits_value_grows(d.drop_last(), d.len() - 1);
        assert(d.drop_last().subrange(0, d.len() - 1) =~= d.drop_last());
    } else {
        assert(d.subrange(0, i) =~= d);
    }
}

/// Parses an unsigned 64-bit number as `u64::from_str` does.
pub fn parse_u64(t: &str) -> (r: Option<u64>)
    ensures
        r == u64_of(t@),
{
    let n = t.unicode_len();
    let mut i: usize = 0;
    if n > 0 && t.get_char(0) == '+' {
        i = 1;
    }
    let ghost start = i as int;
    let ghost d = unsigned_digits(t@);
    proof {
        assert(d =~= t@.subrange(start, n as int));
    }
    if i == n {
        return None;
    }
    let mut v: u64 = 0;
    while i < n
        invariant
            n == t@.len(),
            0 <= start <= i <= n,
            start < n,
            d == t@.subrange(start, n as int),
            d == unsigned_digits(t@),
            forall|j: int| 0 <= j < i - start ==> is_digit(#[trigger] d[j]),
            v == digits_value(d.subrange(0, i - start)),
        decreases n - i,
    {
        let c = t.get_char(i);
        if !('0' <= c && c <= '9') {
            proof {
                assert(d[i - start] == t@[i as int]);
                assert(!is_digit(d[i - start]));
                assert(!(forall|k: int| 0 <= k < d.len() ==> is_digit(#[trigger] d[k])));
                assert(u64_of(t@) is None);
            }
            return None;
        }
        let dv = (c as u32 - '0' as u32) as u64;
        proof {
            assert(d[i - start] == t@[i as int]);
            let p = d.subrange(0, i - start + 1);
            assert(p.drop_last() =~= d.subrange(0, i - start));
            assert(p.last() == c);
        }
        if v > (u64::MAX - dv) / 10 {
            proof {
                let p = d.subrange(0, i - start + 1);
                assert(digits_value(p) > u64::MAX) by (nonlinear_arith)
                    requires
                        digits_value(p) == v * 10 + dv,
                        v > (u64::MAX - dv) / 10,
                        dv <= 9,
                ;
                if forall|k: int| 0 <= k < d.len() ==> is_digit(#[trigger] d[k]) {
                    lemma_digits_value_grows(d, i - start + 1);
                    assert(digits_value(d) > u64::MAX);
                }
                assert(u64_of(t@) is None);
            }
            return None;
        }
        v = v * 10 + dv;
        i = i + 1;
    }
    proof {
        assert(d.subrange(0, n - start) =~= d);
    }
    Some(v)
}

/// Splits a duration into its number and unit: the text is trimmed, lowered
/// to ASCII small letters at its end, ends in `ms`, `s`, `m` or `h`, and what
/// comes before the unit, trimmed, is a `u64`.
pub open spec fn duration_parts_of(s: Seq<char>) -> Option<(u64, TimeUnit)> {
    let t = trim_seq(s);
    let n = t.len();
    if n == 0 {
        None
    } else {
        let last = ascii_lower(t[n - 1]);
        let (cut, unit) = if n >= 2 && ascii_lower(t[n - 2]) == 'm' && last == 's' {
            (2int, Some(TimeUnit::Millis))
        } else if last == 's' {
            (1int, Some(TimeUnit::Secs))
        } else if last == 'm' {
            (1int, Some(TimeUnit::Mins))
        } else if last == 'h' {
            (1int, Some(TimeUnit::Hours))
        } else {
            (0int, None)
        };
        match unit {
            Some(u) => match u64_of(trim_seq(t.subrange(0, n - cut))) {
                Some(v) => Some((v, u)),
                None => None,
            },
            None => None,
        }
    }
}

/// Splits a duration such as `500ms`, `10s`, `2m` or `1h` into its number and
/// unit.
pub fn parse_duration_parts(s: &str) -> (r: Option<(u64, TimeUnit)>)
    ensures
        r == duration_parts_of(s@),
{
    let t = trim_str(s);
    let n = t.unicode_len();
    if n == 0 {
        return None;
    }
    let last = ascii_lower_char(t.get_char(n - 1));
    let cut: usize;
    let unit: TimeUnit;
    if n >= 2 && ascii_lower_char(t.get_char(n - 2)) == 'm' && last == 's' {
        cut = 2;
        unit = TimeUnit::Millis;
    } else if last == 's' {
        cut = 1;
        unit = TimeUnit::Secs;
    } else if last == 'm' {
        cut = 1;
        unit = TimeUnit::Mins;
    } else if last == 'h' {
        cut = 1;
        unit = TimeUnit::Hours;
    } else {
        return None;
    }
    let num = trim_str(t.substring_char(0, n - cut));
    match parse_u64(num) {
        Some(v) => Some((v, unit)),
        None => None,
    }
}

/// Seconds in one unit (zero for milliseconds, which are not whole seconds).
pub open spec fn secs_per_unit(u: TimeUnit) -> int {
    match u {
        TimeUnit::Millis => 0,
        TimeUnit::Secs => 1,
        TimeUnit::Mins => 60,
        TimeUnit::Hours => 3600,
    }
}

/// Whether a parsed duration can be held: a number of minutes or hours must
/// fit in `u64` seconds.
pub open spec fn duration_fits(v: u64, u: TimeUnit) -> bool {
    u == TimeUnit::Millis || v * secs_per_unit(u) <= u64::MAX
}

/// The duration that `Duration::from_millis` gives for `ms` milliseconds.
pub uninterp spec fn millis_duration(ms: u64) -> Duration;

/// The duration that `Duration::from_secs` gives for `secs` seconds.
pub uninterp spec fn secs_duration(secs: u64) -> Duration;

/// Relies on `Duration::from_millis`: the duration depends on `ms` alone.
#[verifier::external_body]
fn duration_from_millis(ms: u64) -> (r: Duration)
    ensures
        r == millis_duration(ms),
{
    Duration::from_millis(ms)
}

/// Relies on `Duration::from_secs`: the duration depends on `secs` alone.
#[verifier::external_body]
fn duration_from_secs(secs: u64) -> (r: Duration)
    ensures
        r == secs_duration(secs),
{
    Duration::from_secs(secs)
}

/// The duration of `v` units `u`: milliseconds as such, the others as seconds.
pub open spec fn duration_of(v: u64, u: TimeUnit) -> Duration {
    if u == TimeUnit::Millis {
        millis_duration(v)
    } else {
        secs_duration((v * secs_per_unit(u)) as u64)
    }
}

/// The duration that a text such as `500ms` or `2m` stands for, where it is one
/// and its seconds fit in `u64`.
pub open spec fn duration_value(s: Seq<char>) -> Option<Duration> {
    match duration_parts_of(s) {
        Some((v, u)) => if duration_fits(v, u) {
            Some(duration_of(v, u))
        } else {
            None
        },
        None => None,
    }
}

/// Parses a duration such as `500ms`, `10s`, `2m` or `1h`; `None` when the
/// text is not one, or when its seconds do not fit in `u64`.
pub fn parse_duration(s: &str) -> (r: Option<Duration>)
    ensures
        r == duration_value(s@),
        r is Some <==> (duration_parts_of(s@) matches Some((v, u)) && duration_fits(v, u)),
{
    match parse_duration_parts(s) {
        None => None,
        Some((v, unit)) => match unit {
            TimeUnit::Millis => Some(duration_from_millis(v)),
            TimeUnit::Secs => Some(duration_from_secs(v)),
            TimeUnit::Mins => match v.checked_mul(60) {
                Some(secs) => Some(duration_from_secs(secs)),
                None => None,
            },
            TimeUnit::Hours => match v.checked_mul(3600) {
                Some(secs) => Some(duration_from_secs(secs)),
                None => None,
            },
        },
    }
}

/// The HTTP methods a run may use.
#[derive(Debug, Clone, Copy, PartialEq, Eq, Structural)]
pub enum HttpMethod {
    Get,
    Post,
    Put,
    Delete,
    Patch,
    Head,
    Options,
    Trace,
    Connect,
}

/// The method that a name stands for: the name is trimmed and compared in
/// ASCII upper case with the nine standard method names.
pub open spec fn method_of(s: Seq<char>) -> Option<HttpMethod> {
    let u = ascii_upper_seq(trim_seq(s));
    if u == "GET"@ {
        Some(HttpMethod::Get)
    } else if u == "POST"@ {
        Some(HttpMethod::Post)
    } else if u == "PUT"@ {
        Some(HttpMethod::Put)
    } else if u == "DELETE"@ {
        Some(HttpMethod::Delete)
    } else if u == "PATCH"@ {
        Some(HttpMethod::Patch)
    } else if u == "HEAD"@ {
        Some(HttpMethod::Head)
    } else if u == "OPTIONS"@ {
        Some(HttpMethod::Options)
    } else if u == "TRACE"@ {
        Some(HttpMethod::Trace)
    } else if u == "CONNECT"@ {
        Some(HttpMethod::Connect)
    } else {
        None
    }
}

/// Recognises one of the nine standard method names, in any ASCII case and
/// with white space around it.
pub fn parse_method_kind(s: &str) -> (r: Option<HttpMethod>)
    ensures
        r == method_of(s@),
{
    let t = trim_str(s);
    if upper_equals(t, "GET") {
        Some(HttpMethod::Get)
    } else if upper_equals(t, "POST") {
        Some(HttpMethod::Post)
    } else if upper_equals(t, "PUT") {
        Some(HttpMethod::Put)
    } else if upper_equals(t, "DELETE") {
        Some(HttpMethod::Delete)
    } else if upper_equals(t, "PATCH") {
        Some(HttpMethod::Patch)
    } else if upper_equals(t, "HEAD") {
        Some(HttpMethod::Head)
    } else if upper_equals(t, "OPTIONS") {
        Some(HttpMethod::Options)
    } else if upper_equals(t, "TRACE") {
        Some(HttpMethod::Trace)
    } else if upper_equals(t, "CONNECT") {
        Some(HttpMethod::Connect)
    } else {
        None
    }
}

#[verifier::external_type_specification]
#[verifier::external_body]
pub struct ExMethod(reqwest::Method);

/// The reqwest method for `m`.
pub uninterp spec fn method_value(m: HttpMethod) -> reqwest::Method;

/// Relies on reqwest's `Method` constants (`Method::GET` and the others): one
/// for each method, named alike.
#[verifier::external_body]
fn to_reqwest_method(m: HttpMethod) -> (r: reqwest::Method)
    ensures
        r == method_value(m),
{
    match m {
        HttpMethod::Get => reqwest::Method::GET,
        HttpMethod::Post => reqwest::Method::POST,
        HttpMethod::Put => reqwest::Method::PUT,
        HttpMethod::Delete => reqwest::Method::DELETE,
        HttpMethod::Patch => reqwest::Method::PATCH,
        HttpMethod::Head => reqwest::Method::HEAD,
        HttpMethod::Options => reqwest::Method::OPTIONS,
        HttpMethod::Trace => reqwest::Method::TRACE,
        HttpMethod::Connect => reqwest::Method::CONNECT,
    }
}

/// The reqwest method for one of the nine standard method names, in any ASCII
/// case and with white space around it; `None` for any other text.
pub fn parse_http_method(s: &str) -> (r: Option<reqwest::Method>)
    ensures
        r == match method_of(s@) {
            Some(m) => Some(method_value(m)),
            None => None,
        },
{
    match parse_method_kind(s) {
        Some(m) => Some(to_reqwest_method(m)),
        None => None,
    }
}

} // verus!
