use std::collections::HashMap;
use std::fmt::Write;
use vstd::prelude::*;

use crate::time::LocalTime;

verus! {

/// The variables handed to a template, seen as plain values.
pub open spec fn vars_view(vars: Seq<(String, String)>) -> Seq<(Seq<char>, Seq<char>)> {
    vars.map_values(|p: (String, String)| (p.0@, p.1@))
}

/// What `strfmt` makes of a template and a list of named values, or `None` where it
/// reports an error.
pub uninterp spec fn strfmt_of(template: Seq<char>, vars: Seq<(Seq<char>, Seq<char>)>) -> Option<
    Seq<char>,
>;

/// A text that holds no brace at all.
pub open spec fn no_braces(s: Seq<char>) -> bool {
    !s.contains('{') && !s.contains('}')
}

pub open spec fn is_ascii_letter(c: char) -> bool {
    ('a' <= c && c <= 'z') || ('A' <= c && c <= 'Z')
}

/// A template that is nothing but the placeholder `{k}`.
pub open spec fn lone_placeholder(k: Seq<char>) -> Seq<char> {
    seq!['{'] + k + seq!['}']
}

/// `k` is a plain placeholder name that no variable carries.
pub open spec fn unknown_name(k: Seq<char>, vars: Seq<(Seq<char>, Seq<char>)>) -> bool {
    &&& k.len() > 0
    &&& forall|i: int| 0 <= i < k.len() ==> is_ascii_letter(#[trigger] k[i])
    &&& forall|i: int| 0 <= i < vars.len() ==> #[trigger] vars[i].0 != k
}

/// Relies on `strfmt::strfmt`, with the variables gathered into a map (a later entry for
/// a name replaces an earlier one). Its result depends on the template and the variables
/// alone; text without braces is copied as it stands, and a template whose first
/// placeholder names no variable is a key error, whatever follows it.
#[verifier::external_body]
fn strfmt_call(template: &str, vars: &Vec<(String, String)>) -> (r: Option<String>)
    ensures
        match r {
            Some(s) => strfmt_of(template@, vars_view(vars@)) == Some(s@),
            None => strfmt_of(template@, vars_view(vars@)).is_none(),
        },
        no_braces(template@) ==> r.is_some() && r.unwrap()@ == template@,
        forall|pre: Seq<char>, k: Seq<char>, suf: Seq<char>|
            no_braces(pre) && unknown_name(k, vars_view(vars@)) && template@ == #[trigger] (pre
                + lone_placeholder(k) + suf) ==> r.is_none(),
{
    let map: HashMap<String, String> = vars.iter().cloned().collect();
    strfmt::strfmt(template, &map).ok()
}

/// A template with its placeholders filled in, or the template itself where it cannot be.
pub open spec fn rendered(template: Seq<char>, vars: Seq<(Seq<char>, Seq<char>)>) -> Seq<char> {
    match strfmt_of(template, vars) {
        Some(s) => s,
        None => template,
    }
}

/// Fills the `{name}` placeholders of `template` from `vars`. It never fails: where the
/// template is malformed or names a variable that is not given, the template comes back
/// unchanged.
pub fn safe_strfmt(template: &str, vars: &Vec<(String, String)>) -> (r: String)
    ensures
        r@ == rendered(template@, vars_view(vars@)),
        strfmt_of(template@, vars_view(vars@)).is_none() ==> r@ == template@,
        forall|pre: Seq<char>, k: Seq<char>, suf: Seq<char>|
            no_braces(pre) && unknown_name(k, vars_view(vars@)) && template@ == #[trigger] (pre
                + lone_placeholder(k) + suf) ==> r@ == template@,
        no_braces(template@) ==> r@ == template@,
{
    match strfmt_call(template, vars) {
        Some(s) => s,
        None => template.to_owned(),
    }
}

/// Rendering depends on the template and the variables alone: equal inputs give equal
/// text, however often it is done.
pub proof fn lemma_render_deterministic(
    t1: Seq<char>,
    v1: Seq<(Seq<char>, Seq<char>)>,
    t2: Seq<char>,
    v2: Seq<(Seq<char>, Seq<char>)>,
)
    requires
        t1 == t2,
        v1 == v2,
    ensures
        rendered(t1, v1) == rendered(t2, v2),
{
}

/// The decimal digit for `d`, which is below ten.
pub open spec fn digit_char(d: nat) -> char {
    if d == 0 { '0' }
    else if d == 1 { '1' }
    else if d == 2 { '2' }
    else if d == 3 { '3' }
    else if d == 4 { '4' }
    else if d == 5 { '5' }
    else if d == 6 { '6' }
    else if d == 7 { '7' }
    else if d == 8 { '8' }
    else { '9' }
}

/// The decimal digits of `n`, without leading zeros.
pub open spec fn digits_of(n: nat) -> Seq<char>
    decreases n,
{
    if n < 10 {
        seq![digit_char(n)]
    } else {
        digits_of(n / 10).push(digit_char(n % 10))
    }
}

/// `n` written in decimal, with a minus sign where it is negative.
pub open spec fn decimal_of(n: int) -> Seq<char> {
    if n < 0 {
        seq!['-'] + digits_of((-n) as nat)
    } else {
        digits_of(n as nat)
    }
}

/// The one-character text of a decimal digit.
fn digit_str(d: u64) -> (r: &'static str)
    requires
        d < 10,
    ensures
        r@ == seq![digit_char(d as nat)],
{
    if d == 0 {
        proof { reveal_strlit("0"); }
        "0"
    } else if d == 1 {
        proof { reveal_strlit("1"); }
        "1"
    } else if d == 2 {
        proof { reveal_strlit("2"); }
        "2"
    } else if d == 3 {
        proof { reveal_strlit("3"); }
        "3"
    } else if d == 4 {
        proof { reveal_strlit("4"); }
        "4"
    } else if d == 5 {
        proof { reveal_strlit("5"); }
        "5"
    } else if d == 6 {
        proof { reveal_strlit("6"); }
        "6"
    } else if d == 7 {
        proof { reveal_strlit("7"); }
        "7"
    } else if d == 8 {
        proof { reveal_strlit("8"); }
        "8"
    } else {
        proof { reveal_strlit("9"); }
        "9"
    }
}

/// The decimal digits of `n`.
fn digits(n: u64) -> (r: String)
    ensures
        r@ == digits_of(n as nat),
    decreases n,
{
    if n < 10 {
        digit_str(n).to_owned()
    } else {
        let mut s = digits(n / 10);
        s.append(digit_str(n % 10));
        assert(s@ =~= digits_of((n / 10) as nat).push(digit_char((n % 10) as nat)));
        s
    }
}

/// `n` written in decimal, with a leading `-` where it is negative.
pub fn decimal(n: i64) -> (r: String)
    ensures
        r@ == decimal_of(n as int),
{
    if n < 0 {
        let m: u64 = if n == i64::MIN {
            9_223_372_036_854_775_808
        } else {
            (-n) as u64
        };
        let mut s = "-".to_owned();
        proof { reveal_strlit("-"); }
        s.append(digits(m).as_str());
        assert(s@ =~= seq!['-'] + digits_of((-n) as nat));
        s
    } else {
        digits(n as u64)
    }
}

/// One unit of a span: its count and name, with an `s` for a plural where the unit takes
/// one; nothing where the count is zero.
pub open spec fn unit_text(count: nat, name: Seq<char>, plural: bool) -> Seq<char> {
    if count == 0 {
        seq![]
    } else if plural && count > 1 {
        digits_of(count) + name + "s"@
    } else {
        digits_of(count) + name
    }
}

/// The non-empty texts among `items`, in order, joined by single spaces.
pub open spec fn join_nonempty(items: Seq<Seq<char>>) -> Seq<char>
    decreases items.len(),
{
    if items.len() == 0 {
        seq![]
    } else {
        let rest = join_nonempty(items.drop_last());
        let x = items.last();
        if x.len() == 0 {
            rest
        } else if rest.len() == 0 {
            x
        } else {
            rest + " "@ + x
        }
    }
}

/// A span of whole seconds as `humantime` writes it: years of 365.25 days, months of 30.44
/// days, then days, hours, minutes and seconds, each unit that is not zero; `0s` for none.
pub open spec fn humantime_text(secs: nat) -> Seq<char> {
    if secs == 0 {
        "0s"@
    } else {
        let ydays = secs % 31_557_600;
        let mdays = ydays % 2_630_016;
        let day_secs = mdays % 86400;
        join_nonempty(
            seq![
                unit_text(secs / 31_557_600, "year"@, true),
                unit_text(ydays / 2_630_016, "month"@, true),
                unit_text(mdays / 86400, "day"@, true),
                unit_text(day_secs / 3600, "h"@, false),
                unit_text(day_secs % 3600 / 60, "m"@, false),
                unit_text(day_secs % 60, "s"@, false),
            ],
        )
    }
}

/// Relies on `humantime::format_duration` for a span of whole seconds: the units from
/// years down to seconds that are not zero, joined by spaces.
#[verifier::external_body]
pub(crate) fn format_seconds(secs: u64) -> (r: String)
    ensures
        r@ == humantime_text(secs as nat),
{
    humantime::format_duration(std::time::Duration::from_secs(secs)).to_string()
}

/// What `regex` makes of `text` when the first match of `pattern` is replaced by
/// `replacement`, or `None` where the pattern does not compile.
pub uninterp spec fn regex_replaced_of(pattern: Seq<char>, text: Seq<char>, replacement: Seq<char>) -> Option<
    Seq<char>,
>;

/// Relies on `regex::Regex::new` and `Regex::replace`: the first match of the pattern
/// replaced; the result depends on the pattern, the text and the replacement alone.
#[verifier::external_body]
pub(crate) fn regex_replace(pattern: &str, text: &str, replacement: &str) -> (r: Option<String>)
    ensures
        match r {
            Some(s) => regex_replaced_of(pattern@, text@, replacement@) == Some(s@),
            None => regex_replaced_of(pattern@, text@, replacement@).is_none(),
        },
{
    match regex::Regex::new(pattern) {
        Ok(re) => Some(re.replace(text, replacement).to_string()),
        Err(_) => None,
    }
}

/// A span written by `humantime` with its trailing count of seconds removed, where
/// there is one: `2h 37m 5s` becomes `2h 37m`.
pub open spec fn without_seconds(spelled: Seq<char>) -> Seq<char> {
    match regex_replaced_of(r"\s[0-9]+s$"@, spelled, ""@) {
        Some(s) => s,
        None => spelled,
    }
}

/// Removes a trailing count of seconds from a span written by `humantime`.
pub fn drop_trailing_seconds(spelled: &str) -> (r: String)
    ensures
        r@ == without_seconds(spelled@),
{
    match regex_replace(r"\s[0-9]+s$", spelled, "") {
        Some(s) => s,
        None => spelled.to_owned(),
    }
}

/// What `chrono` writes for the instant `timestamp` (seconds since the epoch) seen at
/// `utc_offset` seconds east of UTC, under a strftime-style pattern; `None` where the
/// offset or the instant is out of range or the pattern is invalid.
pub uninterp spec fn chrono_format_of(timestamp: int, utc_offset: int, pattern: Seq<char>) -> Option<
    Seq<char>,
>;

/// Relies on `chrono`'s `FixedOffset::east_opt`, `DateTime::from_timestamp` and
/// `DateTime::format`: the text depends on the instant, the offset and the pattern alone.
#[verifier::external_body]
pub(crate) fn format_local_time(t: &LocalTime, pattern: &str) -> (r: Option<String>)
    ensures
        match r {
            Some(s) => chrono_format_of(t.timestamp as int, t.utc_offset as int, pattern@) == Some(s@),
            None => chrono_format_of(t.timestamp as int, t.utc_offset as int, pattern@).is_none(),
        },
{
    let offset = chrono::FixedOffset::east_opt(t.utc_offset)?;
    let instant = chrono::DateTime::from_timestamp(t.timestamp, 0)?;
    let mut out = String::new();
    write!(out, "{}", instant.with_timezone(&offset).format(pattern)).ok()?;
    Some(out)
}

} // verus!
