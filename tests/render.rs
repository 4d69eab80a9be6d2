use ferristatus::render::{decimal, drop_trailing_seconds, safe_strfmt};

fn vars(pairs: &[(&str, &str)]) -> Vec<(String, String)> {
    pairs.iter().map(|(k, v)| (k.to_string(), v.to_string())).collect()
}

#[test]
fn render_fills_placeholders() {
    assert_eq!(safe_strfmt(" V: {p}% ", &vars(&[("p", "42")])), " V: 42% ");
    assert_eq!(safe_strfmt("{p}/{t}", &vars(&[("p", "1"), ("t", "2h")])), "1/2h");
}

#[test]
fn render_unknown_placeholder_returns_template() {
    assert_eq!(safe_strfmt("{x}", &vars(&[("p", "42")])), "{x}");
    assert_eq!(safe_strfmt(" V: {q}% ", &vars(&[("p", "42")])), " V: {q}% ");
}

#[test]
fn render_malformed_template_returns_template() {
    assert_eq!(safe_strfmt("{p", &vars(&[("p", "42")])), "{p");
    assert_eq!(safe_strfmt("p}", &vars(&[("p", "42")])), "p}");
}

#[test]
fn render_is_deterministic_and_idempotent() {
    let v = vars(&[("p", "7")]);
    let once = safe_strfmt("[{p}]", &v);
    assert_eq!(once, "[7]");
    assert_eq!(safe_strfmt("[{p}]", &v), once);
    assert_eq!(safe_strfmt(&once, &v), once);
    assert_eq!(safe_strfmt("no braces", &v), "no braces");
}

#[test]
fn trailing_seconds_are_dropped() {
    assert_eq!(drop_trailing_seconds("2h 37m 5s"), "2h 37m");
    assert_eq!(drop_trailing_seconds("1m 12s"), "1m");
    assert_eq!(drop_trailing_seconds("45s"), "45s");
    assert_eq!(drop_trailing_seconds("2h 37m"), "2h 37m");
}

#[test]
fn decimal_writes_integers() {
    assert_eq!(decimal(0), "0");
    assert_eq!(decimal(1234), "1234");
    assert_eq!(decimal(-5), "-5");
    assert_eq!(decimal(i64::MIN), "-9223372036854775808");
    assert_eq!(decimal(i64::MAX), "9223372036854775807");
}

#[test]
fn unknown_placeholder_after_text_returns_template() {
    assert_eq!(safe_strfmt("a {p} {zz} b", &vars(&[("p", "1")])), "a {p} {zz} b");
    assert_eq!(safe_strfmt("ok {zz}{p}", &vars(&[("p", "1")])), "ok {zz}{p}");
}
