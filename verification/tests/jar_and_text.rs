use bot_engine::jar::CookieJar;
use bot_engine::text::{find_char, str_contains, str_eq, str_eq_ignore_case, u16_to_dec_string};

fn headers(pairs: &[(&str, &str)]) -> Vec<(String, String)> {
    pairs.iter().map(|(n, v)| (n.to_string(), v.to_string())).collect()
}

#[test]
fn jar_round_trip_discards_attributes() {
    let mut jar = CookieJar::new();
    jar.capture(&headers(&[("Set-Cookie", "a=1; Path=/"), ("Set-Cookie", "b=2; HttpOnly")]));
    assert_eq!(jar.render(), "a=1; b=2");
}

#[test]
fn jar_overwrite_keeps_one_entry() {
    let mut jar = CookieJar::new();
    jar.capture(&headers(&[("Set-Cookie", "a=1")]));
    jar.capture(&headers(&[("Set-Cookie", "a=2")]));
    let rendered = jar.render();
    assert_eq!(rendered, "a=2");
    assert_eq!(rendered.matches("a=").count(), 1);
}

#[test]
fn jar_overwrite_within_one_capture() {
    let mut jar = CookieJar::new();
    jar.capture(&headers(&[("Set-Cookie", "a=1"), ("Set-Cookie", "a=2")]));
    assert_eq!(jar.render(), "a=2");
}

#[test]
fn jar_header_name_is_case_insensitive() {
    let mut jar = CookieJar::new();
    jar.capture(&headers(&[("SET-COOKIE", "sid=abc; Path=/"), ("set-cookie", "t=9")]));
    assert_eq!(jar.render(), "sid=abc; t=9");
}

#[test]
fn jar_ignores_other_headers_and_unparsable_values() {
    let mut jar = CookieJar::new();
    jar.capture(&headers(&[
        ("Content-Type", "text/html"),
        ("Set-Cookie", "no-equals-sign"),
        ("Set-Cookie", "k=v; Expires=never"),
    ]));
    assert_eq!(jar.render(), "k=v");
}

#[test]
fn jar_overwrite_keeps_first_position() {
    let mut jar = CookieJar::new();
    jar.insert("a".to_string(), "1".to_string());
    jar.insert("b".to_string(), "2".to_string());
    jar.insert("a".to_string(), "3".to_string());
    assert_eq!(jar.render(), "a=3; b=2");
}

#[test]
fn jar_empty_renders_empty() {
    let jar = CookieJar::new();
    assert_eq!(jar.render(), "");
}

#[test]
fn jar_cookie_value_keeps_inner_equals() {
    let mut jar = CookieJar::new();
    jar.capture(&headers(&[("Set-Cookie", "tok=a=b=c; Path=/")]));
    assert_eq!(jar.render(), "tok=a=b=c");
}

#[test]
fn text_contains_finds_marker() {
    assert!(str_contains("<html><div id=\"member\">x</div>", "<div id=\"member\">"));
    assert!(!str_contains("<html><div id=\"guest\">", "<div id=\"member\">"));
    assert!(str_contains("anything", ""));
    assert!(!str_contains("ab", "abc"));
    assert!(str_contains("abc", "abc"));
}

#[test]
fn text_find_char_first_occurrence() {
    assert_eq!(find_char("a=b=c", '='), Some(1));
    assert_eq!(find_char("abc", ';'), None);
    assert_eq!(find_char(";rest", ';'), Some(0));
}

#[test]
fn text_equality_helpers() {
    assert!(str_eq("abc", "abc"));
    assert!(!str_eq("abc", "abd"));
    assert!(!str_eq("abc", "ab"));
    assert!(str_eq_ignore_case("Set-Cookie", "set-cookie"));
    assert!(str_eq_ignore_case("SET-COOKIE", "set-cookie"));
    assert!(!str_eq_ignore_case("set-cookie2", "set-cookie"));
    assert!(!str_eq_ignore_case("cookie", "set-cookie"));
}

#[test]
fn text_decimal_rendering() {
    assert_eq!(u16_to_dec_string(0), "0");
    assert_eq!(u16_to_dec_string(7), "7");
    assert_eq!(u16_to_dec_string(409), "409");
    assert_eq!(u16_to_dec_string(65535), "65535");
}
