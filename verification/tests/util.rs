use otlp_tracer::generate_span_id;
use otlp_tracer::generate_trace_id;
use otlp_tracer::strutil::find_char;
use otlp_tracer::strutil::starts_with_str;
use otlp_tracer::strutil::str_ieq;
use otlp_tracer::strutil::trim_str;
use otlp_tracer::u64_to_dec;
use otlp_tracer::AttrMap;

#[test]
fn decimal_rendering_is_exact() {
    assert_eq!(u64_to_dec(0), "0");
    assert_eq!(u64_to_dec(7), "7");
    assert_eq!(u64_to_dec(107), "107");
    assert_eq!(u64_to_dec(1_000_000_000), "1000000000");
    assert_eq!(u64_to_dec(u64::MAX), "18446744073709551615");
}

#[test]
fn trace_ids_are_32_lowercase_hex_chars() {
    let id = generate_trace_id();
    assert_eq!(id.len(), 32);
    assert!(id
        .chars()
        .all(|c| c.is_ascii_hexdigit() && !c.is_ascii_uppercase()));
}

#[test]
fn span_ids_are_16_lowercase_hex_chars() {
    let id = generate_span_id();
    assert_eq!(id.len(), 16);
    assert!(id
        .chars()
        .all(|c| c.is_ascii_hexdigit() && !c.is_ascii_uppercase()));
}

#[test]
fn fresh_ids_differ() {
    assert_ne!(generate_trace_id(), generate_trace_id());
    assert_ne!(generate_span_id(), generate_span_id());
}

#[test]
fn trimming_removes_ascii_whitespace_at_both_ends() {
    assert_eq!(trim_str("  key "), "key");
    assert_eq!(trim_str("\t x \r\n"), "x");
    assert_eq!(trim_str("inner space s"), "inner space s");
    assert_eq!(trim_str("   "), "");
    assert_eq!(trim_str(""), "");
}

#[test]
fn prefix_test_is_exact() {
    assert!(starts_with_str("app::net::tcp", "app::net"));
    assert!(starts_with_str("abc", ""));
    assert!(starts_with_str("abc", "abc"));
    assert!(!starts_with_str("abc", "abcd"));
    assert!(!starts_with_str("abc", "b"));
}

#[test]
fn case_insensitive_match_expects_lowercase_words() {
    assert!(str_ieq("INFO", "info"));
    assert!(str_ieq("InFo", "info"));
    assert!(str_ieq("info", "info"));
    assert!(!str_ieq("infos", "info"));
    assert!(!str_ieq("inf0", "info"));
}

#[test]
fn find_char_returns_first_hit_or_length() {
    assert_eq!(find_char("a=b=c", '='), 1);
    assert_eq!(find_char("abc", '='), 3);
    assert_eq!(find_char("", ','), 0);
}

#[test]
fn attr_map_keeps_last_write_and_unique_keys() {
    let mut m = AttrMap::new();
    m.insert("a", "1");
    m.insert("b", "2");
    m.insert("a", "3");
    assert_eq!(m.len(), 2);
    assert_eq!(m.get("a").unwrap().as_str(), "3");
    assert_eq!(m.get("b").unwrap().as_str(), "2");
    assert!(m.get("c").is_none());
    assert!(m.contains_key("a"));
    assert!(!m.contains_key("c"));
}

#[test]
fn attr_map_merge_prefers_the_other_side() {
    let mut base = AttrMap::new();
    base.insert("shared", "base");
    base.insert("only-base", "1");
    let mut other = AttrMap::new();
    other.insert("shared", "other");
    other.insert("only-other", "2");
    base.merge_from(&other);
    assert_eq!(base.get("shared").unwrap().as_str(), "other");
    assert_eq!(base.get("only-base").unwrap().as_str(), "1");
    assert_eq!(base.get("only-other").unwrap().as_str(), "2");
    assert_eq!(base.len(), 3);
}
