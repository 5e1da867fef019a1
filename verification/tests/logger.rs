use otlp_tracer::logger::parse_directives;
use otlp_tracer::LogLevel;
use otlp_tracer::LogLevelFilter;
use otlp_tracer::SpanLogger;

#[test]
fn bare_level_word_becomes_a_global_directive() {
    let ds = parse_directives("warn");
    assert_eq!(ds.len(), 1);
    assert!(ds[0].module.is_none());
    assert_eq!(ds[0].level, LogLevelFilter::Warn);
}

#[test]
fn module_level_pair_becomes_a_module_directive() {
    let ds = parse_directives("mycrate::db=debug,info");
    assert_eq!(ds.len(), 2);
    assert_eq!(ds[0].module.as_deref(), Some("mycrate::db"));
    assert_eq!(ds[0].level, LogLevelFilter::Debug);
    assert!(ds[1].module.is_none());
    assert_eq!(ds[1].level, LogLevelFilter::Info);
}

#[test]
fn level_words_parse_ignoring_ascii_case() {
    let ds = parse_directives("TRACE");
    assert_eq!(ds.len(), 1);
    assert_eq!(ds[0].level, LogLevelFilter::Trace);
    let ds = parse_directives("m=ErRoR");
    assert_eq!(ds[0].level, LogLevelFilter::Error);
}

#[test]
fn unrecognized_or_malformed_segments_are_skipped() {
    assert!(parse_directives("verbose").is_empty());
    assert!(parse_directives("m=shout").is_empty());
    assert!(parse_directives("a=b=c").is_empty());
    assert!(parse_directives("").is_empty());
    let ds = parse_directives("verbose,,m=info");
    assert_eq!(ds.len(), 1);
    assert_eq!(ds[0].module.as_deref(), Some("m"));
}

#[test]
fn empty_filter_defaults_to_global_info() {
    let logger = SpanLogger::new("");
    assert!(logger.enabled("anything", LogLevel::Info));
    assert!(logger.enabled("anything", LogLevel::Warn));
    assert!(!logger.enabled("anything", LogLevel::Debug));
}

#[test]
fn first_matching_module_prefix_wins() {
    let logger = SpanLogger::new("app::net=trace,app=warn,error");
    assert!(logger.enabled("app::net::tcp", LogLevel::Trace));
    assert!(logger.enabled("app::ui", LogLevel::Warn));
    assert!(!logger.enabled("app::ui", LogLevel::Info));
    assert!(logger.enabled("other", LogLevel::Error));
    assert!(!logger.enabled("other", LogLevel::Warn));
}

#[test]
fn module_match_beats_a_global_directive_listed_earlier() {
    let logger = SpanLogger::new("debug,quiet=error");
    assert!(!logger.enabled("quiet::inner", LogLevel::Info));
    assert!(logger.enabled("quiet::inner", LogLevel::Error));
    assert!(logger.enabled("loud", LogLevel::Debug));
}

#[test]
fn no_match_and_no_global_disables_the_record() {
    let logger = SpanLogger::new("app=info");
    assert!(!logger.enabled("lib", LogLevel::Error));
    assert!(logger.enabled("app::x", LogLevel::Info));
}

#[test]
fn off_filter_disables_even_errors() {
    let logger = SpanLogger::new("off");
    assert!(!logger.enabled("anything", LogLevel::Error));
}

#[test]
fn level_rendering_matches_the_event_attribute() {
    assert_eq!(LogLevel::Error.as_str(), "ERROR");
    assert_eq!(LogLevel::Warn.as_str(), "WARN");
    assert_eq!(LogLevel::Info.as_str(), "INFO");
    assert_eq!(LogLevel::Debug.as_str(), "DEBUG");
    assert_eq!(LogLevel::Trace.as_str(), "TRACE");
}
