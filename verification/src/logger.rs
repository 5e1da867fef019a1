//! The logging front-end's verified side: severity levels, level filters
//! parsed from a directive string, and the module-prefix matching that
//! decides whether a record is enabled.  The logging facade itself installs
//! outside the library and routes enabled records into the active span.

use vstd::prelude::*;

use crate::strutil::find_ch;
use crate::strutil::find_char;
use crate::strutil::lemma_find_ch;
use crate::strutil::spec_ieq;
use crate::strutil::spec_is_prefix;
use crate::strutil::starts_with_str;
use crate::strutil::str_ieq;

verus! {

/// A log record's severity, from most to least severe.
#[derive(Clone, Copy, PartialEq, Eq, Structural, Debug)]
pub enum LogLevel {
    Error,
    Warn,
    Info,
    Debug,
    Trace,
}

/// A numeric rank for severities: lower is more severe.
pub open spec fn spec_level_rank(l: LogLevel) -> int {
    match l {
        LogLevel::Error => 1,
        LogLevel::Warn => 2,
        LogLevel::Info => 3,
        LogLevel::Debug => 4,
        LogLevel::Trace => 5,
    }
}

/// The conventional rendering of a severity, as it appears in a span
/// event's log.level attribute.
pub open spec fn spec_level_str(l: LogLevel) -> Seq<char> {
    match l {
        LogLevel::Error => "ERROR"@,
        LogLevel::Warn => "WARN"@,
        LogLevel::Info => "INFO"@,
        LogLevel::Debug => "DEBUG"@,
        LogLevel::Trace => "TRACE"@,
    }
}

impl LogLevel {
    /// The conventional rendering of this severity.
    pub fn as_str(&self) -> (r: &'static str)
        ensures
            r@ == spec_level_str(*self),
    {
        match self {
            LogLevel::Error => "ERROR",
            LogLevel::Warn => "WARN",
            LogLevel::Info => "INFO",
            LogLevel::Debug => "DEBUG",
            LogLevel::Trace => "TRACE",
        }
    }
}

/// A verbosity ceiling: records no more verbose than the filter pass.
#[derive(Clone, Copy, PartialEq, Eq, Structural, Debug)]
pub enum LogLevelFilter {
    Off,
    Error,
    Warn,
    Info,
    Debug,
    Trace,
}

/// A numeric rank for filters: a level passes a filter when its rank is at
/// most the filter's.
pub open spec fn spec_filter_rank(f: LogLevelFilter) -> int {
    match f {
        LogLevelFilter::Off => 0,
        LogLevelFilter::Error => 1,
        LogLevelFilter::Warn => 2,
        LogLevelFilter::Info => 3,
        LogLevelFilter::Debug => 4,
        LogLevelFilter::Trace => 5,
    }
}

/// The filter named by a directive's level word, matched ignoring ASCII
/// case, or nothing for an unrecognized word.
pub open spec fn spec_level_filter_of(s: Seq<char>) -> Option<LogLevelFilter> {
    if spec_ieq(s, "off"@) {
        Some(LogLevelFilter::Off)
    } else if spec_ieq(s, "error"@) {
        Some(LogLevelFilter::Error)
    } else if spec_ieq(s, "warn"@) {
        Some(LogLevelFilter::Warn)
    } else if spec_ieq(s, "info"@) {
        Some(LogLevelFilter::Info)
    } else if spec_ieq(s, "debug"@) {
        Some(LogLevelFilter::Debug)
    } else if spec_ieq(s, "trace"@) {
        Some(LogLevelFilter::Trace)
    } else {
        None
    }
}

/// Parses a level word, ignoring ASCII case.
pub fn level_filter_from_str(s: &str) -> (r: Option<LogLevelFilter>)
    ensures
        r == spec_level_filter_of(s@),
{
    if str_ieq(s, "off") {
        Some(LogLevelFilter::Off)
    } else if str_ieq(s, "error") {
        Some(LogLevelFilter::Error)
    } else if str_ieq(s, "warn") {
        Some(LogLevelFilter::Warn)
    } else if str_ieq(s, "info") {
        Some(LogLevelFilter::Info)
    } else if str_ieq(s, "debug") {
        Some(LogLevelFilter::Debug)
    } else if str_ieq(s, "trace") {
        Some(LogLevelFilter::Trace)
    } else {
        None
    }
}

/// One filtering directive: a ceiling for targets under a module prefix,
/// or a global ceiling where no module is named.
pub struct LogDirective {
    pub module: Option<String>,
    pub level: LogLevelFilter,
}

/// A directive reduced to its mathematical content.
pub open spec fn directive_model(d: LogDirective) -> (Option<Seq<char>>, LogLevelFilter) {
    (
        match d.module {
            Some(m) => Some(m@),
            None => None,
        },
        d.level,
    )
}

/// A directive list reduced to its mathematical content, in order.
pub open spec fn directives_model(ds: Seq<LogDirective>) -> Seq<
    (Option<Seq<char>>, LogLevelFilter),
> {
    Seq::new(ds.len(), |i: int| directive_model(ds[i]))
}

/// What one comma-separated segment contributes: nothing for an empty
/// segment, an unrecognized level word or more than one `=`; a global
/// directive for a bare level word; a module directive for `module=level`.
pub open spec fn spec_parse_directive(seg: Seq<char>) -> Option<
    (Option<Seq<char>>, LogLevelFilter),
> {
    if seg.len() == 0 {
        None
    } else {
        let e = find_ch(seg, '=');
        if e == seg.len() {
            match spec_level_filter_of(seg) {
                Some(l) => Some((None, l)),
                None => None,
            }
        } else {
            let rest = seg.skip(e + 1);
            if find_ch(rest, '=') < rest.len() {
                None
            } else {
                match spec_level_filter_of(rest) {
                    Some(l) => Some((Some(seg.take(e)), l)),
                    None => None,
                }
            }
        }
    }
}

/// The directives read from a comma-separated string, in order, with the
/// segments that contribute nothing skipped.
pub open spec fn spec_parse_directives(s: Seq<char>) -> Seq<(Option<Seq<char>>, LogLevelFilter)>
    decreases s.len(),
    via spec_parse_directives_decreases
{
    let k = find_ch(s, ',');
    let first = match spec_parse_directive(s.take(k)) {
        Some(d) => seq![d],
        None => Seq::empty(),
    };
    if k == s.len() {
        first
    } else {
        first + spec_parse_directives(s.skip(k + 1))
    }
}

#[via_fn]
proof fn spec_parse_directives_decreases(s: Seq<char>) {
    lemma_find_ch(s, ',');
}

/// The directive list a logger starts with: what the string yields, or one
/// global info-level directive where it yields nothing.
pub open spec fn spec_logger_directives(s: Seq<char>) -> Seq<(Option<Seq<char>>, LogLevelFilter)> {
    let ds = spec_parse_directives(s);
    if ds.len() == 0 {
        seq![(None, LogLevelFilter::Info)]
    } else {
        ds
    }
}

fn parse_directive(seg: &str) -> (r: Option<LogDirective>)
    ensures
        match r {
            Some(d) => spec_parse_directive(seg@) == Some(directive_model(d)),
            None => spec_parse_directive(seg@) is None,
        },
{
    proof {
        lemma_find_ch(seg@, '=');
    }
    let n = seg.unicode_len();
    if n == 0 {
        return None;
    }
    let e = find_char(seg, '=');
    if e == n {
        match level_filter_from_str(seg) {
            Some(l) => Some(LogDirective { module: None, level: l }),
            None => None,
        }
    } else {
        let module = seg.substring_char(0, e);
        let rest = seg.substring_char(e + 1, n);
        proof {
            assert(module@ =~= seg@.take(e as int));
            assert(rest@ =~= seg@.skip(e as int + 1));
            lemma_find_ch(rest@, '=');
        }
        if find_char(rest, '=') < rest.unicode_len() {
            return None;
        }
        match level_filter_from_str(rest) {
            Some(l) => Some(LogDirective { module: Some(module.to_owned()), level: l }),
            None => None,
        }
    }
}

/// Reads a comma-separated directive string into directives, in order.
pub fn parse_directives(s: &str) -> (r: Vec<LogDirective>)
    ensures
        directives_model(r@) == spec_parse_directives(s@),
    decreases s@.len(),
{
    proof {
        lemma_find_ch(s@, ',');
    }
    let n = s.unicode_len();
    let k = find_char(s, ',');
    let seg = s.substring_char(0, k);
    proof {
        assert(seg@ =~= s@.take(k as int));
    }
    let first = parse_directive(seg);
    let mut out: Vec<LogDirective> = Vec::new();
    match first {
        Some(d) => out.push(d),
        None => (),
    }
    if k < n {
        let tail = s.substring_char(k + 1, n);
        proof {
            assert(tail@ =~= s@.skip(k as int + 1));
        }
        let mut rest = parse_directives(tail);
        let ghost head_len = out@.len();
        out.append(&mut rest);
        proof {
            assert(directives_model(out@) =~= spec_parse_directives(s@));
        }
    } else {
        proof {
            assert(directives_model(out@) =~= spec_parse_directives(s@));
        }
    }
    out
}

/// The first module directive at or after position `i` whose module is a
/// prefix of the target, read in order.
pub open spec fn spec_module_match_from(
    ds: Seq<(Option<Seq<char>>, LogLevelFilter)>,
    target: Seq<char>,
    i: int,
) -> Option<LogLevelFilter>
    decreases ds.len() - i,
{
    if i < 0 || i >= ds.len() {
        None
    } else {
        match ds[i].0 {
            Some(m) => if spec_is_prefix(m, target) {
                Some(ds[i].1)
            } else {
                spec_module_match_from(ds, target, i + 1)
            },
            None => spec_module_match_from(ds, target, i + 1),
        }
    }
}

/// The first global directive at or after position `i`, read in order.
pub open spec fn spec_global_from(
    ds: Seq<(Option<Seq<char>>, LogLevelFilter)>,
    i: int,
) -> Option<LogLevelFilter>
    decreases ds.len() - i,
{
    if i < 0 || i >= ds.len() {
        None
    } else {
        match ds[i].0 {
            Some(_) => spec_global_from(ds, i + 1),
            None => Some(ds[i].1),
        }
    }
}

/// Whether a record with the given target and level is enabled: the first
/// directive whose module prefixes the target decides; failing that, the
/// first global directive decides; failing that, nothing is enabled.
pub open spec fn spec_enabled(
    ds: Seq<(Option<Seq<char>>, LogLevelFilter)>,
    target: Seq<char>,
    level: LogLevel,
) -> bool {
    match spec_module_match_from(ds, target, 0) {
        Some(f) => spec_level_rank(level) <= spec_filter_rank(f),
        None => match spec_global_from(ds, 0) {
            Some(f) => spec_level_rank(level) <= spec_filter_rank(f),
            None => false,
        },
    }
}

/// The record filter: directives read once at construction, consulted for
/// every record.
pub struct SpanLogger {
    pub directives: Vec<LogDirective>,
}

impl SpanLogger {
    /// The logger's directive list reduced to its mathematical content.
    pub open spec fn model(&self) -> Seq<(Option<Seq<char>>, LogLevelFilter)> {
        directives_model(self.directives@)
    }

    /// A logger configured from a comma-separated directive string,
    /// consumed once here; a string yielding no directive leaves one
    /// global info-level directive.
    pub fn new(env_filter: &str) -> (r: SpanLogger)
        ensures
            r.model() == spec_logger_directives(env_filter@),
    {
        let mut directives = parse_directives(env_filter);
        if directives.len() == 0 {
            directives.push(LogDirective { module: None, level: LogLevelFilter::Info });
        }
        let r = SpanLogger { directives };
        proof {
            assert(r.model() =~= spec_logger_directives(env_filter@));
        }
        r
    }

    fn level_rank(level: LogLevel) -> (r: u8)
        ensures
            r == spec_level_rank(level),
    {
        match level {
            LogLevel::Error => 1,
            LogLevel::Warn => 2,
            LogLevel::Info => 3,
            LogLevel::Debug => 4,
            LogLevel::Trace => 5,
        }
    }

    fn filter_rank(f: LogLevelFilter) -> (r: u8)
        ensures
            r == spec_filter_rank(f),
    {
        match f {
            LogLevelFilter::Off => 0,
            LogLevelFilter::Error => 1,
            LogLevelFilter::Warn => 2,
            LogLevelFilter::Info => 3,
            LogLevelFilter::Debug => 4,
            LogLevelFilter::Trace => 5,
        }
    }

    /// Whether a record with the given target and level passes the
    /// directives: the first module directive prefixing the target wins,
    /// else the first global directive, else nothing passes.
    pub fn enabled(&self, target: &str, level: LogLevel) -> (r: bool)
        ensures
            r == spec_enabled(self.model(), target@, level),
    {
        let n = self.directives.len();
        let mut i: usize = 0;
        while i < n
            invariant
                i <= n,
                n == self.directives@.len(),
                spec_module_match_from(self.model(), target@, 0) == spec_module_match_from(
                    self.model(),
                    target@,
                    i as int,
                ),
            decreases n - i,
        {
            match &self.directives[i].module {
                Some(m) => {
                    if starts_with_str(target, m.as_str()) {
                        return Self::level_rank(level) <= Self::filter_rank(
                            self.directives[i].level,
                        );
                    }
                },
                None => (),
            }
            i = i + 1;
        }
        let mut j: usize = 0;
        while j < n
            invariant
                j <= n,
                n == self.directives@.len(),
                spec_module_match_from(self.model(), target@, 0) is None,
                spec_global_from(self.model(), 0) == spec_global_from(self.model(), j as int),
            decreases n - j,
        {
            match &self.directives[j].module {
                Some(_) => (),
                None => {
                    return Self::level_rank(level) <= Self::filter_rank(self.directives[j].level);
                },
            }
            j = j + 1;
        }
        false
    }
}

} // verus!
