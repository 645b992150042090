//! Logging configuration: the verbosity levels, how a level is read from
//! text, the backend filter each level selects, and how a field is shown.
use vstd::prelude::*;

verus! {

#[verifier::external_type_specification]
#[verifier::external_body]
pub struct ExEnvFilter(tracing_subscriber::EnvFilter);

#[verifier::external_type_specification]
#[verifier::external_body]
pub struct ExFilterParseError(tracing_subscriber::filter::ParseError);

/// A character as compared case-insensitively: ASCII capitals as their
/// small letters, everything else as itself.
pub open spec fn fold_ascii(c: char) -> int {
    if 65 <= (c as u32) && (c as u32) <= 90 {
        (c as int) + 32
    } else {
        c as int
    }
}

/// `a` and `b` are equal but for the case of ASCII letters.
pub open spec fn same_ignoring_ascii_case(a: Seq<char>, b: Seq<char>) -> bool {
    &&& a.len() == b.len()
    &&& forall|i: int| 0 <= i < a.len() ==> fold_ascii(#[trigger] a[i]) == fold_ascii(b[i])
}

/// Relies on `str::eq_ignore_ascii_case`: equality after mapping ASCII
/// capitals to small letters.
#[verifier::external_body]
fn eq_ignore_ascii_case(a: &str, b: &str) -> (r: bool)
    ensures
        r == same_ignoring_ascii_case(a@, b@),
{
    a.eq_ignore_ascii_case(b)
}

/// Whether `tracing_subscriber` accepts `s` as a list of filter directives.
pub uninterp spec fn directives_accepted(s: Seq<char>) -> bool;

/// Relies on `tracing_subscriber::EnvFilter::try_new`: parses filter
/// directives, a function of the text alone.
#[verifier::external_body]
fn parse_directives(s: &str) -> (r: Result<tracing_subscriber::EnvFilter, tracing_subscriber::filter::ParseError>)
    ensures
        r is Ok == directives_accepted(s@),
{
    tracing_subscriber::EnvFilter::try_new(s)
}

/// How much the logging backend shows.
#[derive(PartialEq, Eq, Debug, Clone, Copy, Structural)]
pub enum LogLevel {
    /// Only shows errors and warnings: `"critical"`.
    Critical,
    /// Shows errors, warnings, and some informational messages that are likely
    /// to be relevant when troubleshooting such as configuration: `"support"`.
    Support,
    /// Shows everything except debug and trace information: `"normal"`.
    Normal,
    /// Shows everything: `"debug"`.
    Debug,
    /// Shows nothing: `"off"`.
    Off,
}

/// The level that `s` names, ignoring ASCII case, if any.
pub open spec fn level_named(s: Seq<char>) -> Option<LogLevel> {
    if same_ignoring_ascii_case(s, "critical"@) {
        Some(LogLevel::Critical)
    } else if same_ignoring_ascii_case(s, "support"@) {
        Some(LogLevel::Support)
    } else if same_ignoring_ascii_case(s, "normal"@) {
        Some(LogLevel::Normal)
    } else if same_ignoring_ascii_case(s, "debug"@) {
        Some(LogLevel::Debug)
    } else if same_ignoring_ascii_case(s, "off"@) {
        Some(LogLevel::Off)
    } else {
        None
    }
}

/// The filter directives each level selects.
pub open spec fn directives_of(level: LogLevel) -> Seq<char> {
    match level {
        LogLevel::Critical => "warn,hyper=off,rustls=off"@,
        LogLevel::Support => "warn,rocket::support=info,hyper=off,rustls=off"@,
        LogLevel::Normal => "info,hyper=off,rustls=off"@,
        LogLevel::Debug => "trace"@,
        LogLevel::Off => "off"@,
    }
}

/// A text that names no log level.
pub struct InvalidLogLevel {
    pub given: String,
}

impl InvalidLogLevel {
    /// What was expected instead.
    pub fn expected(&self) -> (r: &'static str)
        ensures
            r@ == "a log level (off, debug, normal, support, critical)"@,
    {
        "a log level (off, debug, normal, support, critical)"
    }
}

/// The backend refused a level's filter directives.
#[derive(Clone, Copy, Debug, PartialEq, Eq, Structural)]
pub enum FilterError {
    Rejected,
}

impl LogLevel {
    /// The level that `s` names, ignoring ASCII case; any other text is an
    /// error that carries it.
    pub fn parse(s: &str) -> (r: Result<LogLevel, InvalidLogLevel>)
        ensures
            match level_named(s@) {
                Some(level) => r == Ok::<LogLevel, InvalidLogLevel>(level),
                None => r matches Err(e) && e.given@ == s@,
            },
    {
        if eq_ignore_ascii_case(s, "critical") {
            Ok(LogLevel::Critical)
        } else if eq_ignore_ascii_case(s, "support") {
            Ok(LogLevel::Support)
        } else if eq_ignore_ascii_case(s, "normal") {
            Ok(LogLevel::Normal)
        } else if eq_ignore_ascii_case(s, "debug") {
            Ok(LogLevel::Debug)
        } else if eq_ignore_ascii_case(s, "off") {
            Ok(LogLevel::Off)
        } else {
            Err(InvalidLogLevel { given: String::from_str(s) })
        }
    }

    /// The filter directives this level selects.
    pub fn directives(self) -> (r: &'static str)
        ensures
            r@ == directives_of(self),
    {
        match self {
            LogLevel::Critical => "warn,hyper=off,rustls=off",
            LogLevel::Support => "warn,rocket::support=info,hyper=off,rustls=off",
            LogLevel::Normal => "info,hyper=off,rustls=off",
            LogLevel::Debug => "trace",
            LogLevel::Off => "off",
        }
    }
}

/// The backend filter for `level`: its directives as parsed by the backend.
pub fn filter_layer(level: LogLevel) -> (r: Result<tracing_subscriber::EnvFilter, FilterError>)
    ensures
        r is Ok == directives_accepted(directives_of(level)),
{
    match parse_directives(level.directives()) {
        Ok(filter) => Ok(filter),
        Err(_) => Err(FilterError::Rejected),
    }
}

/// Whether `a` and `b` hold the same characters.
fn same_text(a: &str, b: &str) -> (r: bool)
    ensures
        r == (a@ == b@),
{
    let n = a.unicode_len();
    if n != b.unicode_len() {
        return false;
    }
    let mut i: usize = 0;
    while i < n
        invariant
            n == a@.len(),
            n == b@.len(),
            i <= n,
            a@.subrange(0, i as int) == b@.subrange(0, i as int),
        decreases n - i,
    {
        if a.get_char(i) != b.get_char(i) {
            return false;
        }
        assert(a@.subrange(0, i + 1) =~= a@.subrange(0, i as int).push(a@[i as int]));
        assert(b@.subrange(0, i + 1) =~= b@.subrange(0, i as int).push(b@[i as int]));
        i = i + 1;
    }
    assert(a@ =~= a@.subrange(0, n as int));
    assert(b@ =~= b@.subrange(0, n as int));
    true
}

/// How a logged field is shown: the message bare, any other field as its
/// name, a colon and a space, then its value.
pub fn field_text(name: &str, value: &str) -> (r: String)
    ensures
        name@ == "message"@ ==> r@ == value@,
        name@ != "message"@ ==> r@ == name@ + ": "@ + value@,
{
    if same_text(name, "message") {
        String::from_str(value)
    } else {
        let mut out = String::from_str(name);
        out.append(": ");
        out.append(value);
        out
    }
}

} // verus!
