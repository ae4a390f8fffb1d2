use vstd::prelude::*;
use vstd::arithmetic::div_mod::lemma_fundamental_div_mod;
use vstd::string::StringExecFns;

verus! {

/// Severity of a log message, from the most severe to the most verbose.
#[derive(PartialEq, Eq, Structural, Debug, Clone, Copy)]
pub enum LogLevel {
    Error,
    Warn,
    Info,
    Debug,
    Trace,
}

/// The position of a level in the order of verbosity: `Error` is 1 and
/// `Trace` is 5. A message passes a filter when its rank is at most the
/// filter's rank.
pub open spec fn level_rank(l: LogLevel) -> int {
    match l {
        LogLevel::Error => 1,
        LogLevel::Warn => 2,
        LogLevel::Info => 3,
        LogLevel::Debug => 4,
        LogLevel::Trace => 5,
    }
}

/// The name under which a level is printed.
pub open spec fn level_name(l: LogLevel) -> Seq<char> {
    match l {
        LogLevel::Error => "ERROR"@,
        LogLevel::Warn => "WARN"@,
        LogLevel::Info => "INFO"@,
        LogLevel::Debug => "DEBUG"@,
        LogLevel::Trace => "TRACE"@,
    }
}

/// The character of a decimal digit.
pub open spec fn digit_char(d: nat) -> char {
    if d == 0 {
        '0'
    } else if d == 1 {
        '1'
    } else if d == 2 {
        '2'
    } else if d == 3 {
        '3'
    } else if d == 4 {
        '4'
    } else if d == 5 {
        '5'
    } else if d == 6 {
        '6'
    } else if d == 7 {
        '7'
    } else if d == 8 {
        '8'
    } else {
        '9'
    }
}

/// The decimal form of a number, without leading zeros.
pub open spec fn decimal_chars(n: nat) -> Seq<char>
    decreases n,
{
    if n < 10 {
        seq![digit_char(n)]
    } else {
        decimal_chars(n / 10).push(digit_char(n % 10))
    }
}

/// The text of an optional string.
pub open spec fn opt_text(s: Option<&str>) -> Option<Seq<char>> {
    match s {
        Some(t) => Some(t@),
        None => None,
    }
}

/// The value of a digit character; characters that are no digit count 9.
pub open spec fn digit_value(c: char) -> nat {
    if c == '0' {
        0
    } else if c == '1' {
        1
    } else if c == '2' {
        2
    } else if c == '3' {
        3
    } else if c == '4' {
        4
    } else if c == '5' {
        5
    } else if c == '6' {
        6
    } else if c == '7' {
        7
    } else if c == '8' {
        8
    } else {
        9
    }
}

/// The number that a string of decimal digits stands for.
pub open spec fn decimal_value(s: Seq<char>) -> nat
    decreases s.len(),
{
    if s.len() == 0 {
        0
    } else {
        decimal_value(s.drop_last()) * 10 + digit_value(s.last())
    }
}

/// The decimal form of a number reads back as that number, and it starts
/// with a zero only where the number is zero.
pub proof fn lemma_decimal_form_reads_back(n: nat)
    ensures
        decimal_value(decimal_chars(n)) == n,
        decimal_chars(n).len() > 0,
        decimal_chars(n)[0] == '0' <==> n == 0,
    decreases n,
{
    if n >= 10 {
        lemma_decimal_form_reads_back(n / 10);
        let s = decimal_chars(n);
        assert(s.drop_last() =~= decimal_chars(n / 10));
        assert(s.last() == digit_char(n % 10));
        assert(digit_value(digit_char(n % 10)) == n % 10);
        assert(s[0] == decimal_chars(n / 10)[0]);
        assert(n / 10 > 0);
        assert(decimal_value(s) == (n / 10) * 10 + n % 10);
        lemma_fundamental_div_mod(n as int, 10);
    } else {
        let s = decimal_chars(n);
        assert(s.drop_last() =~= Seq::<char>::empty());
        assert(decimal_value(Seq::<char>::empty()) == 0);
        assert(s.last() == digit_char(n));
        assert(decimal_value(s) == digit_value(digit_char(n)));
    }
}

/// One line of the log: `[time] [LEVEL] [file:line] message`, where a
/// missing file reads `unknown` and a missing line reads `0`.
pub open spec fn log_line(
    timestamp: Seq<char>,
    level: LogLevel,
    file: Option<Seq<char>>,
    line: Option<u32>,
    message: Seq<char>,
) -> Seq<char> {
    let file_text = match file {
        Some(f) => f,
        None => "unknown"@,
    };
    let line_number: nat = match line {
        Some(n) => n as nat,
        None => 0,
    };
    "["@ + timestamp + "] ["@ + level_name(level) + "] ["@ + file_text + ":"@ + decimal_chars(
        line_number,
    ) + "] "@ + message
}

impl LogLevel {
    /// The position of the level in the order of verbosity.
    pub fn rank(&self) -> (r: u8)
        ensures
            r == level_rank(*self),
    {
        match self {
            LogLevel::Error => 1,
            LogLevel::Warn => 2,
            LogLevel::Info => 3,
            LogLevel::Debug => 4,
            LogLevel::Trace => 5,
        }
    }

    /// The name under which the level is printed.
    pub fn name(&self) -> (r: &'static str)
        ensures
            r@ == level_name(*self),
    {
        match self {
            LogLevel::Error => "ERROR",
            LogLevel::Warn => "WARN",
            LogLevel::Info => "INFO",
            LogLevel::Debug => "DEBUG",
            LogLevel::Trace => "TRACE",
        }
    }
}

/// Appends one character to a string (`String::push`).
#[verifier::external_body]
fn push_char(s: &mut String, c: char)
    ensures
        final(s)@ == old(s)@.push(c),
{
    s.push(c);
}

/// The pattern in which log lines carry their time: date, time to the
/// millisecond, and the zone.
pub open spec fn timestamp_pattern_spec() -> Seq<char> {
    "%Y-%m-%d %H:%M:%S%.3f UTC"@
}

/// The pattern in which log lines carry their time.
pub fn timestamp_pattern() -> (r: &'static str)
    ensures
        r@ == timestamp_pattern_spec(),
{
    "%Y-%m-%d %H:%M:%S%.3f UTC"
}

/// The current time in UTC, read from `chrono::Utc::now` and written with
/// `chrono`'s `format(pattern).to_string()`. The `requires` admits the one
/// pattern the library uses, which `chrono` accepts (an invalid pattern
/// makes `to_string` panic). The text depends on the clock, so nothing is
/// stated of it.
#[verifier::external_body]
fn utc_timestamp(pattern: &str) -> String
    requires
        pattern@ == timestamp_pattern_spec(),
{
    chrono::Utc::now().format(pattern).to_string()
}

/// The character of the digit `d`.
fn digit(d: u32) -> (c: char)
    requires
        d < 10,
    ensures
        c == digit_char(d as nat),
{
    if d == 0 {
        '0'
    } else if d == 1 {
        '1'
    } else if d == 2 {
        '2'
    } else if d == 3 {
        '3'
    } else if d == 4 {
        '4'
    } else if d == 5 {
        '5'
    } else if d == 6 {
        '6'
    } else if d == 7 {
        '7'
    } else if d == 8 {
        '8'
    } else {
        '9'
    }
}

/// Appends the decimal form of `n` to `s`.
pub fn append_decimal(s: &mut String, n: u32)
    ensures
        final(s)@ == old(s)@ + decimal_chars(n as nat),
    decreases n,
{
    if n >= 10 {
        append_decimal(s, n / 10);
    }
    let d = digit(n % 10);
    push_char(s, d);
    proof {
        if n >= 10 {
            assert(old(s)@ + decimal_chars(n as nat) =~= old(s)@ + decimal_chars((n / 10) as nat)
                + seq![d]);
        } else {
            assert(decimal_chars(n as nat) =~= seq![d]);
        }
    }
}

/// Writes one log line from its parts.
pub fn format_log_line(
    timestamp: &str,
    level: LogLevel,
    file: Option<&str>,
    line: Option<u32>,
    message: &str,
) -> (r: String)
    ensures
        r@ == log_line(
            timestamp@,
            level,
            opt_text(file),
            line,
            message@,
        ),
{
    let mut s = String::new();
    s.append("[");
    s.append(timestamp);
    s.append("] [");
    s.append(level.name());
    s.append("] [");
    match file {
        Some(f) => s.append(f),
        None => s.append("unknown"),
    }
    s.append(":");
    let n: u32 = match line {
        Some(n) => n,
        None => 0,
    };
    append_decimal(&mut s, n);
    s.append("] ");
    s.append(message);
    s
}

/// A destination for log lines (a file, the terminal, a socket).
pub trait LogOutput {
    /// Writes one formatted line.
    fn write(&self, message: &str) -> Result<(), String>;

    /// Writes out anything that is buffered; by default there is nothing,
    /// and the flush succeeds.
    fn flush(&self) -> (r: Result<(), String>)
        default_ensures
            r == Ok::<(), String>(()),
    {
        Ok(())
    }
}

/// A logger that lets through the messages at or above its level and hands
/// them, formatted, to its output.
pub struct GlobalLogger<O: LogOutput> {
    pub output: O,
    pub level: LogLevel,
}

impl<O: LogOutput> GlobalLogger<O> {
    /// A logger that writes to `output` the messages up to `level`.
    pub fn new(output: O, level: LogLevel) -> (r: Self)
        ensures
            r.output == output,
            r.level == level,
    {
        GlobalLogger { output, level }
    }

    /// Whether a message of the given level passes the logger's filter.
    pub fn enabled(&self, level: LogLevel) -> (r: bool)
        ensures
            r == (level_rank(level) <= level_rank(self.level)),
    {
        level.rank() <= self.level.rank()
    }

    /// The line written for a message, stamped with the current time.
    pub fn format_record(&self, level: LogLevel, file: Option<&str>, line: Option<u32>, message: &str) -> (r:
        String)
        ensures
            exists|timestamp: Seq<char>|
                r@ == #[trigger] log_line(
                    timestamp,
                    level,
                    opt_text(file),
                    line,
                    message@,
                ),
    {
        let pattern = timestamp_pattern();
        let timestamp = utc_timestamp(pattern);
        format_log_line(timestamp.as_str(), level, file, line, message)
    }

    /// The line to write for a message, or `None` where the filter drops it.
    pub fn prepare(&self, level: LogLevel, file: Option<&str>, line: Option<u32>, message: &str) -> (r:
        Option<String>)
        ensures
            r is None <==> !(level_rank(level) <= level_rank(self.level)),
            r matches Some(text) ==> exists|timestamp: Seq<char>|
                text@ == #[trigger] log_line(
                    timestamp,
                    level,
                    opt_text(file),
                    line,
                    message@,
                ),
    {
        if self.enabled(level) {
            Some(self.format_record(level, file, line, message))
        } else {
            None
        }
    }

    /// Logs a message: where the filter lets it through, writes its line to
    /// the output and gives back what the output answered; else `None`.
    pub fn log(&self, level: LogLevel, file: Option<&str>, line: Option<u32>, message: &str) -> (r:
        Option<Result<(), String>>)
        ensures
            r is None <==> !(level_rank(level) <= level_rank(self.level)),
            r matches Some(res) ==> exists|timestamp: Seq<char>, text: &str|
                #![trigger log_line(timestamp, level, opt_text(file), line, message@), text@]
                text@ == log_line(timestamp, level, opt_text(file), line, message@)
                    && call_ensures(O::write, (&self.output, text), res),
    {
        match self.prepare(level, file, line, message) {
            Some(text) => Some(self.output.write(text.as_str())),
            None => None,
        }
    }

    /// Flushes the output.
    pub fn flush(&self) -> Result<(), String> {
        self.output.flush()
    }
}

/// The filter is monotone: a message that passes it lets through every
/// message at a more severe level, and a logger with a more verbose level
/// lets through everything a less verbose one does.
pub proof fn lemma_filter_is_monotone(message: LogLevel, more_severe: LogLevel, filter: LogLevel, more_verbose: LogLevel)
    requires
        level_rank(more_severe) <= level_rank(message),
        level_rank(filter) <= level_rank(more_verbose),
        level_rank(message) <= level_rank(filter),
    ensures
        level_rank(more_severe) <= level_rank(filter),
        level_rank(message) <= level_rank(more_verbose),
{
}

/// Every level passes its own filter, `Error` passes every filter, and a
/// `Trace` filter lets everything through.
pub proof fn lemma_filter_extremes(level: LogLevel)
    ensures
        level_rank(level) <= level_rank(level),
        level_rank(LogLevel::Error) <= level_rank(level),
        level_rank(level) <= level_rank(LogLevel::Trace),
{
}

} // verus!
