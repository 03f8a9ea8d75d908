//! Log levels, log lines, the routing of a line to its destination, and the
//! arguments of the connection check.

pub mod decimal;
pub mod text;

use crate::util::decimal::{decimal_digits, decimal_string};
use vstd::prelude::*;

verus! {

/// Severity of a line handed to the log.
#[derive(Clone, Copy, Debug, PartialEq, Eq, Structural)]
pub enum LogLevel {
    Info,
    Warn,
    Error,
}

/// Exit status of a process that ends on an error-level line.
pub const ERROR_EXIT_CODE: i32 = 1;

/// One message together with its severity.
#[derive(Debug)]
pub struct LogLine {
    pub level: LogLevel,
    pub message: String,
}

impl View for LogLine {
    type V = (LogLevel, Seq<char>);

    open spec fn view(&self) -> (LogLevel, Seq<char>) {
        (self.level, self.message@)
    }
}

impl DeepView for LogLine {
    type V = (LogLevel, Seq<char>);

    open spec fn deep_view(&self) -> (LogLevel, Seq<char>) {
        self@
    }
}

impl LogLine {
    /// A line of severity `level` that reads `message`.
    pub fn new(level: LogLevel, message: String) -> (line: LogLine)
        ensures
            line@ == (level, message@),
    {
        LogLine { level, message }
    }
}

/// Appends a line of severity `level` that reads `message`.
pub fn push_line(lines: &mut Vec<LogLine>, level: LogLevel, message: String)
    ensures
        final(lines).deep_view() == old(lines).deep_view().push((level, message@)),
{
    lines.push(LogLine { level, message });
    assert(lines.deep_view() =~= old(lines).deep_view().push((level, message@)));
}

/// What becomes of a line.
#[derive(Clone, Copy, Debug, PartialEq, Eq, Structural)]
pub enum LogRoute {
    /// The line goes to the configured log sink, at its own level.
    Sink(LogLevel),
    /// The line is printed to standard output.
    Console,
    /// The line is the last thing the process does: it ends with this status.
    Terminate(i32),
}

/// The route of a line of severity `level`.
///
/// With a sink every line is logged. Without one, informational lines and
/// warnings are printed, and an error ends the process with
/// [`ERROR_EXIT_CODE`].
pub open spec fn route_of(level: LogLevel, sink_configured: bool) -> LogRoute {
    if sink_configured {
        LogRoute::Sink(level)
    } else if level == LogLevel::Error {
        LogRoute::Terminate(ERROR_EXIT_CODE)
    } else {
        LogRoute::Console
    }
}

/// Decides where a line of severity `level` goes.
pub fn log_route(level: LogLevel, sink_configured: bool) -> (route: LogRoute)
    ensures
        route == route_of(level, sink_configured),
        sink_configured ==> route == LogRoute::Sink(level),
        route is Terminate <==> !sink_configured && level == LogLevel::Error,
{
    if sink_configured {
        LogRoute::Sink(level)
    } else {
        match level {
            LogLevel::Error => LogRoute::Terminate(ERROR_EXIT_CODE),
            _ => LogRoute::Console,
        }
    }
}

/// Whether some line of `lines` ends the process when it is routed.
pub open spec fn ends_process(lines: Seq<(LogLevel, Seq<char>)>, sink_configured: bool) -> bool {
    exists|i: int| 0 <= i < lines.len() && route_of(#[trigger] lines[i].0, sink_configured) is Terminate
}

/// Tells whether routing `lines` in order reaches a line that ends the process.
pub fn lines_end_process(lines: &Vec<LogLine>, sink_configured: bool) -> (fatal: bool)
    ensures
        fatal == ends_process(lines.deep_view(), sink_configured),
        sink_configured ==> !fatal,
{
    let mut i: usize = 0;
    while i < lines.len()
        invariant
            i <= lines.len(),
            forall|j: int|
                0 <= j < i ==> !(route_of(#[trigger] lines.deep_view()[j].0, sink_configured) is Terminate),
        decreases lines.len() - i,
    {
        let route = log_route(lines[i].level, sink_configured);
        assert(lines.deep_view()[i as int].0 == lines[i as int].level);
        if let LogRoute::Terminate(_) = route {
            return true;
        }
        i += 1;
    }
    false
}

/// Arguments of the one-shot connection check.
#[derive(Debug, Clone)]
pub struct VerifyArgs {
    pub user: String,
    pub host: String,
    pub port: u32,
    pub key_file: String,
}

/// Port that the connection check uses when none is given.
pub const DEFAULT_PORT: u32 = 22;

impl VerifyArgs {
    /// The address that the check connects to: host, a colon, the port in decimal.
    pub open spec fn address_spec(&self) -> Seq<char> {
        self.host@ + seq![':'] + decimal_digits(self.port as nat)
    }

    /// Builds the `host:port` address of the check.
    pub fn address(&self) -> (address: String)
        ensures
            address@ == self.address_spec(),
    {
        let mut address = self.host.clone();
        proof {
            reveal_strlit(":");
        }
        address.append(":");
        assert(":"@ =~= seq![':']);
        let port = decimal_string(self.port as u64);
        address.append(port.as_str());
        address
    }
}

} // verus!
