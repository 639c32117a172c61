use std::io::Write;

use vstd::prelude::*;
use vstd::string::StringExecFns;

use crate::event::{LogEvent, LogEventModel};
use crate::options::GetOptions;
use crate::time::{civil_from_millis, spec_civil_text, spec_represents, CivilDateTime};

verus! {

/// A rendering policy consuming finished event batches. Writing signals no
/// failure: an output fault is fatal to the process, not recoverable within
/// the engine.
pub trait Printer {
    fn print_events(&self, events: &Vec<LogEvent>);

    /// Writes one line of output: a text that already ends in a newline is
    /// written verbatim, any other gets one appended, so that
    /// newline-bearing messages do not produce blank lines.
    fn puts(&self, text: &str) {
        if ends_with_newline(text) {
            write_raw(text);
        } else {
            write_line(text);
        }
    }
}

pub open spec fn spec_ends_with_newline(s: Seq<char>) -> bool {
    s.len() > 0 && s[s.len() - 1] == '\n'
}

fn ends_with_newline(text: &str) -> (r: bool)
    ensures
        r == spec_ends_with_newline(text@),
{
    let n = text.unicode_len();
    if n == 0 {
        false
    } else {
        text.get_char(n - 1) == '\n'
    }
}

/// Relies on `write!` to std::io::Stdout: writes the text to standard
/// output exactly as given, and panics on an output fault.
#[verifier::external_body]
fn write_raw(text: &str) {
    write!(std::io::stdout(), "{}", text).expect("failed to write to stdout");
}

/// Relies on `writeln!` to std::io::Stdout: writes the text and one newline
/// to standard output, and panics on an output fault.
#[verifier::external_body]
fn write_line(text: &str) {
    writeln!(std::io::stdout(), "{}", text).expect("failed to write to stdout");
}

/// Relies on atty::is: whether standard output is an interactive terminal.
/// The answer depends on the machine and the process, so nothing is
/// promised of it.
#[verifier::external_body]
fn stdout_is_tty() -> bool {
    atty::is(atty::Stream::Stdout)
}

/// The green SGR escape and the reset escape around a painted text.
pub open spec fn spec_green_painted(s: Seq<char>) -> Seq<char> {
    seq!['\u{1b}', '[', '3', '2', 'm'] + s + seq!['\u{1b}', '[', '0', 'm']
}

/// Relies on ansi_term::Colour::Green: painting a text with a bare
/// foreground colour wraps it in the colour's SGR escape and the reset
/// escape, changing nothing else.
#[verifier::external_body]
fn paint_green(text: &str) -> (r: String)
    ensures
        r@ == spec_green_painted(text@),
{
    ansi_term::Colour::Green.paint(text).to_string()
}

pub open spec fn spec_decorated(s: Seq<char>, color: bool) -> Seq<char> {
    if color {
        spec_green_painted(s)
    } else {
        s
    }
}

/// Whether `line` is the prefixed rendering of `event`: a bracketed
/// calendar second that represents the event's instant at the display
/// offset, decorated when colorizing is on, then one space and the message.
pub open spec fn spec_prefixed_line(
    line: Seq<char>,
    event: LogEventModel,
    enable_color: bool,
    offset_seconds: int,
) -> bool {
    exists|c: CivilDateTime|
        {
            &&& #[trigger] spec_represents(c, event.timestamp_millis + offset_seconds * 1000)
            &&& line == spec_decorated(seq!['['] + spec_civil_text(c) + seq![']'], enable_color)
                + seq![' '] + event.message
        }
}

/// The bare sink: emits only the message, one event per output line.
#[derive(Debug, Clone)]
pub struct MessagePrinter {}

impl Default for MessagePrinter {
    fn default() -> (r: Self)
        ensures
            r == (MessagePrinter {  }),
    {
        MessagePrinter {  }
    }
}

impl MessagePrinter {
    /// The bare rendering of one event: its message, verbatim.
    pub fn format_event(&self, event: &LogEvent) -> (r: String)
        ensures
            r@ == event@.message,
    {
        event.message.clone()
    }

    /// The bare rendering of a batch: one line per event, in the batch's
    /// order, each line the event's message and nothing else.
    pub fn format_events(&self, events: &Vec<LogEvent>) -> (lines: Vec<String>)
        ensures
            lines@.len() == events@.len(),
            forall|i: int|
                0 <= i < events@.len() ==> (#[trigger] lines@[i])@ == events@[i]@.message,
    {
        let mut lines: Vec<String> = Vec::new();
        let mut i: usize = 0;
        while i < events.len()
            invariant
                i <= events.len(),
                lines@.len() == i,
                forall|j: int| 0 <= j < i ==> (#[trigger] lines@[j])@ == events@[j]@.message,
            decreases events.len() - i,
        {
            lines.push(self.format_event(&events[i]));
            i = i + 1;
        }
        lines
    }
}

impl Printer for MessagePrinter {
    fn print_events(&self, events: &Vec<LogEvent>) {
        let lines = self.format_events(events);
        let mut i: usize = 0;
        while i < lines.len()
            invariant
                i <= lines.len(),
            decreases lines.len() - i,
        {
            self.puts(lines[i].as_str());
            i = i + 1;
        }
    }
}

/// The prefixed sink: emits `[<local time>] <message>` per event, showing
/// the timestamp at a fixed display offset from UTC, and colorizing the
/// prefix when the output is an interactive terminal.
#[derive(Debug, Clone)]
pub struct LogPrinter {
    pub enable_color: bool,
    pub utc_offset_seconds: i32,
}

impl Default for LogPrinter {
    /// Colorizes exactly when standard output is an interactive terminal,
    /// and displays times at UTC+9.
    fn default() -> (r: Self)
        ensures
            r.utc_offset_seconds == 32400,
    {
        LogPrinter { enable_color: stdout_is_tty(), utc_offset_seconds: 9 * 3600 }
    }
}

impl LogPrinter {
    fn decorate(&self, text: String) -> (r: String)
        ensures
            r@ == spec_decorated(text@, self.enable_color),
    {
        if self.enable_color {
            paint_green(text.as_str())
        } else {
            text
        }
    }

    /// The prefixed rendering of one event: `[YYYY-MM-DD HH:MM:SS] ` and the
    /// message, where the bracketed prefix shows the calendar second that
    /// contains the event's instant at the printer's display offset, and is
    /// colorized when colorizing is on.
    pub fn format_event(&self, event: &LogEvent) -> (r: String)
        ensures
            spec_prefixed_line(r@, event@, self.enable_color, self.utc_offset_seconds as int),
    {
        proof {
            reveal_strlit("[");
            reveal_strlit("]");
            reveal_strlit(" ");
        }
        let civil = civil_from_millis(event.timestamp.epoch_millis(), self.utc_offset_seconds);
        let time_text = civil.format();
        let mut prefix = String::from_str("[");
        prefix.append(time_text.as_str());
        prefix.append("]");
        proof {
            assert(prefix@ =~= seq!['['] + spec_civil_text(civil) + seq![']']);
        }
        let mut line = self.decorate(prefix);
        line.append(" ");
        line.append(event.message.as_str());
        proof {
            assert(line@ =~= spec_decorated(
                seq!['['] + spec_civil_text(civil) + seq![']'],
                self.enable_color,
            ) + seq![' '] + event@.message);
            assert(spec_represents(
                civil,
                event@.timestamp_millis + self.utc_offset_seconds * 1000,
            ));
            assert(spec_prefixed_line(
                line@,
                event@,
                self.enable_color,
                self.utc_offset_seconds as int,
            ));
        }
        line
    }

    /// The prefixed rendering of a batch: one line per event, in the
    /// batch's order, each the prefixed rendering of its event.
    pub fn format_events(&self, events: &Vec<LogEvent>) -> (lines: Vec<String>)
        ensures
            lines@.len() == events@.len(),
            forall|i: int|
                0 <= i < events@.len() ==> spec_prefixed_line(
                    (#[trigger] lines@[i])@,
                    events@[i]@,
                    self.enable_color,
                    self.utc_offset_seconds as int,
                ),
    {
        let mut lines: Vec<String> = Vec::new();
        let mut i: usize = 0;
        while i < events.len()
            invariant
                i <= events.len(),
                lines@.len() == i,
                forall|j: int|
                    0 <= j < i ==> spec_prefixed_line(
                        (#[trigger] lines@[j])@,
                        events@[j]@,
                        self.enable_color,
                        self.utc_offset_seconds as int,
                    ),
            decreases events.len() - i,
        {
            lines.push(self.format_event(&events[i]));
            i = i + 1;
        }
        lines
    }
}

impl Printer for LogPrinter {
    fn print_events(&self, events: &Vec<LogEvent>) {
        let lines = self.format_events(events);
        let mut i: usize = 0;
        while i < lines.len()
            invariant
                i <= lines.len(),
            decreases lines.len() - i,
        {
            self.puts(lines[i].as_str());
            i = i + 1;
        }
    }
}

/// The sink policy chosen for one run, decided once before the run starts.
#[derive(Debug)]
pub enum PrinterChoice {
    Prefixed(LogPrinter),
    Bare(MessagePrinter),
}

impl Printer for PrinterChoice {
    fn print_events(&self, events: &Vec<LogEvent>) {
        match self {
            PrinterChoice::Prefixed(p) => p.print_events(events),
            PrinterChoice::Bare(p) => p.print_events(events),
        }
    }
}

/// Chooses the sink from the options: the prefixed printer unless prefixes
/// were switched off.
pub fn create_printer(options: &GetOptions) -> (r: PrinterChoice)
    ensures
        options.use_prefix ==> r is Prefixed,
        !options.use_prefix ==> r is Bare,
        match r {
            PrinterChoice::Prefixed(p) => p.utc_offset_seconds == 32400,
            PrinterChoice::Bare(_) => true,
        },
{
    if options.use_prefix {
        PrinterChoice::Prefixed(LogPrinter::default())
    } else {
        PrinterChoice::Bare(MessagePrinter::default())
    }
}

} // verus!
