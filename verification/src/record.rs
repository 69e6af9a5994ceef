//! Log records: how a decorator's configuration resolves into the fields of
//! an emitted record, and the sink contract records are handed to.

use vstd::prelude::*;

use crate::outcome::Level;

verus! {

/// Module path and target a record falls back to when neither a target nor a
/// module path was configured: the decorators' own defining identity.
pub const SELF_MODULE: &'static str = "tower_log";

/// File a record falls back to when no call-site file was configured.
pub const SELF_FILE: &'static str = "tower_log/src/record.rs";

/// Line a record falls back to when no call-site line was configured.
pub const SELF_LINE: u32 = 0;

/// A fully resolved log record, ready for a sink.
#[derive(Clone, Debug, PartialEq, Eq)]
pub struct LogRecord {
    pub level: Level,
    pub target: String,
    pub module: String,
    pub file: String,
    pub line: u32,
    pub message: String,
}

/// The target a record carries: the explicit target, else the explicit
/// module path, else the decorators' own identity.
pub open spec fn resolved_target(
    target: Option<&'static str>,
    module: Option<&'static str>,
) -> Seq<char> {
    match target {
        Some(t) => t@,
        None => match module {
            Some(m) => m@,
            None => SELF_MODULE@,
        },
    }
}

/// The module path a record carries: the explicit module path, else the
/// explicit target, else the decorators' own identity.
pub open spec fn resolved_module(
    target: Option<&'static str>,
    module: Option<&'static str>,
) -> Seq<char> {
    match module {
        Some(m) => m@,
        None => match target {
            Some(t) => t@,
            None => SELF_MODULE@,
        },
    }
}

/// The file a record carries: the explicit file, else this crate's own.
pub open spec fn resolved_file(file: Option<&'static str>) -> Seq<char> {
    match file {
        Some(f) => f@,
        None => SELF_FILE@,
    }
}

/// The line a record carries: the explicit line, else this crate's own.
pub open spec fn resolved_line(line: Option<u32>) -> u32 {
    match line {
        Some(l) => l,
        None => SELF_LINE,
    }
}

/// The message a record carries: the static context naming the operation
/// that produced the outcome, then the rendered outcome.
pub open spec fn message_of(context: &'static str, rendered: Seq<char>) -> Seq<char> {
    context@ + ": "@ + rendered
}

/// `r` is exactly the record that a decorator configured with `level`,
/// `target`, `module`, `file` and `line` emits with message `message`.
pub open spec fn record_resolves(
    r: LogRecord,
    level: Level,
    target: Option<&'static str>,
    module: Option<&'static str>,
    file: Option<&'static str>,
    line: Option<u32>,
    message: Seq<char>,
) -> bool {
    &&& r.level == level
    &&& r.target@ == resolved_target(target, module)
    &&& r.module@ == resolved_module(target, module)
    &&& r.file@ == resolved_file(file)
    &&& r.line == resolved_line(line)
    &&& r.message@ == message
}

/// `post` is `pre` with exactly one new record at the end, and that record
/// resolves from the given configuration and message.
pub open spec fn emitted_one(
    pre: Seq<LogRecord>,
    post: Seq<LogRecord>,
    level: Level,
    target: Option<&'static str>,
    module: Option<&'static str>,
    file: Option<&'static str>,
    line: Option<u32>,
    message: Seq<char>,
) -> bool {
    &&& post.len() == pre.len() + 1
    &&& post == pre.push(post.last())
    &&& record_resolves(post.last(), level, target, module, file, line, message)
}

/// Build the record that the given configuration calls for, with the message
/// `"<context>: <rendered>"`.
pub fn build_record(
    level: Level,
    target: Option<&'static str>,
    module: Option<&'static str>,
    file: Option<&'static str>,
    line: Option<u32>,
    context: &'static str,
    rendered: &str,
) -> (r: LogRecord)
    ensures
        record_resolves(r, level, target, module, file, line, message_of(context, rendered@)),
{
    let target_used: &'static str = match target {
        Some(t) => t,
        None => match module {
            Some(m) => m,
            None => SELF_MODULE,
        },
    };
    let module_used: &'static str = match module {
        Some(m) => m,
        None => match target {
            Some(t) => t,
            None => SELF_MODULE,
        },
    };
    let file_used: &'static str = match file {
        Some(f) => f,
        None => SELF_FILE,
    };
    let line_used: u32 = match line {
        Some(l) => l,
        None => SELF_LINE,
    };
    let mut message = context.to_owned();
    message.append(": ");
    message.append(rendered);
    LogRecord {
        level,
        target: target_used.to_owned(),
        module: module_used.to_owned(),
        file: file_used.to_owned(),
        line: line_used,
        message,
    }
}

/// A destination for finished log records. The decorators are driven with a
/// sink exactly as the wrapped capability is driven with them; a backend
/// adapter implements this for the process-wide log facility and routes each
/// record onward the moment it is accepted.
pub trait Sink {
    /// The records this sink has accepted, oldest first. A sink that routes
    /// records onward without keeping them may leave the default, the empty
    /// history.
    open spec fn emitted(&self) -> Seq<LogRecord> {
        Seq::empty()
    }

    /// Accept one record.
    fn accept(&mut self, record: LogRecord)
        ensures
            final(self).emitted() == old(self).emitted().push(record),
    ;
}

/// A sink that keeps every accepted record in memory, oldest first.
#[derive(Clone, Debug, PartialEq, Eq)]
pub struct RecordingSink {
    pub records: Vec<LogRecord>,
}

impl RecordingSink {
    /// An empty sink: no record accepted yet.
    pub fn new() -> (r: Self)
        ensures
            r.emitted() == Seq::<LogRecord>::empty(),
    {
        RecordingSink { records: Vec::new() }
    }
}

impl Sink for RecordingSink {
    open spec fn emitted(&self) -> Seq<LogRecord> {
        self.records@
    }

    fn accept(&mut self, record: LogRecord) {
        self.records.push(record);
    }
}

} // verus!
