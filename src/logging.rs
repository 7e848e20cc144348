use vstd::prelude::*;
use crate::text::same_text;

verus! {

/// Severity of a log entry, least severe first.
#[derive(Clone, Copy, Debug, PartialEq, Eq, Structural)]
pub enum LogLevel {
    Trace,
    Debug,
    Info,
    Warn,
    Error,
}

/// The level a configuration string names; anything unrecognized is `Info`.
pub open spec fn level_from_name(s: Seq<char>) -> LogLevel {
    if s == "trace"@ {
        LogLevel::Trace
    } else if s == "debug"@ {
        LogLevel::Debug
    } else if s == "warn"@ {
        LogLevel::Warn
    } else if s == "error"@ {
        LogLevel::Error
    } else {
        LogLevel::Info
    }
}

/// The tag written into an entry of the level.
pub open spec fn level_tag(l: LogLevel) -> Seq<char> {
    match l {
        LogLevel::Trace => "TRACE"@,
        LogLevel::Debug => "DEBUG"@,
        LogLevel::Info => "INFO"@,
        LogLevel::Warn => "WARN"@,
        LogLevel::Error => "ERROR"@,
    }
}

impl LogLevel {
    /// Reads a level from configuration text; unknown text gives `Info`.
    pub fn from_name(s: &str) -> (r: LogLevel)
        ensures
            r == level_from_name(s@),
    {
        if same_text(s, "trace") {
            LogLevel::Trace
        } else if same_text(s, "debug") {
            LogLevel::Debug
        } else if same_text(s, "warn") {
            LogLevel::Warn
        } else if same_text(s, "error") {
            LogLevel::Error
        } else {
            LogLevel::Info
        }
    }

    pub fn tag(&self) -> (r: &'static str)
        ensures
            r@ == level_tag(*self),
    {
        match self {
            LogLevel::Trace => "TRACE",
            LogLevel::Debug => "DEBUG",
            LogLevel::Info => "INFO",
            LogLevel::Warn => "WARN",
            LogLevel::Error => "ERROR",
        }
    }
}

/// A logger for one service: its level, its name, and the file that
/// entries are appended to once one is set.
#[derive(Clone, Debug)]
pub struct StructuredLogger {
    pub level: LogLevel,
    pub service_name: String,
    pub log_file: Option<String>,
}

impl StructuredLogger {
    pub fn new(level: LogLevel, service_name: &str) -> (r: StructuredLogger)
        ensures
            r.level == level,
            r.service_name@ == service_name@,
            r.log_file is None,
    {
        StructuredLogger { level, service_name: service_name.to_owned(), log_file: None }
    }

    /// A logger at level `Info`.
    pub fn with_default_config(service_name: &str) -> (r: StructuredLogger)
        ensures
            r.level == LogLevel::Info,
            r.service_name@ == service_name@,
            r.log_file is None,
    {
        StructuredLogger::new(LogLevel::Info, service_name)
    }

    /// The line written to the log file: `[service] LEVEL: message`.
    pub fn format_entry(&self, level: LogLevel, message: &str) -> (r: String)
        ensures
            r@ == "["@ + self.service_name@ + "] "@ + level_tag(level) + ": "@ + message@,
    {
        let r = String::from_str("[")
            .concat(self.service_name.as_str())
            .concat("] ")
            .concat(level.tag())
            .concat(": ")
            .concat(message);
        r
    }
}

/// A logger that prefixes every entry with a context.
#[derive(Clone, Debug)]
pub struct StructuredContextualLogger {
    pub inner: StructuredLogger,
    pub context: String,
}

impl StructuredContextualLogger {
    pub fn new(inner: StructuredLogger, context: &str) -> (r: StructuredContextualLogger)
        ensures
            r.inner == inner,
            r.context@ == context@,
    {
        StructuredContextualLogger { inner, context: context.to_owned() }
    }

    /// The entry text: `[service] [context] message`.
    pub fn format_entry(&self, message: &str) -> (r: String)
        ensures
            r@ == "["@ + self.inner.service_name@ + "] ["@ + self.context@ + "] "@ + message@,
    {
        String::from_str("[")
            .concat(self.inner.service_name.as_str())
            .concat("] [")
            .concat(self.context.as_str())
            .concat("] ")
            .concat(message)
    }
}

/// A logger for build steps, writing to one file.
#[derive(Clone, Debug)]
pub struct BuildLogger {
    log_file: String,
}

impl BuildLogger {
    /// A logger writing to the given file.
    pub fn with_file(log_file: String) -> (r: BuildLogger)
        ensures
            r.spec_log_file() == log_file@,
    {
        BuildLogger { log_file }
    }

    pub closed spec fn spec_log_file(&self) -> Seq<char> {
        self.log_file@
    }

    pub fn get_log_path(&self) -> (r: &str)
        ensures
            r@ == self.spec_log_file(),
    {
        self.log_file.as_str()
    }
}

/// The state of one build phase.
#[derive(Clone, Debug, PartialEq, Eq)]
pub enum PhaseStatus {
    Pending,
    Running,
    Success,
    Failed(String),
}

impl PhaseStatus {
    /// The mark a summary shows for the status.
    pub fn symbol(&self) -> (r: &'static str)
        ensures
            r@ == match self {
                PhaseStatus::Success => "\u{2713}"@,
                PhaseStatus::Failed(_) => "\u{2717}"@,
                PhaseStatus::Running => "\u{27f3}"@,
                PhaseStatus::Pending => "\u{25cb}"@,
            },
    {
        match self {
            PhaseStatus::Success => "\u{2713}",
            PhaseStatus::Failed(_) => "\u{2717}",
            PhaseStatus::Running => "\u{27f3}",
            PhaseStatus::Pending => "\u{25cb}",
        }
    }
}

/// One timed build phase; times are milliseconds on the caller's clock.
#[derive(Debug)]
pub struct BuildPhase {
    pub name: String,
    pub start_ms: u64,
    pub end_ms: Option<u64>,
    pub status: PhaseStatus,
}

/// The position of the first phase with the name, if any.
pub open spec fn first_phase(s: Seq<BuildPhase>, name: Seq<char>) -> Option<int> {
    if exists|i: int| 0 <= i < s.len() && #[trigger] s[i].name@ == name {
        Some(choose|i: int| 0 <= i < s.len() && #[trigger] s[i].name@ == name
            && forall|j: int| 0 <= j < i ==> s[j].name@ != name)
    } else {
        None
    }
}

/// Timings of a build, phase by phase, in the order the phases started.
#[derive(Debug)]
pub struct BuildMetrics {
    pub start_ms: u64,
    pub phases: Vec<BuildPhase>,
}

impl BuildMetrics {
    /// A build started at `start_ms`, with no phase yet.
    pub fn new(start_ms: u64) -> (r: BuildMetrics)
        ensures
            r.start_ms == start_ms,
            r.phases@.len() == 0,
    {
        BuildMetrics { start_ms, phases: Vec::new() }
    }

    /// Appends a phase named `name`, running since `now_ms`.
    pub fn start_phase(&mut self, name: &str, now_ms: u64)
        ensures
            final(self).start_ms == old(self).start_ms,
            final(self).phases@.len() == old(self).phases@.len() + 1,
            forall|i: int| 0 <= i < old(self).phases@.len() ==> #[trigger] final(self).phases@[i] == old(self).phases@[i],
            final(self).phases@.last().name@ == name@,
            final(self).phases@.last().start_ms == now_ms,
            final(self).phases@.last().end_ms is None,
            final(self).phases@.last().status == PhaseStatus::Running,
    {
        self.phases.push(BuildPhase {
            name: name.to_owned(),
            start_ms: now_ms,
            end_ms: None,
            status: PhaseStatus::Running,
        });
    }

    /// Ends the first phase named `name` at `now_ms`: `Success`, or `Failed`
    /// with the message (`Unknown error` when none is given). Without such a
    /// phase nothing changes.
    pub fn end_phase(&mut self, name: &str, success: bool, error_msg: Option<&str>, now_ms: u64)
        ensures
            final(self).start_ms == old(self).start_ms,
            final(self).phases@.len() == old(self).phases@.len(),
            match first_phase(old(self).phases@, name@) {
                None => final(self).phases@ == old(self).phases@,
                Some(k) => {
                    &&& forall|i: int| 0 <= i < old(self).phases@.len() && i != k
                        ==> #[trigger] final(self).phases@[i] == old(self).phases@[i]
                    &&& final(self).phases@[k].name == old(self).phases@[k].name
                    &&& final(self).phases@[k].start_ms == old(self).phases@[k].start_ms
                    &&& final(self).phases@[k].end_ms == Some(now_ms)
                    &&& if success {
                        final(self).phases@[k].status == PhaseStatus::Success
                    } else {
                        final(self).phases@[k].status matches PhaseStatus::Failed(m) && m@ == match error_msg {
                            Some(e) => e@,
                            None => "Unknown error"@,
                        }
                    }
                },
            },
    {
        let ghost s = self.phases@;
        let mut i: usize = 0;
        while i < self.phases.len()
            invariant
                s == self.phases@,
                s == old(self).phases@,
                self.start_ms == old(self).start_ms,
                i <= s.len(),
                forall|j: int| 0 <= j < i ==> s[j].name@ != name@,
            decreases s.len() - i,
        {
            if same_text(self.phases[i].name.as_str(), name) {
                proof {
                    let k = choose|k: int| 0 <= k < s.len() && #[trigger] s[k].name@ == name@
                        && forall|j: int| 0 <= j < k ==> s[j].name@ != name@;
                    assert(0 <= k < s.len() && s[k].name@ == name@ && forall|j: int| 0 <= j < k ==> s[j].name@ != name@) by {
                        assert(s[i as int].name@ == name@);
                    }
                    if k < i as int {
                        assert(s[k].name@ != name@);
                    }
                    if k > i as int {
                        assert(s[i as int].name@ != name@);
                    }
                    assert(first_phase(s, name@) == Some(i as int));
                }
                let status = if success {
                    PhaseStatus::Success
                } else {
                    let m = match error_msg {
                        Some(e) => e.to_owned(),
                        None => String::from_str("Unknown error"),
                    };
                    PhaseStatus::Failed(m)
                };
                let old_phase = self.phases.remove(i);
                let updated = BuildPhase { name: old_phase.name, start_ms: old_phase.start_ms, end_ms: Some(now_ms), status };
                let ghost u = updated;
                self.phases.insert(i, updated);
                assert(self.phases@ =~= s.update(i as int, u));
                return;
            }
            i = i + 1;
        }
    }
}

} // verus!
