use vstd::prelude::*;

verus! {

/// Most messages the terminal keeps; the oldest goes when a new one would exceed it.
pub const TERMINAL_CAPACITY: usize = 750;

#[derive(Clone, Copy, Debug, PartialEq, Eq, Structural)]
pub enum LogType {
    Warning,
    Debug,
    Info,
}

pub struct LogMessage {
    pub log_type: LogType,
    pub log_msg: String,
}

/// The emulator's message log, with a switch per kind of message.
pub struct Terminal {
    pub logs: Vec<LogMessage>,
    pub warning_enabled: bool,
    pub debug_enabled: bool,
    pub info_enabled: bool,
}

/// A message as the terminal holds it.
pub struct LogEntry {
    pub log_type: LogType,
    pub text: Seq<char>,
}

pub open spec fn log_entry(m: LogMessage) -> LogEntry {
    LogEntry { log_type: m.log_type, text: m.log_msg@ }
}

impl Terminal {
    /// The messages held, oldest first.
    pub open spec fn entries(&self) -> Seq<LogEntry> {
        self.logs@.map_values(|m: LogMessage| log_entry(m))
    }

    /// Whether messages of `t` are recorded.
    pub open spec fn accepts(&self, t: LogType) -> bool {
        match t {
            LogType::Warning => self.warning_enabled,
            LogType::Debug => self.debug_enabled,
            LogType::Info => self.info_enabled,
        }
    }

    /// An empty terminal that records every kind of message.
    pub fn new() -> (t: Self)
        ensures
            t.entries() == Seq::<LogEntry>::empty(),
            t.warning_enabled && t.debug_enabled && t.info_enabled,
    {
        let t = Terminal { logs: Vec::new(), warning_enabled: true, debug_enabled: true, info_enabled: true };
        proof { assert(t.entries() =~= Seq::<LogEntry>::empty()); }
        t
    }
}

/// The messages after `e` is recorded: appended, and the oldest dropped
/// when there would be more than [`TERMINAL_CAPACITY`].
pub open spec fn logs_after_push(logs: Seq<LogEntry>, e: LogEntry) -> Seq<LogEntry> {
    let pushed = logs.push(e);
    if pushed.len() > TERMINAL_CAPACITY {
        pushed.drop_first()
    } else {
        pushed
    }
}

/// Records a message of kind `log_type`, when that kind is switched on.
pub fn print_logs(terminal: &mut Terminal, log_type: LogType, log_msg: String)
    ensures
        final(terminal).entries() == (if old(terminal).accepts(log_type) {
            logs_after_push(old(terminal).entries(), LogEntry { log_type, text: log_msg@ })
        } else {
            old(terminal).entries()
        }),
        (match log_type {
            LogType::Warning => old(terminal).warning_enabled,
            LogType::Debug => old(terminal).debug_enabled,
            LogType::Info => old(terminal).info_enabled,
        }) ==> final(terminal).entries() == logs_after_push(
            old(terminal).entries(),
            LogEntry { log_type, text: log_msg@ },
        ),
        !(match log_type {
            LogType::Warning => old(terminal).warning_enabled,
            LogType::Debug => old(terminal).debug_enabled,
            LogType::Info => old(terminal).info_enabled,
        }) ==> final(terminal).entries() == old(terminal).entries(),
        final(terminal).warning_enabled == old(terminal).warning_enabled,
        final(terminal).debug_enabled == old(terminal).debug_enabled,
        final(terminal).info_enabled == old(terminal).info_enabled,
{
    let is_enabled = match log_type {
        LogType::Warning => terminal.warning_enabled,
        LogType::Debug => terminal.debug_enabled,
        LogType::Info => terminal.info_enabled,
    };
    if !is_enabled {
        return;
    }
    let ghost e = LogEntry { log_type, text: log_msg@ };
    terminal.logs.push(LogMessage { log_type, log_msg });
    proof {
        assert(terminal.entries() =~= old(terminal).entries().push(e));
    }
    if terminal.logs.len() > TERMINAL_CAPACITY {
        let ghost before = terminal.entries();
        terminal.logs.remove(0);
        proof {
            assert(terminal.entries() =~= before.drop_first());
        }
    }
}

/// The terminal never holds more than [`TERMINAL_CAPACITY`] messages: a
/// record keeps a log within the bound, and a log at the bound keeps its size.
pub proof fn law_terminal_bounded(logs: Seq<LogEntry>, e: LogEntry)
    requires
        logs.len() <= TERMINAL_CAPACITY,
    ensures
        logs_after_push(logs, e).len() <= TERMINAL_CAPACITY,
        logs.len() == TERMINAL_CAPACITY ==> logs_after_push(logs, e).len() == TERMINAL_CAPACITY,
        logs_after_push(logs, e).last() == e,
        logs.len() < TERMINAL_CAPACITY ==> logs_after_push(logs, e) == logs.push(e),
{
}

/// A message of a kind is recorded exactly when that kind's own switch is
/// on, whatever the other two switches say.
pub proof fn law_log_switches(t: Terminal)
    ensures
        t.accepts(LogType::Warning) == t.warning_enabled,
        t.accepts(LogType::Debug) == t.debug_enabled,
        t.accepts(LogType::Info) == t.info_enabled,
{
}

/// A full log drops its oldest message: the others keep their order, and the
/// new message comes last.
pub proof fn law_terminal_drops_oldest(logs: Seq<LogEntry>, e: LogEntry)
    requires
        logs.len() == TERMINAL_CAPACITY,
    ensures
        logs_after_push(logs, e) == logs.subrange(1, TERMINAL_CAPACITY as int).push(e),
        forall|i: int| 0 <= i < TERMINAL_CAPACITY - 1 ==> #[trigger] logs_after_push(logs, e)[i] == logs[i + 1],
{
    assert(logs_after_push(logs, e) =~= logs.subrange(1, TERMINAL_CAPACITY as int).push(e));
}

} // verus!
