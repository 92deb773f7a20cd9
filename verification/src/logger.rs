//! The decisions of the logger.
//!
//! Logging runs on a channel: instances on any thread hand commands to one
//! receiver that writes them out. What is decided on either end of the
//! channel stands here, free of the channel itself: an `Instance` says
//! which command, if any, a request puts on the channel, and a
//! `LogReceiver` says where a command that arrives is written to.

use vstd::prelude::*;

use crate::Disableable;

verus! {

/// The level or severity of a log message. Each level has a bit of its own,
/// so that a filter is a threshold among them.
#[derive(Debug, Copy, Clone, PartialEq, Eq, Hash, Structural)]
pub enum FilterLevel {
    Trace,
    Debug,
    Info,
    Warning,
    Error,
    Fatal,
}

/// Where log messages are written to.
#[derive(Debug, Copy, Clone, PartialEq, Eq, Hash, Structural)]
pub enum OutputType {
    Neither,
    Console,
    File,
    Both,
}

/// A log message with its level and the place it was logged at.
#[derive(Debug)]
pub struct MsgTuple {
    pub level: FilterLevel,
    pub fn_name: String,
    pub line: u32,
    pub msg: String,
}

/// What travels on the channel.
#[derive(Debug)]
pub enum Command {
    LogMsg(MsgTuple),
    SetOutput(OutputType),
}

/// What a `Command` holds.
pub enum CommandView {
    LogMsg { level: FilterLevel, fn_name: Seq<char>, line: u32, msg: Seq<char> },
    SetOutput(OutputType),
}

/// The sending end: whether it is enabled, and the least level it lets
/// through.
#[derive(Debug, Clone, Copy)]
pub struct Instance {
    enabled: bool,
    filter: u8,
}

/// What an `Instance` holds.
pub struct InstanceView {
    pub enabled: bool,
    pub filter: u8,
}

/// The receiving end: where it writes at present.
#[derive(Debug, Clone, Copy)]
pub struct LogReceiver {
    output_type: OutputType,
}

/// Where one received message is to be written.
#[derive(Debug)]
pub struct Delivery {
    pub msg: MsgTuple,
    pub to_console: bool,
    pub to_file: bool,
}

impl FilterLevel {
    /// The bit of the level.
    pub open spec fn mask(self) -> u8 {
        match self {
            FilterLevel::Trace => 0x01,
            FilterLevel::Debug => 0x02,
            FilterLevel::Info => 0x04,
            FilterLevel::Warning => 0x08,
            FilterLevel::Error => 0x10,
            FilterLevel::Fatal => 0x20,
        }
    }

    /// The label of the level in upper case.
    pub open spec fn label(self) -> Seq<char> {
        match self {
            FilterLevel::Trace => "TRACE"@,
            FilterLevel::Debug => "DEBUG"@,
            FilterLevel::Info => "INFO"@,
            FilterLevel::Warning => "WARNING"@,
            FilterLevel::Error => "ERROR"@,
            FilterLevel::Fatal => "FATAL"@,
        }
    }

    /// The bit of the level.
    pub fn value(self) -> (v: u8)
        ensures
            v == self.mask(),
    {
        match self {
            FilterLevel::Trace => 0x01,
            FilterLevel::Debug => 0x02,
            FilterLevel::Info => 0x04,
            FilterLevel::Warning => 0x08,
            FilterLevel::Error => 0x10,
            FilterLevel::Fatal => 0x20,
        }
    }
}

impl From<FilterLevel> for String {
    fn from(src: FilterLevel) -> (s: String)
        ensures
            s@ == src.label(),
    {
        match src {
            FilterLevel::Trace => "TRACE".to_owned(),
            FilterLevel::Debug => "DEBUG".to_owned(),
            FilterLevel::Info => "INFO".to_owned(),
            FilterLevel::Warning => "WARNING".to_owned(),
            FilterLevel::Error => "ERROR".to_owned(),
            FilterLevel::Fatal => "FATAL".to_owned(),
        }
    }
}

impl vstd::std_specs::convert::FromSpecImpl<FilterLevel> for String {
    open spec fn obeys_from_spec() -> bool {
        false
    }

    open spec fn from_spec(v: FilterLevel) -> String {
        arbitrary()
    }
}

impl OutputType {
    /// Messages go to the console.
    pub open spec fn includes_console(self) -> bool {
        self == OutputType::Console || self == OutputType::Both
    }

    /// Messages go to the log file.
    pub open spec fn includes_file(self) -> bool {
        self == OutputType::File || self == OutputType::Both
    }

    /// The two bits of the output: console is the low bit, file the high.
    pub fn bits(self) -> (b: u8)
        ensures
            b < 4,
            (b % 2 == 1) == self.includes_console(),
            (b >= 2) == self.includes_file(),
    {
        match self {
            OutputType::Neither => 0x0,
            OutputType::Console => 0x1,
            OutputType::File => 0x2,
            OutputType::Both => 0x3,
        }
    }
}

impl View for MsgTuple {
    type V = CommandView;

    open spec fn view(&self) -> CommandView {
        CommandView::LogMsg {
            level: self.level,
            fn_name: self.fn_name@,
            line: self.line,
            msg: self.msg@,
        }
    }
}

impl View for Command {
    type V = CommandView;

    open spec fn view(&self) -> CommandView {
        match self {
            Command::LogMsg(tuple) => tuple@,
            Command::SetOutput(output_type) => CommandView::SetOutput(*output_type),
        }
    }
}

impl View for Instance {
    type V = InstanceView;

    closed spec fn view(&self) -> InstanceView {
        InstanceView { enabled: self.enabled, filter: self.filter }
    }
}

impl InstanceView {
    /// Whether a message of the given level is let through.
    pub open spec fn admits(self, level: FilterLevel) -> bool {
        self.enabled && level.mask() >= self.filter
    }
}

impl Instance {
    /// An enabled instance with the given filter, and the command that sets
    /// the receiver to the given output; the caller puts it on the channel.
    pub fn new(filter: u8, output_type: OutputType) -> (r: (Self, Command))
        ensures
            r.0@ == (InstanceView { enabled: true, filter }),
            r.1@ == CommandView::SetOutput(output_type),
    {
        let mut logger_instance = Instance::default();
        logger_instance.set_filter(filter);
        (logger_instance, Command::SetOutput(output_type))
    }

    /// An instance for debugging: it lets `Debug` and all above through,
    /// and the receiver is to write to both outputs.
    pub fn debug_default() -> (r: (Self, Command))
        ensures
            r.0@ == (InstanceView { enabled: true, filter: FilterLevel::Debug.mask() }),
            r.1@ == CommandView::SetOutput(OutputType::Both),
    {
        Instance::new(FilterLevel::Debug.value(), OutputType::Both)
    }

    pub fn filter(&self) -> (f: u8)
        ensures
            f == self@.filter,
    {
        self.filter
    }

    pub fn set_filter(&mut self, new_filter: u8)
        ensures
            final(self)@ == (InstanceView { filter: new_filter, ..old(self)@ }),
    {
        self.filter = new_filter;
    }

    /// Disables the instance: from now on it puts nothing on the channel.
    pub fn disable(&mut self)
        ensures
            final(self)@ == (InstanceView { enabled: false, ..old(self)@ }),
    {
        self.enabled = false;
    }

    /// The command to put on the channel for a message: the message itself
    /// where the instance is enabled and the level reaches the filter,
    /// nothing otherwise.
    pub fn log_msg(&self, level: FilterLevel, fn_name: String, line: u32, msg: String) -> (r:
        Option<Command>)
        ensures
            r is Some <==> self@.admits(level),
            r matches Some(cmd) ==> cmd@ == (CommandView::LogMsg {
                level,
                fn_name: fn_name@,
                line,
                msg: msg@,
            }),
    {
        if self.enabled && level.value() >= self.filter {
            let log_tuple = MsgTuple { level, fn_name, line, msg };
            Some(Command::LogMsg(log_tuple))
        } else {
            None
        }
    }

    /// The command to put on the channel for a command: the command itself
    /// where the instance is enabled, nothing otherwise.
    pub fn log_cmd(&self, cmd: Command) -> (r: Option<Command>)
        ensures
            r is Some <==> self@.enabled,
            r matches Some(sent) ==> sent == cmd,
    {
        if self.enabled {
            Some(cmd)
        } else {
            None
        }
    }
}

impl Default for Instance {
    /// An enabled instance that lets `Info` and all above through.
    fn default() -> (i: Self)
        ensures
            i@ == (InstanceView { enabled: true, filter: FilterLevel::Info.mask() }),
    {
        Instance { enabled: true, filter: FilterLevel::Info.value() }
    }
}

impl Disableable for Instance {
    /// An instance that logs nothing.
    fn disabled() -> (i: Self)
        ensures
            i@ == (InstanceView { enabled: false, filter: FilterLevel::Fatal.mask() }),
    {
        Instance { enabled: false, filter: FilterLevel::Fatal.value() }
    }
}

impl LogReceiver {
    /// The output that the receiver writes to at present.
    pub closed spec fn output(self) -> OutputType {
        self.output_type
    }

    pub fn new(output_type: OutputType) -> (r: Self)
        ensures
            r.output() == output_type,
    {
        LogReceiver { output_type }
    }

    /// Handles one command from the channel. A message comes back with the
    /// outputs it is to be written to; a change of output is taken up and
    /// nothing is to be written.
    pub fn receive(&mut self, cmd: Command) -> (r: Option<Delivery>)
        ensures
            match cmd {
                Command::LogMsg(tuple) => {
                    &&& final(self).output() == old(self).output()
                    &&& r matches Some(d)
                    &&& d.msg == tuple
                    &&& d.to_console == old(self).output().includes_console()
                    &&& d.to_file == old(self).output().includes_file()
                },
                Command::SetOutput(output_type) => {
                    &&& final(self).output() == output_type
                    &&& r is None
                },
            },
    {
        match cmd {
            Command::LogMsg(log_tuple) => {
                let bits = self.output_type.bits();
                Some(Delivery { msg: log_tuple, to_console: bits % 2 == 1, to_file: bits >= 2 })
            },
            Command::SetOutput(output_type) => {
                self.output_type = output_type;
                None
            },
        }
    }
}

/// The message of a log entry as it is written: set off from the left
/// margin by three blanks.
pub open spec fn padded(msg: Seq<char>) -> Seq<char> {
    seq![' ', ' ', ' '] + msg
}

/// Writes the message of a log entry, set off from the left margin.
pub fn padded_message(msg: &str) -> (s: String)
    ensures
        s@ == padded(msg@),
{
    proof {
        reveal_strlit("   ");
    }
    let mut s = "   ".to_owned();
    s.append(msg);
    assert(s@ =~= padded(msg@));
    s
}

} // verus!
