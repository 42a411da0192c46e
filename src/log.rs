use vstd::prelude::*;
use vstd::string::*;

verus! {

/// Severity of a log record.
#[derive(Clone, Copy, Debug, PartialEq, Eq, Structural)]
pub enum Level {
    Error,
    Warn,
    Info,
    Debug,
    Trace,
}

/// Severity as the media framework's debug log names it.
#[derive(Clone, Copy, Debug, PartialEq, Eq, Structural)]
pub enum DebugLevel {
    Error,
    Warning,
    Info,
    Debug,
    Trace,
}

/// Hands log records to the media framework's debug log.
#[derive(Clone, Copy, Debug)]
pub struct GstLayer;

pub open spec fn debug_level_spec(l: Level) -> DebugLevel {
    match l {
        Level::Error => DebugLevel::Error,
        Level::Warn => DebugLevel::Warning,
        Level::Info => DebugLevel::Info,
        Level::Debug => DebugLevel::Debug,
        Level::Trace => DebugLevel::Trace,
    }
}

/// Where a log record came from, with a stand-in for each part it lacks.
pub struct SourceLocation {
    pub file: String,
    pub module: String,
    pub line: u32,
}

impl GstLayer {
    /// The debug-log level a record of level `l` is written at.
    pub fn debug_level(&self, l: Level) -> (r: DebugLevel)
        ensures
            r == debug_level_spec(l),
    {
        match l {
            Level::Error => DebugLevel::Error,
            Level::Warn => DebugLevel::Warning,
            Level::Info => DebugLevel::Info,
            Level::Debug => DebugLevel::Debug,
            Level::Trace => DebugLevel::Trace,
        }
    }

    /// The record's file, module and line, or `<unknown file>`,
    /// `<unknown module>` and `0` where it has none.
    pub fn source_location(&self, file: Option<&str>, module: Option<&str>, line: Option<u32>) -> (r:
        SourceLocation)
        ensures
            r.file@ == match file {
                Some(f) => f@,
                None => "<unknown file>"@,
            },
            r.module@ == match module {
                Some(m) => m@,
                None => "<unknown module>"@,
            },
            r.line == match line {
                Some(l) => l,
                None => 0,
            },
    {
        let file = match file {
            Some(f) => String::from_str(f),
            None => String::from_str("<unknown file>"),
        };
        let module = match module {
            Some(m) => String::from_str(m),
            None => String::from_str("<unknown module>"),
        };
        let line = match line {
            Some(l) => l,
            None => 0,
        };
        SourceLocation { file, module, line }
    }
}

/// Collects a record's fields into one line of text.
pub struct StringVisitor {
    pub string: String,
}

impl StringVisitor {
    pub fn new() -> (r: StringVisitor)
        ensures
            r.string@ == Seq::<char>::empty(),
    {
        StringVisitor { string: String::new() }
    }

    /// Appends `name = value; ` for one field, `value` being the field's
    /// debug rendering.
    pub fn record_debug(&mut self, name: &str, value: &str)
        ensures
            final(self).string@ == old(self).string@ + name@ + " = "@ + value@ + "; "@,
    {
        self.string.append(name);
        self.string.append(" = ");
        self.string.append(value);
        self.string.append("; ");
    }
}

/// The environment entry that tells clients which socket to connect to.
pub fn wayland_display_env(socket: &str) -> (r: String)
    ensures
        r@ == "WAYLAND_DISPLAY="@ + socket@,
{
    let mut s = String::from_str("WAYLAND_DISPLAY=");
    s.append(socket);
    s
}

} // verus!
