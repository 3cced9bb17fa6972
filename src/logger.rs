//! Log line layout. Installing the logger itself is done by the binary.
use vstd::prelude::*;
use vstd::string::*;

verus! {

/// The severity of a log record.
#[derive(Clone, Copy, Debug, PartialEq, Eq, Structural)]
pub enum LogLevel {
    Error,
    Warn,
    Info,
    Debug,
    Trace,
}

/// The label shown before a record's timestamp; info records carry none.
pub fn level_label(level: LogLevel) -> (r: Option<&'static str>)
    ensures
        level == LogLevel::Info <==> r is None,
        level == LogLevel::Error ==> (r matches Some(s) && s@ == "Error"@),
        level == LogLevel::Warn ==> (r matches Some(s) && s@ == "Warn"@),
        level == LogLevel::Debug ==> (r matches Some(s) && s@ == "Debug"@),
        level == LogLevel::Trace ==> (r matches Some(s) && s@ == "Trace"@),
{
    match level {
        LogLevel::Error => Some("Error"),
        LogLevel::Warn => Some("Warn"),
        LogLevel::Info => None,
        LogLevel::Debug => Some("Debug"),
        LogLevel::Trace => Some("Trace"),
    }
}

/// The layout of a log line: `[time] text` for an info record, and
/// `[label] [time]: text` for the others, where `label` is the (possibly
/// coloured) level label.
pub fn format_line(level: LogLevel, label: &str, timestamp: &str, text: &str) -> (r: String)
    ensures
        level == LogLevel::Info ==> r@ == "["@ + timestamp@ + "] "@ + text@,
        level != LogLevel::Info ==> r@ == "["@ + label@ + "] ["@ + timestamp@ + "]: "@ + text@,
{
    let mut r = String::from_str("[");
    if level == LogLevel::Info {
        r.append(timestamp);
        r.append("] ");
        r.append(text);
        assert(r@ =~= "["@ + timestamp@ + "] "@ + text@);
    } else {
        r.append(label);
        r.append("] [");
        r.append(timestamp);
        r.append("]: ");
        r.append(text);
        assert(r@ =~= "["@ + label@ + "] ["@ + timestamp@ + "]: "@ + text@);
    }
    r
}

/// The notice printed when a logger could not be installed, given the
/// installer's error; none when it was installed.
pub fn try_set_logger(init_error: Option<&str>) -> (r: Option<String>)
    ensures
        init_error is None ==> r is None,
        init_error matches Some(e) ==> (r matches Some(m) && m@ == "Kovi init env_logger failed: "@ + e@
            + ". Very likely you've already started a logger"@),
{
    match init_error {
        None => None,
        Some(e) => {
            let mut m = String::from_str("Kovi init env_logger failed: ");
            m.append(e);
            m.append(". Very likely you've already started a logger");
            assert(m@ =~= "Kovi init env_logger failed: "@ + e@ + ". Very likely you've already started a logger"@);
            Some(m)
        },
    }
}

} // verus!
