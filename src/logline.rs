//! Coloured, two-line layout of log records for a terminal.

use vstd::prelude::*;

verus! {

/// Severity of a log record.
#[derive(Clone, Copy, Debug, PartialEq, Eq, Structural)]
pub enum LogLevel {
    Error,
    Warn,
    Info,
    Debug,
    Trace,
}

/// How a record of one level is shown.
pub struct LevelStyle {
    pub level_color: &'static str,
    pub label: &'static str,
    pub message_color: &'static str,
    /// Highlighted records colour their message like their level.
    pub highlight: bool,
}

pub const RED: &'static str = "\x1b[38;5;196m";

pub const YELLOW: &'static str = "\x1b[38;5;226m";

pub const CYAN: &'static str = "\x1b[38;5;51m";

pub const BLUE: &'static str = "\x1b[38;5;27m";

pub const MAGENTA: &'static str = "\x1b[38;5;201m";

pub const WHITE: &'static str = "\x1b[38;5;15m";

pub const GREY: &'static str = "\x1b[38;5;250m";

pub const RESET: &'static str = "\x1b[0m";

/// Shown in place of the module path when a record has none.
pub const UNKNOWN_MODULE: &'static str = "<unknown>";

pub open spec fn style_spec(level: LogLevel) -> (Seq<char>, Seq<char>, Seq<char>, bool) {
    match level {
        LogLevel::Error => (RED@, "ERROR"@, RED@, true),
        LogLevel::Warn => (YELLOW@, "WARN "@, YELLOW@, true),
        LogLevel::Info => (CYAN@, "INFO "@, WHITE@, false),
        LogLevel::Debug => (BLUE@, "DEBUG"@, WHITE@, false),
        LogLevel::Trace => (MAGENTA@, "TRACE"@, WHITE@, false),
    }
}

pub fn level_style(level: LogLevel) -> (r: LevelStyle)
    ensures
        (r.level_color@, r.label@, r.message_color@, r.highlight) == style_spec(level),
{
    match level {
        LogLevel::Error => LevelStyle {
            level_color: RED,
            label: "ERROR",
            message_color: RED,
            highlight: true,
        },
        LogLevel::Warn => LevelStyle {
            level_color: YELLOW,
            label: "WARN ",
            message_color: YELLOW,
            highlight: true,
        },
        LogLevel::Info => LevelStyle {
            level_color: CYAN,
            label: "INFO ",
            message_color: WHITE,
            highlight: false,
        },
        LogLevel::Debug => LevelStyle {
            level_color: BLUE,
            label: "DEBUG",
            message_color: WHITE,
            highlight: false,
        },
        LogLevel::Trace => LevelStyle {
            level_color: MAGENTA,
            label: "TRACE",
            message_color: WHITE,
            highlight: false,
        },
    }
}

/// The two lines shown for a record: time and level, then module and
/// message. Records that are not highlighted keep a space at the end of the
/// first line.
pub open spec fn log_line(
    level: LogLevel,
    timestamp: Seq<char>,
    module: Option<Seq<char>>,
    message: Seq<char>,
) -> Seq<char> {
    let (level_color, label, message_color, highlight) = style_spec(level);
    let module_text = match module {
        Some(m) => m,
        None => UNKNOWN_MODULE@,
    };
    let split = if highlight {
        "]\n["@
    } else {
        "] \n["@
    };
    WHITE@ + timestamp + RESET@ + " ["@ + level_color + label + RESET@ + split + GREY@ + module_text
        + RESET@ + "] "@ + message_color + message + RESET@ + "\n"@
}

pub fn format_log_line(level: LogLevel, timestamp: &str, module: Option<&str>, message: &str) -> (r:
    String)
    ensures
        r@ == log_line(
            level,
            timestamp@,
            match module {
                Some(m) => Some(m@),
                None => None,
            },
            message@,
        ),
{
    let style = level_style(level);
    let module_text = match module {
        Some(m) => m,
        None => UNKNOWN_MODULE,
    };
    let split = if style.highlight {
        "]\n["
    } else {
        "] \n["
    };
    let mut r = WHITE.to_owned();
    r.append(timestamp);
    r.append(RESET);
    r.append(" [");
    r.append(style.level_color);
    r.append(style.label);
    r.append(RESET);
    r.append(split);
    r.append(GREY);
    r.append(module_text);
    r.append(RESET);
    r.append("] ");
    r.append(style.message_color);
    r.append(message);
    r.append(RESET);
    r.append("\n");
    r
}

} // verus!
