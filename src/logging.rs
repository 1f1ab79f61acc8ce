use vstd::prelude::*;

verus! {

/// How much tracing output the console shows.
#[derive(Debug, Clone, Copy, PartialEq, Eq)]
pub enum Level {
    /// Suppress all tracing output by default (overridable by `RUST_LOG`).
    Default,
    /// Show debug messages by default (overridable by `RUST_LOG`).
    Verbose,
    /// Show messages in a hierarchical span tree. By default, debug messages
    /// are shown (overridable by `RUST_LOG`).
    ExtraVerbose,
}

impl Default for Level {
    fn default() -> (r: Level)
        ensures
            r == Level::Default,
    {
        Level::Default
    }
}

/// How much tracing output the log file receives.
#[derive(Debug, Clone, Copy, PartialEq, Eq)]
pub enum LogLevel {
    /// Write debug messages to the log file.
    Verbose,
    /// Write messages in a hierarchical span tree to the log file, debug
    /// messages are written.
    ExtraVerbose,
    /// Write trace level logs to the log file.
    TraceVerbose,
    /// Write messages in a hierarchical span tree to the log file, trace
    /// messages are written.
    TraceExtraVerbose,
}

impl Default for LogLevel {
    fn default() -> (r: LogLevel)
        ensures
            r == LogLevel::Verbose,
    {
        LogLevel::Verbose
    }
}

/// Whether output is colored.
#[derive(Debug, Clone, Copy, PartialEq, Eq)]
pub enum ColorChoice {
    /// Color when the stream supports it.
    Auto,
    Always,
    Never,
}

/// The choice of the user, with `next` deciding only where the user left it
/// open.
pub open spec fn combined_choice(first: ColorChoice, next: ColorChoice) -> ColorChoice {
    match first {
        ColorChoice::Auto => next,
        _ => first,
    }
}

impl ColorChoice {
    /// Combines this choice (higher priority) with another (lower priority).
    pub fn and_colorchoice(self, next: ColorChoice) -> (r: ColorChoice)
        ensures
            r == combined_choice(self, next),
    {
        match self {
            ColorChoice::Auto => next,
            ColorChoice::Always | ColorChoice::Never => self,
        }
    }
}

/// Whether the console writes ANSI escapes, from the user's choice and the
/// choice detected for the stream, which is never `Auto`.
pub fn console_ansi(color: ColorChoice, detected: ColorChoice) -> (r: bool)
    requires
        detected != ColorChoice::Auto,
    ensures
        r == (combined_choice(color, detected) == ColorChoice::Always),
{
    match color.and_colorchoice(detected) {
        ColorChoice::Always => true,
        ColorChoice::Never => false,
        ColorChoice::Auto => false,
    }
}

/// How a layer lays its messages out.
#[derive(Debug, Clone, Copy, PartialEq, Eq)]
pub enum LayerStyle {
    /// One line per event, with its level.
    Flat,
    /// A hierarchical tree of spans.
    Tree,
}

/// The default console filter directive of a level: nothing, or the debug
/// messages of `uv`.
pub open spec fn default_directive_of(level: Level) -> Seq<char> {
    match level {
        Level::Default => "off"@,
        _ => "uv=debug"@,
    }
}

/// The console filter directive that applies unless `RUST_LOG` overrides it.
pub fn default_directive(level: Level) -> (r: &'static str)
    ensures
        r@ == default_directive_of(level),
{
    match level {
        Level::Default => "off",
        Level::Verbose | Level::ExtraVerbose => "uv=debug",
    }
}

/// The filter directive of the log file: debug messages of `uv`, or every
/// trace message.
pub open spec fn file_directive_of(level: LogLevel) -> Seq<char> {
    match level {
        LogLevel::Verbose | LogLevel::ExtraVerbose => "uv=debug"@,
        LogLevel::TraceVerbose | LogLevel::TraceExtraVerbose => "trace"@,
    }
}

/// The filter directive of the log file.
pub fn file_directive(level: LogLevel) -> (r: &'static str)
    ensures
        r@ == file_directive_of(level),
{
    match level {
        LogLevel::Verbose | LogLevel::ExtraVerbose => "uv=debug",
        LogLevel::TraceVerbose | LogLevel::TraceExtraVerbose => "trace",
    }
}

/// The layout of the console layer: a span tree only at the extra verbose
/// level.
pub fn console_style(level: Level) -> (r: LayerStyle)
    ensures
        r == (if level == Level::ExtraVerbose {
            LayerStyle::Tree
        } else {
            LayerStyle::Flat
        }),
{
    match level {
        Level::Default | Level::Verbose => LayerStyle::Flat,
        Level::ExtraVerbose => LayerStyle::Tree,
    }
}

/// The layout of the log file's layer: a span tree at both extra verbose
/// levels.
pub fn file_style(level: LogLevel) -> (r: LayerStyle)
    ensures
        r == (if level == LogLevel::ExtraVerbose || level == LogLevel::TraceExtraVerbose {
            LayerStyle::Tree
        } else {
            LayerStyle::Flat
        }),
{
    match level {
        LogLevel::Verbose | LogLevel::TraceVerbose => LayerStyle::Flat,
        LogLevel::ExtraVerbose | LogLevel::TraceExtraVerbose => LayerStyle::Tree,
    }
}

} // verus!
