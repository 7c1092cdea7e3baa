use vstd::prelude::*;

verus! {

/// Severity of a log record, most severe first.
#[derive(Debug, Clone, Copy, PartialEq, Eq, Structural)]
pub enum Level {
    Error,
    Warn,
    Info,
    Debug,
    Trace,
}

impl Level {
    /// The numeric rank of a severity: lower is more severe.
    pub open spec fn rank_spec(self) -> u8 {
        match self {
            Level::Error => 1,
            Level::Warn => 2,
            Level::Info => 3,
            Level::Debug => 4,
            Level::Trace => 5,
        }
    }

    /// Returns the numeric rank of this severity.
    pub fn rank(self) -> (r: u8)
        ensures
            r == self.rank_spec(),
    {
        match self {
            Level::Error => 1,
            Level::Warn => 2,
            Level::Info => 3,
            Level::Debug => 4,
            Level::Trace => 5,
        }
    }
}

/// The filter of the kernel's logger: which records are kept at all, and
/// which of those also go to the display once it is up. The transports
/// themselves live in the runtime shell; this holds the decisions.
pub struct LogHandler {
    /// Whether the display is initialized and may be written to.
    pub has_display_init: bool,
    /// Most verbose severity that still goes to the display.
    pub display_level: Level,
    /// Most verbose severity that is logged at all.
    pub level: Level,
}

impl LogHandler {
    /// Creates a filter with the display not yet available.
    pub fn new(level: Level, display_level: Level) -> (h: LogHandler)
        ensures
            h.level == level,
            h.display_level == display_level,
            !h.has_display_init,
    {
        LogHandler { has_display_init: false, display_level, level }
    }

    /// Marks the display as available for log output.
    pub fn init_display(&mut self)
        ensures
            final(self).has_display_init,
            final(self).level == old(self).level,
            final(self).display_level == old(self).display_level,
    {
        self.has_display_init = true;
    }

    /// Whether a record of the given severity is logged at all.
    pub fn enabled(&self, level: Level) -> (r: bool)
        ensures
            r == (level.rank_spec() <= self.level.rank_spec()),
    {
        level.rank() <= self.level.rank()
    }

    /// Whether a record of the given severity goes to the display: only
    /// once the display is up, and only within the display's own severity
    /// limit; everything else stays on the fallback channel.
    pub fn should_display(&self, level: Level) -> (r: bool)
        ensures
            r == (self.has_display_init && level.rank_spec() <= self.display_level.rank_spec()),
    {
        self.has_display_init && level.rank() <= self.display_level.rank()
    }
}

} // verus!
