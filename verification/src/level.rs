//! Severity levels of log records and the level-filter predicate that the
//! silencing policy evaluates.

use vstd::prelude::*;

verus! {

/// Severity of a log record, from most severe to most verbose.
#[derive(Clone, Copy, Debug, PartialEq, Eq, Structural)]
pub enum Level {
    /// Critical errors.
    Critical,
    /// Serious errors.
    Error,
    /// Hazardous situations.
    Warn,
    /// Useful information.
    Info,
    /// Lower priority information.
    Debug,
    /// Very low priority, often extremely verbose, information.
    Trace,
}

/// Numeric rank of a severity: more severe levels rank lower.
pub open spec fn severity(level: Level) -> int {
    match level {
        Level::Critical => 0,
        Level::Error => 1,
        Level::Warn => 2,
        Level::Info => 3,
        Level::Debug => 4,
        Level::Trace => 5,
    }
}

impl Level {
    /// Rank of this severity; more severe levels rank lower.
    pub fn rank(self) -> (n: u32)
        ensures
            n == severity(self),
    {
        match self {
            Level::Critical => 0,
            Level::Error => 1,
            Level::Warn => 2,
            Level::Info => 3,
            Level::Debug => 4,
            Level::Trace => 5,
        }
    }
}

/// A predicate over severities, ordered by rank.
#[derive(Clone, Copy, Debug, PartialEq, Eq, Structural)]
pub enum LevelFilter {
    /// Matches no level.
    Off,
    /// Matches levels equal to the stored level.
    Equal(Level),
    /// Matches levels not equal to the stored level.
    NotEqual(Level),
    /// Matches levels more severe than the stored level.
    MoreSevere(Level),
    /// Matches levels more severe than or equal to the stored level.
    MoreSevereEqual(Level),
    /// Matches levels more verbose than the stored level.
    MoreVerbose(Level),
    /// Matches levels more verbose than or equal to the stored level.
    MoreVerboseEqual(Level),
    /// Matches every level.
    All,
}

/// What it means for a filter to match a severity.
pub open spec fn filter_matches(filter: LevelFilter, level: Level) -> bool {
    match filter {
        LevelFilter::Off => false,
        LevelFilter::Equal(stored) => severity(level) == severity(stored),
        LevelFilter::NotEqual(stored) => severity(level) != severity(stored),
        LevelFilter::MoreSevere(stored) => severity(level) < severity(stored),
        LevelFilter::MoreSevereEqual(stored) => severity(level) <= severity(stored),
        LevelFilter::MoreVerbose(stored) => severity(level) > severity(stored),
        LevelFilter::MoreVerboseEqual(stored) => severity(level) >= severity(stored),
        LevelFilter::All => true,
    }
}

impl LevelFilter {
    /// Decides whether `level` satisfies this filter.
    pub fn test(&self, level: Level) -> (r: bool)
        ensures
            r == filter_matches(*self, level),
    {
        let rank = level.rank();
        match *self {
            LevelFilter::Off => false,
            LevelFilter::Equal(stored) => rank == stored.rank(),
            LevelFilter::NotEqual(stored) => rank != stored.rank(),
            LevelFilter::MoreSevere(stored) => rank < stored.rank(),
            LevelFilter::MoreSevereEqual(stored) => rank <= stored.rank(),
            LevelFilter::MoreVerbose(stored) => rank > stored.rank(),
            LevelFilter::MoreVerboseEqual(stored) => rank >= stored.rank(),
            LevelFilter::All => true,
        }
    }
}

/// Decodes a stored word back into the filter it stands for.
///
/// Words that no filter encodes to decode to `Off`.
pub open spec fn filter_of_code(code: u32) -> LevelFilter {
    let tag = code / 8;
    let rank = code % 8;
    if rank >= 6 {
        LevelFilter::Off
    } else {
        let stored = level_of_rank(rank as int);
        match tag {
            0 => LevelFilter::Off,
            1 => LevelFilter::Equal(stored),
            2 => LevelFilter::NotEqual(stored),
            3 => LevelFilter::MoreSevere(stored),
            4 => LevelFilter::MoreSevereEqual(stored),
            5 => LevelFilter::MoreVerbose(stored),
            6 => LevelFilter::MoreVerboseEqual(stored),
            7 => LevelFilter::All,
            _ => LevelFilter::Off,
        }
    }
}

/// The level of a given rank; ranks outside the range fall back to `Trace`.
pub open spec fn level_of_rank(rank: int) -> Level {
    if rank == 0 {
        Level::Critical
    } else if rank == 1 {
        Level::Error
    } else if rank == 2 {
        Level::Warn
    } else if rank == 3 {
        Level::Info
    } else if rank == 4 {
        Level::Debug
    } else {
        Level::Trace
    }
}

impl LevelFilter {
    /// Encodes this filter as a word, so that it can live in an atomic cell.
    pub fn to_code(self) -> (code: u32)
        ensures
            filter_of_code(code) == self,
    {
        let (tag, stored): (u32, Level) = match self {
            LevelFilter::Off => (0, Level::Critical),
            LevelFilter::Equal(stored) => (1, stored),
            LevelFilter::NotEqual(stored) => (2, stored),
            LevelFilter::MoreSevere(stored) => (3, stored),
            LevelFilter::MoreSevereEqual(stored) => (4, stored),
            LevelFilter::MoreVerbose(stored) => (5, stored),
            LevelFilter::MoreVerboseEqual(stored) => (6, stored),
            LevelFilter::All => (7, Level::Critical),
        };
        tag * 8 + stored.rank()
    }

    /// Decodes a word stored by [`LevelFilter::to_code`].
    pub fn from_code(code: u32) -> (filter: LevelFilter)
        ensures
            filter == filter_of_code(code),
    {
        let tag = code / 8;
        let rank = code % 8;
        if rank >= 6 {
            LevelFilter::Off
        } else {
            let stored = if rank == 0 {
                Level::Critical
            } else if rank == 1 {
                Level::Error
            } else if rank == 2 {
                Level::Warn
            } else if rank == 3 {
                Level::Info
            } else if rank == 4 {
                Level::Debug
            } else {
                Level::Trace
            };
            match tag {
                0 => LevelFilter::Off,
                1 => LevelFilter::Equal(stored),
                2 => LevelFilter::NotEqual(stored),
                3 => LevelFilter::MoreSevere(stored),
                4 => LevelFilter::MoreSevereEqual(stored),
                5 => LevelFilter::MoreVerbose(stored),
                6 => LevelFilter::MoreVerboseEqual(stored),
                7 => LevelFilter::All,
                _ => LevelFilter::Off,
            }
        }
    }
}

} // verus!
