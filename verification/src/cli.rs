//! The arguments of the command line, as plain values.

pub mod format;
pub mod lint;
pub mod query;

use vstd::prelude::*;

verus! {

/// The arguments of a run.
pub struct Args {
    /// How often the flag for more output was given.
    pub verbose: u8,
    /// How often the flag for more output, expanded, was given.
    pub verbose_expanded: u8,
    pub command: Command,
}

/// What a run does.
pub enum Command {
    /// Format code.
    Format(format::Args),
    /// Lint code.
    Lint(lint::Args),
    /// Query Haskell code.
    Query(query::Args),
}

/// How an event of the log is laid out.
#[derive(Clone, Copy, PartialEq, Eq, Structural, Debug)]
pub enum EventFormat {
    Compact,
    Pretty,
}

/// How a run logs.
pub struct Logging {
    pub format: EventFormat,
    /// The filter that applies where the environment sets none.
    pub filter: &'static str,
    /// More output was asked for than there is.
    pub over_max: bool,
}

/// The filter of a verbosity: warnings, and this program's information, at
/// level zero; one step more with each level up to three.
pub open spec fn filter_of(level: int) -> Seq<char> {
    if level == 0 {
        "warn,be=info"@
    } else if level == 1 {
        "info,be=debug"@
    } else if level == 2 {
        "info,be=trace"@
    } else {
        "trace"@
    }
}

/// How a run logs, for how often each of the two flags was given: expanded
/// events where the expanded flag was given, and the filter of the
/// verbosity, to which both flags count.
pub fn logging(verbose: u8, verbose_expanded: u8) -> (logging: Logging)
    ensures
        logging.format == if verbose_expanded == 0 {
            EventFormat::Compact
        } else {
            EventFormat::Pretty
        },
        logging.filter@ == filter_of(verbose + verbose_expanded),
        logging.over_max == (verbose + verbose_expanded > 3),
{
    let format = if verbose_expanded == 0 {
        EventFormat::Compact
    } else {
        EventFormat::Pretty
    };
    let level: u16 = verbose as u16 + verbose_expanded as u16;
    let filter: &'static str = if level == 0 {
        "warn,be=info"
    } else if level == 1 {
        "info,be=debug"
    } else if level == 2 {
        "info,be=trace"
    } else {
        "trace"
    };
    Logging { format, filter, over_max: level > 3 }
}

impl Args {
    /// The verbosity: both flags count.
    pub open spec fn level(&self) -> int {
        self.verbose + self.verbose_expanded
    }

    /// How the run logs.
    pub fn logging(&self) -> (logging: Logging)
        ensures
            logging.format == if self.verbose_expanded == 0 {
                EventFormat::Compact
            } else {
                EventFormat::Pretty
            },
            logging.filter@ == filter_of(self.level()),
            logging.over_max == (self.level() > 3),
    {
        self::logging(self.verbose, self.verbose_expanded)
    }
}

} // verus!
