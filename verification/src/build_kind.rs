//! What a script is built for.
use vstd::prelude::*;

verus! {

/// What a script is built for.
#[derive(Clone, Copy, Debug, PartialEq, Eq, Structural)]
pub enum BuildKind {
    /// To be run.
    Normal,
    /// To run its tests.
    Test,
    /// To run its benchmarks.
    Bench,
}

impl BuildKind {
    /// Whether the executable that comes of the build is run directly.
    pub fn can_exec_directly(self) -> (r: bool)
        ensures
            r == (self == BuildKind::Normal),
    {
        match self {
            BuildKind::Normal => true,
            BuildKind::Test | BuildKind::Bench => false,
        }
    }

    /// The Cargo subcommand that runs what is not run directly.
    pub open spec fn command(self) -> Seq<char> {
        if self == BuildKind::Test {
            "test"@
        } else {
            "bench"@
        }
    }

    /// The Cargo subcommand that runs what is not run directly.
    pub fn exec_command(self) -> (r: &'static str)
        requires
            self != BuildKind::Normal,
        ensures
            r@ == self.command(),
    {
        match self {
            BuildKind::Bench => "bench",
            _ => "test",
        }
    }

    /// The kind that the two flags ask for.
    pub open spec fn of_flags(test: bool, bench: bool) -> BuildKind {
        if test {
            BuildKind::Test
        } else if bench {
            BuildKind::Bench
        } else {
            BuildKind::Normal
        }
    }

    /// The kind that the two flags ask for, of which at most one is given.
    pub fn from_flags(test: bool, bench: bool) -> (r: Self)
        requires
            !(test && bench),
        ensures
            r == BuildKind::of_flags(test, bench),
    {
        match (test, bench) {
            (false, false) => BuildKind::Normal,
            (true, _) => BuildKind::Test,
            (false, true) => BuildKind::Bench,
        }
    }
}

} // verus!
