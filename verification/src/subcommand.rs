//! Classification of the build tool's subcommand verb into a closed set of
//! known subcommands, each carrying fixed capability predicates.

use vstd::prelude::*;

use crate::strings::str_eq;

verus! {

/// The build-tool verb requested by the user. Unrecognized verbs map to
/// `Other`, which opts out of isolation entirely.
#[derive(Debug, Clone, Copy, PartialEq, Eq, Structural)]
pub enum Subcommand {
    Build,
    Check,
    Doc,
    Other,
    Run,
    Rustc,
    Test,
    Bench,
    Deb,
    Clippy,
    Metadata,
}

/// What a verb string classifies to: exact-match lookup including the short
/// aliases, with `Other` as the total catch-all.
pub open spec fn classify_spec(s: Seq<char>) -> Subcommand {
    if s == "b"@ || s == "build"@ {
        Subcommand::Build
    } else if s == "c"@ || s == "check"@ {
        Subcommand::Check
    } else if s == "doc"@ {
        Subcommand::Doc
    } else if s == "r"@ || s == "run"@ {
        Subcommand::Run
    } else if s == "rustc"@ {
        Subcommand::Rustc
    } else if s == "t"@ || s == "test"@ {
        Subcommand::Test
    } else if s == "bench"@ {
        Subcommand::Bench
    } else if s == "deb"@ {
        Subcommand::Deb
    } else if s == "clippy"@ {
        Subcommand::Clippy
    } else if s == "metadata"@ {
        Subcommand::Metadata
    } else {
        Subcommand::Other
    }
}

impl Subcommand {
    /// Total classification of a verb string; never fails, unknown verbs
    /// become `Other`.
    pub fn classify(s: &str) -> (r: Subcommand)
        ensures
            r == classify_spec(s@),
    {
        if str_eq(s, "b") || str_eq(s, "build") {
            Subcommand::Build
        } else if str_eq(s, "c") || str_eq(s, "check") {
            Subcommand::Check
        } else if str_eq(s, "doc") {
            Subcommand::Doc
        } else if str_eq(s, "r") || str_eq(s, "run") {
            Subcommand::Run
        } else if str_eq(s, "rustc") {
            Subcommand::Rustc
        } else if str_eq(s, "t") || str_eq(s, "test") {
            Subcommand::Test
        } else if str_eq(s, "bench") {
            Subcommand::Bench
        } else if str_eq(s, "deb") {
            Subcommand::Deb
        } else if str_eq(s, "clippy") {
            Subcommand::Clippy
        } else if str_eq(s, "metadata") {
            Subcommand::Metadata
        } else {
            Subcommand::Other
        }
    }

    /// Every known subcommand runs under isolation; only unrecognized verbs
    /// opt out.
    pub fn needs_docker(self) -> (r: bool)
        ensures
            r == !(self is Other),
    {
        !matches!(self, Subcommand::Other)
    }

    /// Only the verbs that execute produced binaries need emulation support.
    pub fn needs_interpreter(self) -> (r: bool)
        ensures
            r == (self is Run || self is Test || self is Bench),
    {
        matches!(self, Subcommand::Run | Subcommand::Test | Subcommand::Bench)
    }

    /// Every verb but the workspace-wide metadata query wants a target flag
    /// in the forwarded command line.
    pub fn needs_target_in_command(self) -> (r: bool)
        ensures
            r == !(self is Metadata),
    {
        !matches!(self, Subcommand::Metadata)
    }
}

impl<'a> From<&'a str> for Subcommand {
    fn from(s: &'a str) -> (r: Subcommand)
        ensures
            r == classify_spec(s@),
    {
        Subcommand::classify(s)
    }
}

impl<'a> vstd::std_specs::convert::FromSpecImpl<&'a str> for Subcommand {
    open spec fn obeys_from_spec() -> bool {
        true
    }

    open spec fn from_spec(s: &'a str) -> Subcommand {
        classify_spec(s@)
    }
}

/// Every short alias classifies to the same variant as its canonical
/// spelling, and the catch-all is reached exactly by the unlisted verbs.
pub proof fn lemma_classify_aliases()
    ensures
        classify_spec("b"@) == classify_spec("build"@),
        classify_spec("c"@) == classify_spec("check"@),
        classify_spec("r"@) == classify_spec("run"@),
        classify_spec("t"@) == classify_spec("test"@),
{
    reveal_strlit("b");
    reveal_strlit("build");
    reveal_strlit("c");
    reveal_strlit("check");
    reveal_strlit("doc");
    reveal_strlit("r");
    reveal_strlit("run");
    reveal_strlit("rustc");
    reveal_strlit("t");
    reveal_strlit("test");
    reveal_strlit("bench");
    reveal_strlit("deb");
    reveal_strlit("clippy");
    reveal_strlit("metadata");
    assert("c"@[0] == 'c' && "b"@[0] == 'b');
    assert("check"@.len() == 5 && "build"@.len() == 5);
    assert("check"@[0] == 'c' && "build"@[0] == 'b');
    assert("r"@[0] == 'r');
    assert("run"@.len() == 3 && "doc"@.len() == 3);
    assert("run"@[0] == 'r' && "doc"@[0] == 'd');
    assert("t"@[0] == 't');
    assert("test"@.len() == 4 && "test"@[0] == 't');
    assert("rustc"@.len() == 5 && "rustc"@[1] == 'u' && "check"@[1] == 'h');
}

} // verus!
