//! The command-line surface: the flags of one run.

use vstd::prelude::*;
use vstd::string::*;
use crate::text::same_text;

verus! {

/// The flags of one run.
#[derive(Clone, Copy, Debug, PartialEq, Eq)]
pub struct CliFlags {
    /// Report what would be backed up without writing data.
    pub dry_run: bool,
    /// Log at debug level and ask the wrapped tool to be verbose.
    pub verbose: bool,
}

/// One of the arguments is the flag, in its long or its short form.
pub open spec fn has_flag(args: Seq<Seq<char>>, long: Seq<char>, short: Seq<char>) -> bool {
    exists|i: int| 0 <= i < args.len() && (#[trigger] args[i] == long || args[i] == short)
}

/// The flags that the process arguments `args` ask for.
pub open spec fn flags_of(args: Seq<Seq<char>>) -> CliFlags {
    CliFlags {
        dry_run: has_flag(args, "--dry-run"@, "-n"@),
        verbose: has_flag(args, "--verbose"@, "-v"@),
    }
}

fn find_flag(args: &Vec<String>, long: &str, short: &str) -> (found: bool)
    ensures
        found == has_flag(args.deep_view(), long@, short@),
{
    let mut i: usize = 0;
    while i < args.len()
        invariant
            i <= args.len(),
            forall|k: int|
                0 <= k < i ==> !(#[trigger] args.deep_view()[k] == long@ || args.deep_view()[k]
                    == short@),
        decreases args.len() - i,
    {
        let arg = args[i].as_str();
        if same_text(arg, long) || same_text(arg, short) {
            assert(args.deep_view()[i as int] == long@ || args.deep_view()[i as int] == short@);
            return true;
        }
        i += 1;
    }
    false
}

/// Reads the flags from the process arguments: `--dry-run` or `-n`, and
/// `--verbose` or `-v`, anywhere among them. Everything else is ignored.
pub fn parse_flags(args: &Vec<String>) -> (flags: CliFlags)
    ensures
        flags == flags_of(args.deep_view()),
{
    CliFlags {
        dry_run: find_flag(args, "--dry-run", "-n"),
        verbose: find_flag(args, "--verbose", "-v"),
    }
}

/// The level at which the operational log is written.
pub fn log_level(verbose: bool) -> (level: &'static str)
    ensures
        level@ == (if verbose {
            "debug"@
        } else {
            "info"@
        }),
{
    if verbose {
        "debug"
    } else {
        "info"
    }
}

} // verus!
