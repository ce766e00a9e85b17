//! The options that the commands take.

use vstd::prelude::*;
use crate::error::CommandError;

verus! {

/// The two flags by which a caller asks for less or for more output.
#[derive(Default, Clone, Copy, Debug, PartialEq, Eq, Structural)]
pub struct VerbosityFlags {
    /// No output printed to stdout
    pub quiet: bool,
    /// Use verbose output
    pub verbose: bool,
}

/// Denotes if output should be printed to stdout.
#[derive(Clone, Copy, Debug, PartialEq, Eq, Structural)]
pub enum Verbosity {
    /// Use default output
    Default,
    /// No output printed to stdout
    Quiet,
    /// Use verbose output
    Verbose,
}

impl Verbosity {
    /// Whether output should be printed: always, but where quiet was asked for.
    pub fn is_verbose(&self) -> (res: bool)
        ensures
            res == (*self != Verbosity::Quiet),
    {
        match self {
            Verbosity::Quiet => false,
            Verbosity::Default | Verbosity::Verbose => true,
        }
    }

    /// The verbosity that the flags ask for.
    pub open spec fn try_from_flags_spec(flags: VerbosityFlags) -> Result<Verbosity, CommandError> {
        if flags.quiet && flags.verbose {
            Err(CommandError::QuietAndVerbose)
        } else if flags.quiet {
            Ok(Verbosity::Quiet)
        } else if flags.verbose {
            Ok(Verbosity::Verbose)
        } else {
            Ok(Verbosity::Default)
        }
    }

    /// The verbosity that the flags ask for. Both flags at once are refused.
    pub fn try_from_flags(flags: &VerbosityFlags) -> (res: Result<Verbosity, CommandError>)
        ensures
            res == Self::try_from_flags_spec(*flags),
    {
        match (flags.quiet, flags.verbose) {
            (false, false) => Ok(Verbosity::Default),
            (true, false) => Ok(Verbosity::Quiet),
            (false, true) => Ok(Verbosity::Verbose),
            (true, true) => Err(CommandError::QuietAndVerbose),
        }
    }
}

/// The unstable options that a build honours.
#[derive(Default, Clone, Copy, Debug, PartialEq, Eq, Structural)]
pub struct UnstableFlags {
    /// Build with the manifest as it is, without amending it for size.
    pub original_manifest: bool,
}

/// The one unstable option that is known.
pub open spec fn original_manifest_option() -> Seq<char> {
    "original-manifest"@
}

impl UnstableFlags {
    /// The flags that the unstable options set. An option that is not known
    /// is refused; the known one may be given more than once.
    pub fn try_from_options(options: &Vec<String>) -> (res: Result<UnstableFlags, CommandError>)
        ensures
            res == (if exists|i: int|
                0 <= i < options@.len() && (#[trigger] options@[i])@
                    != original_manifest_option() {
                Err::<UnstableFlags, CommandError>(CommandError::UnknownUnstableOption)
            } else {
                Ok(UnstableFlags { original_manifest: options@.len() > 0 })
            }),
    {
        let known = "original-manifest".to_owned();
        let mut i: usize = 0;
        while i < options.len()
            invariant
                i <= options.len(),
                known@ == original_manifest_option(),
                forall|j: int| 0 <= j < i ==> (#[trigger] options@[j])@
                    == original_manifest_option(),
            decreases options.len() - i,
        {
            if options[i] != known {
                return Err(CommandError::UnknownUnstableOption);
            }
            i += 1;
        }
        Ok(UnstableFlags { original_manifest: options.len() > 0 })
    }
}

} // verus!
