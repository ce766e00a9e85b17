//! The command that runs the tests of a contract off-chain.

use vstd::prelude::*;
use vstd::utf8::{decode_utf8, valid_utf8};
use crate::error::CommandError;
use crate::options::{Verbosity, VerbosityFlags};
use crate::text::string_from_utf8;

verus! {

/// Executes smart-contract tests off-chain by delegating to `cargo test`.
#[derive(Debug)]
pub struct TestCommand {
    /// Path to the `Cargo.toml` of the contract to test.
    pub manifest_path: Option<String>,
    pub verbosity: VerbosityFlags,
}

/// The run of `cargo` that a test command asks for.
#[derive(Debug)]
pub struct TestInvocation {
    /// The manifest of the contract, where one was named.
    pub manifest_path: Option<String>,
    /// The subcommand of `cargo`.
    pub command: String,
    /// The arguments behind the subcommand.
    pub arguments: Vec<String>,
    /// How much is said while the tests run.
    pub verbosity: Verbosity,
}

/// Describes the run of `cargo test` on the contract of the manifest, the one
/// of the current directory where none is named.
pub fn execute(manifest_path: Option<String>, verbosity: Verbosity) -> (invocation:
    TestInvocation)
    ensures
        invocation.manifest_path == manifest_path,
        invocation.verbosity == verbosity,
        invocation.command@ == "test"@,
        invocation.arguments@.len() == 1,
        invocation.arguments@[0]@ == ""@,
{
    let mut arguments: Vec<String> = Vec::new();
    arguments.push("".to_owned());
    TestInvocation { manifest_path, command: "test".to_owned(), arguments, verbosity }
}

impl TestCommand {
    /// Describes the run of the tests. A command with both verbosity flags
    /// set is refused.
    pub fn exec(&self) -> (res: Result<TestInvocation, CommandError>)
        ensures
            res is Err <==> self.verbosity.quiet && self.verbosity.verbose,
            res matches Err(error) ==> error == CommandError::QuietAndVerbose,
            res matches Ok(invocation) ==> {
                &&& Ok::<Verbosity, CommandError>(invocation.verbosity)
                    == Verbosity::try_from_flags_spec(self.verbosity)
                &&& invocation.command@ == "test"@
                &&& invocation.arguments@.len() == 1
                &&& invocation.arguments@[0]@ == ""@
                &&& match (invocation.manifest_path, self.manifest_path) {
                    (Some(given), Some(asked)) => given@ == asked@,
                    (None, None) => true,
                    _ => false,
                }
            },
    {
        let verbosity = match Verbosity::try_from_flags(&self.verbosity) {
            Ok(verbosity) => verbosity,
            Err(error) => {
                return Err(error);
            },
        };
        let manifest_path = match &self.manifest_path {
            Some(path) => Some(path.clone()),
            None => None,
        };
        Ok(execute(manifest_path, verbosity))
    }
}

/// Result of the test runs.
#[derive(Debug)]
pub struct TestResult {
    /// The `cargo +nightly test` child process standard output stream buffer.
    pub stdout: Vec<u8>,
    /// The verbosity flags.
    pub verbosity: Verbosity,
}

impl TestResult {
    /// What the tests printed, as text. Output that is not UTF-8 is refused.
    pub fn display(&self) -> (res: Result<String, CommandError>)
        ensures
            match res {
                Ok(text) => valid_utf8(self.stdout@) && text@ == decode_utf8(self.stdout@),
                Err(error) => !valid_utf8(self.stdout@) && error == CommandError::OutputNotUtf8,
            },
    {
        match string_from_utf8(self.stdout.clone()) {
            Some(text) => Ok(text),
            None => Err(CommandError::OutputNotUtf8),
        }
    }
}

} // verus!
