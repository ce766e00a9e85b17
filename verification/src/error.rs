//! The ways in which building a component fails.

use vstd::prelude::*;
use crate::text::{decimal, signed_decimal, to_decimal, to_signed_decimal};

verus! {

/// The files that the build of a component reads and writes.
#[derive(Clone, Copy, Debug, PartialEq, Eq, Structural)]
pub enum ArtifactFile {
    /// The manifest that is amended for the cross-compilation.
    AmendedManifest,
    /// The artifact that the cross-compilation leaves.
    Original,
    /// The text of the inline contract.
    InlineSource,
    /// The finished artifact.
    Destination,
    /// The output of the optimizer.
    Optimized,
}

impl ArtifactFile {
    /// How the file is called in a message.
    pub open spec fn name_spec(self) -> Seq<char> {
        match self {
            ArtifactFile::AmendedManifest => "the amended manifest"@,
            ArtifactFile::Original => "the original wasm file"@,
            ArtifactFile::InlineSource => "the WAT contract file"@,
            ArtifactFile::Destination => "the destination wasm file"@,
            ArtifactFile::Optimized => "the optimized wasm file"@,
        }
    }

    /// How the file is called in a message.
    pub fn name(&self) -> (text: &'static str)
        ensures
            text@ == self.name_spec(),
    {
        match self {
            ArtifactFile::AmendedManifest => "the amended manifest",
            ArtifactFile::Original => "the original wasm file",
            ArtifactFile::InlineSource => "the WAT contract file",
            ArtifactFile::Destination => "the destination wasm file",
            ArtifactFile::Optimized => "the optimized wasm file",
        }
    }
}

/// Why the build of one component, or of the whole schedule, was given up.
#[derive(Clone, Copy, Debug, PartialEq, Eq, Structural)]
pub enum BuildError {
    /// The project declares no component schedule.
    ScheduleNotDeclared,
    /// The schedule names no component.
    EmptySchedule,
    /// The toolchain is of a channel that cannot build contracts.
    UnsupportedChannel { channel: Channel },
    /// The cross-compilation process did not end well: it ended with the
    /// exit status `status`, or without one where it was killed or never ran.
    ToolchainFailed { status: Option<i32> },
    /// The bytes of the compiled artifact are not a binary module.
    MalformedModule,
    /// Dead-code elimination gave up on the module.
    TreeShakingFailed,
    /// The module imports no memory.
    MemoryImportNotFound,
    /// The imported memory asks for more pages than are allowed.
    MemoryCeilingExceeded { requested: u32, allowed: u32 },
    /// The processed module could not be written out as bytes.
    ModuleNotSerializable,
    /// An inline contract holds less than its two delimiter bytes.
    InlineSourceTooShort,
    /// The text-format compiler rejected an inline contract.
    InlineCompilationFailed,
    /// The external optimizer ran and ended with a failure status.
    OptimizerFailed,
    /// The file could not be created, read, written or renamed. Its path is
    /// the one that the layout gives the file for the component.
    Io { file: ArtifactFile },
    /// An event was reported that the build had not asked for.
    OutOfTurn,
}

impl BuildError {
    /// What the operator is told of the error.
    pub open spec fn message_spec(self) -> Seq<char> {
        match self {
            BuildError::ScheduleNotDeclared =>
                "Failed to read composable metadata. Make sure your Cargo.toml follows the composable metadata format"@,
            BuildError::EmptySchedule =>
                "Empty composable t3rn contracts schedule. Didn't compile anything."@,
            BuildError::UnsupportedChannel { channel } => channel.refusal_spec(),
            BuildError::ToolchainFailed { status } => match status {
                Some(code) => "xbuild failed with status exit status: "@ + signed_decimal(
                    code as int,
                ),
                None => "xbuild failed without an exit status"@,
            },
            BuildError::MalformedModule => "Loading original wasm file failed"@,
            BuildError::TreeShakingFailed => "Optimizer failed"@,
            BuildError::MemoryImportNotFound =>
                "Memory import is not found. Is --import-memory specified in the linker args"@,
            BuildError::MemoryCeilingExceeded { requested, allowed } => "The wasm module requires "@
                + decimal(requested as nat)
                + " pages. The maximum allowed number of pages is "@ + decimal(allowed as nat),
            BuildError::ModuleNotSerializable => "Writing the processed wasm module failed"@,
            BuildError::InlineSourceTooShort =>
                "WAT contract is shorter than its two delimiters"@,
            BuildError::InlineCompilationFailed => "WAT contract compilation failed"@,
            BuildError::OptimizerFailed => "wasm-opt optimization failed"@,
            BuildError::Io { file } => "Reading or writing failed: "@ + file.name_spec(),
            BuildError::OutOfTurn => "Build step reported out of turn"@,
        }
    }

    /// What the operator is told of the error. A memory above the ceiling is
    /// reported with the pages asked for and the pages allowed.
    pub fn message(&self) -> (text: String)
        ensures
            text@ == self.message_spec(),
    {
        match self {
            BuildError::ScheduleNotDeclared => {
                "Failed to read composable metadata. Make sure your Cargo.toml follows the composable metadata format".to_owned()
            },
            BuildError::EmptySchedule => {
                "Empty composable t3rn contracts schedule. Didn't compile anything.".to_owned()
            },
            BuildError::UnsupportedChannel { channel } => channel.refusal(),
            BuildError::ToolchainFailed { status } => match status {
                Some(code) => "xbuild failed with status exit status: ".to_owned().concat(
                    to_signed_decimal(*code).as_str(),
                ),
                None => "xbuild failed without an exit status".to_owned(),
            },
            BuildError::MalformedModule => "Loading original wasm file failed".to_owned(),
            BuildError::TreeShakingFailed => "Optimizer failed".to_owned(),
            BuildError::MemoryImportNotFound => {
                "Memory import is not found. Is --import-memory specified in the linker args".to_owned()
            },
            BuildError::MemoryCeilingExceeded { requested, allowed } => {
                let text = "The wasm module requires ".to_owned();
                let text = text.concat(to_decimal(*requested).as_str());
                let text = text.concat(" pages. The maximum allowed number of pages is ");
                text.concat(to_decimal(*allowed).as_str())
            },
            BuildError::ModuleNotSerializable => {
                "Writing the processed wasm module failed".to_owned()
            },
            BuildError::InlineSourceTooShort => {
                "WAT contract is shorter than its two delimiters".to_owned()
            },
            BuildError::InlineCompilationFailed => "WAT contract compilation failed".to_owned(),
            BuildError::OptimizerFailed => "wasm-opt optimization failed".to_owned(),
            BuildError::Io { file } => "Reading or writing failed: ".to_owned().concat(
                file.name(),
            ),
            BuildError::OutOfTurn => "Build step reported out of turn".to_owned(),
        }
    }
}

/// Why the description of a project could not be put together.
#[derive(Clone, Copy, Debug, PartialEq, Eq, Structural)]
pub enum MetadataError {
    /// None of the packages of the project is `ink_lang`.
    NoInkLangDependency,
}

impl MetadataError {
    /// What the operator is told of the error.
    pub fn message(&self) -> (text: String)
        ensures
            text@ == "No 'ink_lang' dependency found"@,
    {
        "No 'ink_lang' dependency found".to_owned()
    }
}

/// The release channel of a toolchain.
#[derive(Clone, Copy, Debug, PartialEq, Eq, Structural)]
pub enum Channel {
    Dev,
    Nightly,
    Beta,
    Stable,
}

impl Channel {
    /// What the operator is told of a toolchain of this channel that was
    /// asked to build.
    pub open spec fn refusal_spec(self) -> Seq<char> {
        match self {
            Channel::Beta =>
                "cargo-contract cannot build using the \"beta\" channel. Switch to nightly."@,
            _ => "cargo-contract cannot build using the \"stable\" channel. Switch to nightly."@,
        }
    }

    /// What the operator is told of a toolchain of this channel that was
    /// asked to build.
    pub fn refusal(&self) -> (text: String)
        ensures
            text@ == self.refusal_spec(),
    {
        match self {
            Channel::Beta => {
                "cargo-contract cannot build using the \"beta\" channel. Switch to nightly.".to_owned()
            },
            _ => {
                "cargo-contract cannot build using the \"stable\" channel. Switch to nightly.".to_owned()
            },
        }
    }
}

/// Why a command was refused before anything ran.
#[derive(Clone, Copy, Debug, PartialEq, Eq, Structural)]
pub enum CommandError {
    /// Both `--quiet` and `--verbose` were passed.
    QuietAndVerbose,
    /// An unstable option was passed that the build does not know.
    UnknownUnstableOption,
    /// What the tests printed is not UTF-8.
    OutputNotUtf8,
    /// The toolchain is of a channel that cannot build contracts.
    UnsupportedChannel { channel: Channel },
}

impl CommandError {
    /// What the operator is told of the error.
    pub open spec fn message_spec(self) -> Seq<char> {
        match self {
            CommandError::QuietAndVerbose => "Cannot pass both --quiet and --verbose flags"@,
            CommandError::UnknownUnstableOption => "Unknown unstable-options"@,
            CommandError::OutputNotUtf8 => "invalid utf-8 sequence in the output of the tests"@,
            CommandError::UnsupportedChannel { channel } => channel.refusal_spec(),
        }
    }

    /// What the operator is told of the error.
    pub fn message(&self) -> (text: String)
        ensures
            text@ == self.message_spec(),
    {
        match self {
            CommandError::QuietAndVerbose => {
                "Cannot pass both --quiet and --verbose flags".to_owned()
            },
            CommandError::UnknownUnstableOption => "Unknown unstable-options".to_owned(),
            CommandError::OutputNotUtf8 => {
                "invalid utf-8 sequence in the output of the tests".to_owned()
            },
            CommandError::UnsupportedChannel { channel } => channel.refusal(),
        }
    }
}

} // verus!
