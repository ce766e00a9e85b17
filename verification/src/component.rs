//! What building one component asks of the outside world: where its
//! artifacts lie, how the project is cross-compiled for it, how an inline
//! contract is compiled, and how the optimizer is run.

use vstd::prelude::*;
use crate::error::{ArtifactFile, BuildError};
use crate::metadata::{target_triple, CrateMetadata};
use crate::options::{UnstableFlags, Verbosity};
use crate::paths::{OutputPath, OutputPathView};
use crate::scanner::{module_text_of, WatContract};
use crate::text::joined;

verus! {

/// The directory in which one component is built: the directory of that name
/// below the target directory.
pub fn get_compose_target_dest(compose: String, target_dir: OutputPath) -> (path: OutputPath)
    ensures
        path@ == (OutputPathView {
            root: target_dir@.root,
            components: target_dir@.components.push(compose@),
        }),
{
    target_dir.join(compose)
}

/// The path of the artifact that cross-compilation leaves for a component,
/// before any processing: in the component's own directory, below the target
/// triple and the release profile, under the name of the package.
pub fn get_original_wasm_path(compose: String, crate_metadata: &CrateMetadata) -> (path:
    OutputPath)
    ensures
        path@ == (OutputPathView {
            root: crate_metadata.target_directory@.root,
            components: crate_metadata.target_directory@.components + seq![
                compose@,
                target_triple(),
                "release"@,
                crate_metadata.package_name@ + ".wasm"@,
            ],
        }),
{
    let path = get_compose_target_dest(compose, crate_metadata.target_directory.clone()).join(
        "wasm32-unknown-unknown".to_owned(),
    ).join("release".to_owned()).join(joined(crate_metadata.package_name.as_str(), ".wasm"));
    assert(path@.components =~= crate_metadata.target_directory@.components + seq![
        compose@,
        target_triple(),
        "release"@,
        crate_metadata.package_name@ + ".wasm"@,
    ]);
    path
}

/// The file in the target directory that is named after the component and
/// ends in `extension`.
fn component_file(compose: &str, extension: &str, crate_metadata: &CrateMetadata) -> (path:
    OutputPath)
    ensures
        path@ == (OutputPathView {
            root: crate_metadata.target_directory@.root,
            components: crate_metadata.target_directory@.components.push(compose@ + extension@),
        }),
{
    crate_metadata.target_directory.clone().join(joined(compose, extension))
}

/// The path of the finished artifact of a component: the file in the target
/// directory that is named after it.
pub fn get_dest_wasm_path(compose: String, crate_metadata: &CrateMetadata) -> (path: OutputPath)
    ensures
        path@ == (OutputPathView {
            root: crate_metadata.target_directory@.root,
            components: crate_metadata.target_directory@.components.push(compose@ + ".wasm"@),
        }),
{
    component_file(compose.as_str(), ".wasm", crate_metadata)
}

/// The path to which the optimizer writes, beside the finished artifact.
pub fn get_optimized_wasm_path(compose: String, crate_metadata: &CrateMetadata) -> (path:
    OutputPath)
    ensures
        path@ == (OutputPathView {
            root: crate_metadata.target_directory@.root,
            components: crate_metadata.target_directory@.components.push(
                compose@ + "-opt.wasm"@,
            ),
        }),
{
    component_file(compose.as_str(), "-opt.wasm", crate_metadata)
}

/// The path at which the text of an inline contract is kept, beside the
/// finished artifact.
pub fn get_inline_source_path(compose: String, crate_metadata: &CrateMetadata) -> (path:
    OutputPath)
    ensures
        path@ == (OutputPathView {
            root: crate_metadata.target_directory@.root,
            components: crate_metadata.target_directory@.components.push(compose@ + ".wat"@),
        }),
{
    component_file(compose.as_str(), ".wat", crate_metadata)
}

/// The path at which the amended copy of the manifest is kept while the
/// project is cross-compiled for a component: in a directory of its own in
/// the directory of the component.
pub fn get_amended_manifest_path(compose: String, crate_metadata: &CrateMetadata) -> (path:
    OutputPath)
    ensures
        path@ == (OutputPathView {
            root: crate_metadata.target_directory@.root,
            components: crate_metadata.target_directory@.components + seq![
                compose@,
                "manifest"@,
                "Cargo.toml"@,
            ],
        }),
{
    let path = get_compose_target_dest(compose, crate_metadata.target_directory.clone()).join(
        "manifest".to_owned(),
    ).join("Cargo.toml".to_owned());
    assert(path@.components =~= crate_metadata.target_directory@.components + seq![
        compose@,
        "manifest"@,
        "Cargo.toml"@,
    ]);
    path
}

/// The path of one of the files that the build of a component reads and
/// writes: the path that an error on the file speaks of.
pub fn artifact_path(file: ArtifactFile, compose: String, crate_metadata: &CrateMetadata) -> (path:
    OutputPath)
    ensures
        path@.root == crate_metadata.target_directory@.root,
        path@.components == crate_metadata.target_directory@.components + match file {
            ArtifactFile::AmendedManifest => seq![compose@, "manifest"@, "Cargo.toml"@],
            ArtifactFile::Original => seq![
                compose@,
                target_triple(),
                "release"@,
                crate_metadata.package_name@ + ".wasm"@,
            ],
            ArtifactFile::InlineSource => seq![compose@ + ".wat"@],
            ArtifactFile::Destination => seq![compose@ + ".wasm"@],
            ArtifactFile::Optimized => seq![compose@ + "-opt.wasm"@],
        },
{
    let ghost base = crate_metadata.target_directory@.components;
    match file {
        ArtifactFile::AmendedManifest => get_amended_manifest_path(compose, crate_metadata),
        ArtifactFile::Original => get_original_wasm_path(compose, crate_metadata),
        ArtifactFile::InlineSource => {
            assert(base.push(compose@ + ".wat"@) =~= base + seq![compose@ + ".wat"@]);
            get_inline_source_path(compose, crate_metadata)
        },
        ArtifactFile::Destination => {
            assert(base.push(compose@ + ".wasm"@) =~= base + seq![compose@ + ".wasm"@]);
            get_dest_wasm_path(compose, crate_metadata)
        },
        ArtifactFile::Optimized => {
            assert(base.push(compose@ + "-opt.wasm"@) =~= base + seq![compose@ + "-opt.wasm"@]);
            get_optimized_wasm_path(compose, crate_metadata)
        },
    }
}

/// Which manifest the project is compiled with.
#[derive(Clone, Copy, Debug, PartialEq, Eq, Structural)]
pub enum ManifestChoice {
    /// The manifest as the project has it. The artifact may then not be of
    /// optimal size, of which the caller is warned.
    Original,
    /// A temporary copy of the manifest without the `rlib` crate type and
    /// with the release profile's defaults for size, where the project sets
    /// none of its own.
    Amended,
}

/// How the project is cross-compiled for one component.
#[derive(Debug)]
pub struct CrossCompileRequest {
    /// The linker flags, to be in force while the compilation runs and no
    /// longer: a small fixed stack, and memory that is imported.
    pub rustflags: String,
    /// The target to compile for.
    pub target: String,
    /// The manifest to compile with.
    pub manifest: ManifestChoice,
    /// The arguments to the build, but for the target directory.
    pub arguments: Vec<String>,
    /// The target directory, which is the component's own.
    pub target_dir: OutputPath,
    /// Where the sysroot is built.
    pub sysroot_path: OutputPath,
    /// Whether `memcpy` is compiled in.
    pub memcpy: bool,
    /// Whether a panic aborts at once.
    pub panic_immediate_abort: bool,
    /// How much the build says.
    pub verbosity: Option<Verbosity>,
}

/// Describes the cross-compilation of the project for one component.
///
/// The component is selected by the feature of its name, with the default
/// features off, and is built for release in a directory of its own. The
/// project's manifest is amended for size unless the caller asked for the
/// original. The sysroot is shared by the components.
pub fn build_cargo_project_compose(
    crate_metadata: &CrateMetadata,
    current_compose_name: String,
    verbosity: Option<Verbosity>,
    unstable_options: UnstableFlags,
) -> (request: CrossCompileRequest)
    ensures
        request.rustflags@
            == "-C link-arg=-z -C link-arg=stack-size=65536 -C link-arg=--import-memory"@,
        request.target@ == target_triple(),
        request.manifest == (if unstable_options.original_manifest {
            ManifestChoice::Original
        } else {
            ManifestChoice::Amended
        }),
        request.arguments@.len() == 3,
        request.arguments@[0]@ == "--no-default-features"@,
        request.arguments@[1]@ == "--features="@ + current_compose_name@,
        request.arguments@[2]@ == "--release"@,
        request.target_dir@ == (OutputPathView {
            root: crate_metadata.target_directory@.root,
            components: crate_metadata.target_directory@.components.push(current_compose_name@),
        }),
        request.sysroot_path@ == (OutputPathView {
            root: crate_metadata.target_directory@.root,
            components: crate_metadata.target_directory@.components.push("sysroot"@),
        }),
        !request.memcpy,
        request.panic_immediate_abort,
        request.verbosity == verbosity,
{
    let mut arguments: Vec<String> = Vec::new();
    arguments.push("--no-default-features".to_owned());
    arguments.push(joined("--features=", current_compose_name.as_str()));
    arguments.push("--release".to_owned());
    CrossCompileRequest {
        rustflags: "-C link-arg=-z -C link-arg=stack-size=65536 -C link-arg=--import-memory".to_owned(),
        target: "wasm32-unknown-unknown".to_owned(),
        manifest: if unstable_options.original_manifest {
            ManifestChoice::Original
        } else {
            ManifestChoice::Amended
        },
        arguments,
        target_dir: get_compose_target_dest(
            current_compose_name,
            crate_metadata.target_directory.clone(),
        ),
        sysroot_path: crate_metadata.target_directory.clone().join("sysroot".to_owned()),
        memcpy: false,
        panic_immediate_abort: true,
        verbosity,
    }
}

/// How the external optimizer is run on the finished artifact of a component.
#[derive(Debug)]
pub struct OptimizerRequest {
    /// The name under which the optimizer is looked for on the search path.
    pub program: String,
    /// The artifact that it reads, and that its output replaces in the end.
    pub input: OutputPath,
    /// The optimization level that it is run at.
    pub level: String,
    /// The flag that stands before the path that it writes to.
    pub output_flag: String,
    /// The path that it writes to.
    pub output: OutputPath,
}

/// Describes the run of the external optimizer on the finished artifact of a
/// component: `wasm-opt`, at its third level, from the artifact to the path
/// beside it. On its command line stand the artifact, the level, the output
/// flag and the output path, in this order.
pub fn optimize_wasm_compose(crate_metadata: &CrateMetadata, compose: String) -> (request:
    OptimizerRequest)
    ensures
        request.program@ == "wasm-opt"@,
        request.level@ == "-O3"@,
        request.output_flag@ == "-o"@,
        request.input@ == (OutputPathView {
            root: crate_metadata.target_directory@.root,
            components: crate_metadata.target_directory@.components.push(compose@ + ".wasm"@),
        }),
        request.output@ == (OutputPathView {
            root: crate_metadata.target_directory@.root,
            components: crate_metadata.target_directory@.components.push(
                compose@ + "-opt.wasm"@,
            ),
        }),
{
    OptimizerRequest {
        program: "wasm-opt".to_owned(),
        input: component_file(compose.as_str(), ".wasm", crate_metadata),
        level: "-O3".to_owned(),
        output_flag: "-o".to_owned(),
        output: component_file(compose.as_str(), "-opt.wasm", crate_metadata),
    }
}

/// `wat::parse_bytes`: compiles a module in text format to its binary form,
/// or gives `None` where the bytes are refused. Nothing is claimed of what
/// is compiled or refused: the compiler decides it, and not by the bytes
/// alone.
#[verifier::external_body]
fn parse_wat(text: &[u8]) -> (res: Option<Vec<u8>>) {
    wat::parse_bytes(text).ok().map(|binary| binary.into_owned())
}

/// What compiling an inline contract leaves on disk.
#[derive(Debug)]
pub struct InlineBuild {
    /// Where the text of the module is kept.
    pub source_path: OutputPath,
    /// The text of the module.
    pub source: Vec<u8>,
    /// Where the compiled module goes: the finished artifact of the component.
    pub binary_path: OutputPath,
    /// The compiled module.
    pub binary: Vec<u8>,
}

/// What compiling an inline contract leaves on disk, given the text of its
/// module and what the compiler made of that text, `None` standing for a
/// text that it refused.
///
/// A text that compiled goes beside its binary form, which goes where the
/// artifact of a cross-compiled component would go after processing: both
/// are named after the component.
pub fn inline_build_of(
    compose_name: String,
    crate_metadata: &CrateMetadata,
    source: Vec<u8>,
    compiled: Option<Vec<u8>>,
) -> (res: Result<InlineBuild, BuildError>)
    ensures
        match compiled {
            None => res matches Err(error) && error == BuildError::InlineCompilationFailed,
            Some(binary) => {
                &&& res matches Ok(build)
                &&& build.source@ == source@
                &&& build.binary@ == binary@
                &&& build.source_path@ == (OutputPathView {
                    root: crate_metadata.target_directory@.root,
                    components: crate_metadata.target_directory@.components.push(
                        compose_name@ + ".wat"@,
                    ),
                })
                &&& build.binary_path@ == (OutputPathView {
                    root: crate_metadata.target_directory@.root,
                    components: crate_metadata.target_directory@.components.push(
                        compose_name@ + ".wasm"@,
                    ),
                })
            },
        },
{
    match compiled {
        None => Err(BuildError::InlineCompilationFailed),
        Some(binary) => Ok(
            InlineBuild {
                source_path: component_file(compose_name.as_str(), ".wat", crate_metadata),
                source,
                binary_path: component_file(compose_name.as_str(), ".wasm", crate_metadata),
                binary,
            },
        ),
    }
}

/// Compiles an inline contract for the component `compose_name`.
///
/// The module text is the body of the contract without the quote at each end;
/// a body that is shorter than the two quotes holds no text and is refused
/// before anything is compiled. Whether the text compiles is the compiler's
/// to say: where it does, the text and its binary form go to the two paths
/// that are named after the component, and where it does not, the contract
/// is refused.
pub fn compile_wat_to_wasm(
    compose_name: String,
    crate_metadata: &CrateMetadata,
    wat_contract: &WatContract,
) -> (res: Result<InlineBuild, BuildError>)
    ensures
        module_text_of(wat_contract@.code) is None <==> res == Err::<InlineBuild, BuildError>(
            BuildError::InlineSourceTooShort,
        ),
        res matches Err(error) ==> error == BuildError::InlineSourceTooShort || error
            == BuildError::InlineCompilationFailed,
        res matches Ok(build) ==> {
            &&& module_text_of(wat_contract@.code) == Some(build.source@)
            &&& build.source_path@ == (OutputPathView {
                root: crate_metadata.target_directory@.root,
                components: crate_metadata.target_directory@.components.push(
                    compose_name@ + ".wat"@,
                ),
            })
            &&& build.binary_path@ == (OutputPathView {
                root: crate_metadata.target_directory@.root,
                components: crate_metadata.target_directory@.components.push(
                    compose_name@ + ".wasm"@,
                ),
            })
        },
{
    let source = match wat_contract.module_text() {
        Some(source) => source,
        None => {
            return Err(BuildError::InlineSourceTooShort);
        },
    };
    let compiled = parse_wat(source.as_slice());
    inline_build_of(compose_name, crate_metadata, source, compiled)
}

} // verus!
