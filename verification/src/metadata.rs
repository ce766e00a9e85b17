//! What the build reads of a project: its package name, its output
//! directory and the schedule of components that it declares.

use vstd::prelude::*;
use crate::error::MetadataError;
use crate::paths::{OutputPath, OutputPathView};
use crate::text::{chars_of, joined, string_of};

verus! {

/// How one component is deployed.
#[derive(Debug, Clone)]
pub struct ComposableDeployConfig {
    pub compose: String,
    pub vm: String,
    pub url: String,
}

/// How one component is executed.
#[derive(Debug, Clone)]
pub struct ComposableExecConfig {
    pub compose: String,
    pub gateway: String,
    pub url: String,
}

/// The schedule that a project declares in the metadata of its package: the
/// components to build, in order, and what is to be done with them.
#[derive(Debug, Clone)]
pub struct ComposableScheduleMetadata {
    pub composables: Vec<String>,
    pub schedule: Option<String>,
    pub deploy: Option<Vec<ComposableDeployConfig>>,
    pub execution: Option<Vec<ComposableExecConfig>>,
}

/// One package of the project's dependency graph: its name and version, and
/// the schedule that its metadata holds, if they can be read as one.
#[derive(Debug)]
pub struct PackageListing {
    pub name: String,
    pub version: String,
    pub schedule: Option<ComposableScheduleMetadata>,
}

/// Relevant metadata obtained from the manifest of a project.
#[derive(Debug)]
pub struct CrateMetadata {
    pub manifest_path: String,
    pub package_name: String,
    pub t3rn_composable_schedule: Option<ComposableScheduleMetadata>,
    pub original_wasm: OutputPath,
    pub target_directory: OutputPath,
    pub dest_wasm: OutputPath,
    pub ink_version: String,
    pub documentation: Option<String>,
    pub homepage: Option<String>,
}

/// The target that contracts are compiled for.
pub open spec fn target_triple() -> Seq<char> {
    "wasm32-unknown-unknown"@
}

/// A package name with an underscore for each hyphen.
pub open spec fn normalized(name: Seq<char>) -> Seq<char> {
    name.map_values(|c: char| if c == '-' { '_' } else { c })
}

/// Puts an underscore for each hyphen of a package name.
pub fn normalize_package_name(name: &str) -> (res: String)
    ensures
        res@ == normalized(name@),
{
    let chars = chars_of(name);
    let mut out: Vec<char> = Vec::new();
    let mut i: usize = 0;
    while i < chars.len()
        invariant
            i <= chars.len(),
            out@.len() == i,
            forall|j: int| 0 <= j < i ==> out@[j] == (if chars@[j] == '-' { '_' } else { chars@[j] }),
        decreases chars.len() - i,
    {
        out.push(if chars[i] == '-' { '_' } else { chars[i] });
        i += 1;
    }
    assert(out@ =~= normalized(chars@));
    string_of(&out)
}

/// `at` is the first package that is `ink_lang`.
pub open spec fn is_ink_package(packages: Seq<PackageListing>, at: int) -> bool {
    &&& 0 <= at < packages.len()
    &&& packages[at].name@ == "ink_lang"@
    &&& forall|j: int| 0 <= j < at ==> (#[trigger] packages[j]).name@ != "ink_lang"@
}

/// `at` is the last package up to `upto` that goes by `name`.
pub open spec fn is_schedule_package(
    packages: Seq<PackageListing>,
    name: Seq<char>,
    upto: int,
    at: int,
) -> bool {
    &&& 0 <= at <= upto
    &&& packages[at].name@ == name
    &&& forall|j: int| at < j <= upto ==> (#[trigger] packages[j]).name@ != name
}

impl CrateMetadata {
    /// Puts the description of a project together from the name of its root
    /// package, its output directory and the packages of its dependency graph.
    ///
    /// The package name is the root package's, normalized. The packages are
    /// gone through up to the first that is `ink_lang`, whose version is kept;
    /// without one the project is refused. The schedule is that of the last of
    /// them with the package name, where there is one.
    pub fn collect(
        manifest_path: String,
        root_package_name: &str,
        target_directory: String,
        packages: Vec<PackageListing>,
        documentation: Option<String>,
        homepage: Option<String>,
    ) -> (res: Result<CrateMetadata, MetadataError>)
        ensures
            match res {
                Ok(metadata) => {
                    &&& metadata.manifest_path == manifest_path
                    &&& metadata.documentation == documentation
                    &&& metadata.homepage == homepage
                    &&& metadata.package_name@ == normalized(root_package_name@)
                    &&& metadata.target_directory@ == (OutputPathView {
                        root: target_directory@,
                        components: Seq::empty(),
                    })
                    &&& metadata.original_wasm@ == (OutputPathView {
                        root: target_directory@,
                        components: seq![
                            target_triple(),
                            "release"@,
                            normalized(root_package_name@) + ".wasm"@,
                        ],
                    })
                    &&& metadata.dest_wasm@ == (OutputPathView {
                        root: target_directory@,
                        components: seq![normalized(root_package_name@) + ".wasm"@],
                    })
                    &&& exists|ink: int| #[trigger]
                        is_ink_package(packages@, ink) && {
                            &&& metadata.ink_version@ == packages@[ink].version@
                            &&& match metadata.t3rn_composable_schedule {
                                Some(schedule) => exists|at: int| #[trigger]
                                    is_schedule_package(
                                        packages@,
                                        normalized(root_package_name@),
                                        ink,
                                        at,
                                    ) && packages@[at].schedule == Some(schedule),
                                None => forall|at: int| #[trigger]
                                    is_schedule_package(
                                        packages@,
                                        normalized(root_package_name@),
                                        ink,
                                        at,
                                    ) ==> packages@[at].schedule is None,
                            }
                        }
                },
                Err(error) => {
                    &&& error == MetadataError::NoInkLangDependency
                    &&& forall|j: int|
                        0 <= j < packages@.len() ==> (#[trigger] packages@[j]).name@
                            != "ink_lang"@
                },
            },
    {
        let package_name = normalize_package_name(root_package_name);
        let ink_name = "ink_lang".to_owned();
        let mut ink: usize = 0;
        while ink < packages.len() && packages[ink].name != ink_name
            invariant
                ink <= packages.len(),
                ink_name@ == "ink_lang"@,
                forall|j: int| 0 <= j < ink ==> (#[trigger] packages@[j]).name@ != "ink_lang"@,
            decreases packages.len() - ink,
        {
            ink += 1;
        }
        if ink == packages.len() {
            return Err(MetadataError::NoInkLangDependency);
        }
        let mut found: Option<usize> = None;
        let mut at: usize = ink + 1;
        while at > 0 && found.is_none()
            invariant
                at <= ink + 1,
                ink < packages.len(),
                package_name@ == normalized(root_package_name@),
                forall|j: int| at <= j <= ink ==> (#[trigger] packages@[j]).name@ != package_name@
                    || found == Some(j as usize),
                match found {
                    Some(here) => is_schedule_package(
                        packages@,
                        package_name@,
                        ink as int,
                        here as int,
                    ),
                    None => true,
                },
            decreases at + (if found is None { 1int } else { 0int }),
        {
            at -= 1;
            if packages[at].name == package_name {
                found = Some(at);
            }
        }
        assert(is_ink_package(packages@, ink as int));
        let ink_version = packages[ink].version.clone();
        let ghost listed = packages@;
        let mut packages = packages;
        let schedule = match found {
            Some(at) => {
                assert(is_schedule_package(listed, package_name@, ink as int, at as int));
                packages.remove(at).schedule
            },
            None => {
                assert forall|j: int| #[trigger]
                    is_schedule_package(listed, package_name@, ink as int, j) implies listed[j].schedule is None by {
                    assert(listed[j].name@ == package_name@);
                }
                None
            },
        };
        let wasm_file = joined(package_name.as_str(), ".wasm");
        let dest_file = wasm_file.clone();
        let original_wasm = OutputPath::new(target_directory.clone()).join(
            "wasm32-unknown-unknown".to_owned(),
        ).join("release".to_owned()).join(wasm_file);
        let dest_wasm = OutputPath::new(target_directory.clone()).join(dest_file);
        assert(original_wasm@.components =~= seq![
            target_triple(),
            "release"@,
            normalized(root_package_name@) + ".wasm"@,
        ]);
        assert(dest_wasm@.components =~= seq![normalized(root_package_name@) + ".wasm"@]);
        Ok(
            CrateMetadata {
                manifest_path,
                package_name,
                t3rn_composable_schedule: schedule,
                original_wasm,
                target_directory: OutputPath::new(target_directory),
                dest_wasm,
                ink_version,
                documentation,
                homepage,
            },
        )
    }
}

} // verus!
