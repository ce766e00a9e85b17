use composable_build::component::{
    artifact_path, build_cargo_project_compose, compile_wat_to_wasm, get_amended_manifest_path,
    get_compose_target_dest, get_dest_wasm_path, get_inline_source_path, get_optimized_wasm_path,
    get_original_wasm_path, optimize_wasm_compose, ManifestChoice,
};
use composable_build::component::inline_build_of;
use composable_build::error::{ArtifactFile, BuildError, Channel, CommandError, MetadataError};
use composable_build::toolchain::{assert_channel, channel_of};
use composable_build::manifest::{kept_crate_types, settings_to_add, ProfileSetting, ProfileValue};
use composable_build::metadata::{
    normalize_package_name, ComposableScheduleMetadata, CrateMetadata, PackageListing,
};
use composable_build::options::{UnstableFlags, Verbosity, VerbosityFlags};
use composable_build::paths::OutputPath;
use composable_build::scanner::WatContractsScanner;
use composable_build::testing::{execute, TestCommand, TestResult};

fn names(list: &[&str]) -> Vec<String> {
    list.iter().map(|name| name.to_string()).collect()
}

fn schedule(composables: &[&str]) -> ComposableScheduleMetadata {
    ComposableScheduleMetadata {
        composables: names(composables),
        schedule: None,
        deploy: None,
        execution: None,
    }
}

fn package(name: &str, version: &str, composables: Option<&[&str]>) -> PackageListing {
    PackageListing {
        name: name.to_string(),
        version: version.to_string(),
        schedule: composables.map(schedule),
    }
}

fn project() -> CrateMetadata {
    CrateMetadata::collect(
        "Cargo.toml".to_string(),
        "flipper",
        "/work/target".to_string(),
        vec![package("flipper", "0.1.0", Some(&["a", "b"])), package("ink_lang", "3.0.0", None)],
        None,
        Some("https://example.org".to_string()),
    )
    .expect("ink_lang is listed")
}

#[test]
fn package_name_gets_underscores_for_hyphens() {
    assert_eq!(normalize_package_name("my-flip-per"), "my_flip_per");
    assert_eq!(normalize_package_name("plain_name"), "plain_name");
    assert_eq!(normalize_package_name(""), "");
    assert_eq!(normalize_package_name("-"), "_");
}

#[test]
fn collect_describes_the_project() {
    let metadata = project();
    assert_eq!(metadata.manifest_path, "Cargo.toml");
    assert_eq!(metadata.package_name, "flipper");
    assert_eq!(metadata.ink_version, "3.0.0");
    assert_eq!(metadata.documentation, None);
    assert_eq!(metadata.homepage, Some("https://example.org".to_string()));
    assert_eq!(metadata.target_directory.root, "/work/target");
    assert!(metadata.target_directory.components.is_empty());
    assert_eq!(metadata.original_wasm.root, "/work/target");
    assert_eq!(
        metadata.original_wasm.components,
        names(&["wasm32-unknown-unknown", "release", "flipper.wasm"])
    );
    assert_eq!(metadata.dest_wasm.components, names(&["flipper.wasm"]));
    let schedule = metadata.t3rn_composable_schedule.expect("declared");
    assert_eq!(schedule.composables, names(&["a", "b"]));
}

#[test]
fn collect_needs_ink_lang() {
    let res = CrateMetadata::collect(
        "Cargo.toml".to_string(),
        "flipper",
        "target".to_string(),
        vec![package("flipper", "0.1.0", None), package("serde", "1.0.0", None)],
        None,
        None,
    );
    assert!(matches!(res, Err(MetadataError::NoInkLangDependency)));
    let res = CrateMetadata::collect(
        "Cargo.toml".to_string(),
        "flipper",
        "target".to_string(),
        Vec::new(),
        None,
        None,
    );
    assert!(matches!(res, Err(MetadataError::NoInkLangDependency)));
}

#[test]
fn collect_reads_packages_up_to_ink_lang() {
    let metadata = CrateMetadata::collect(
        "Cargo.toml".to_string(),
        "my-flipper",
        "target".to_string(),
        vec![
            package("my_flipper", "0.1.0", Some(&["early"])),
            package("my_flipper", "0.2.0", Some(&["late"])),
            package("ink_lang", "2.1.0", None),
            package("my_flipper", "0.3.0", Some(&["behind"])),
            package("ink_lang", "9.9.9", None),
        ],
        None,
        None,
    )
    .expect("ink_lang is listed");
    assert_eq!(metadata.package_name, "my_flipper");
    assert_eq!(metadata.ink_version, "2.1.0");
    assert_eq!(metadata.t3rn_composable_schedule.expect("found").composables, names(&["late"]));
    assert_eq!(metadata.dest_wasm.components, names(&["my_flipper.wasm"]));
}

#[test]
fn collect_without_schedule_declares_none() {
    let metadata = CrateMetadata::collect(
        "Cargo.toml".to_string(),
        "flipper",
        "target".to_string(),
        vec![package("ink_lang", "3.0.0", None), package("flipper", "0.1.0", Some(&["a"]))],
        None,
        None,
    )
    .expect("ink_lang is listed");
    assert!(metadata.t3rn_composable_schedule.is_none());
    let unreadable = CrateMetadata::collect(
        "Cargo.toml".to_string(),
        "flipper",
        "target".to_string(),
        vec![
            package("flipper", "0.1.0", Some(&["a"])),
            package("flipper", "0.1.0", None),
            package("ink_lang", "3.0.0", None),
        ],
        None,
        None,
    )
    .expect("ink_lang is listed");
    assert!(unreadable.t3rn_composable_schedule.is_none());
}

#[test]
fn component_has_a_directory_of_its_own() {
    let root = OutputPath::new("/work/target".to_string());
    let path = get_compose_target_dest("a".to_string(), root);
    assert_eq!(path.root, "/work/target");
    assert_eq!(path.components, names(&["a"]));
    let deeper = get_compose_target_dest("b".to_string(), path.clone());
    assert_eq!(deeper.components, names(&["a", "b"]));
    assert_eq!(path.components, names(&["a"]));
}

#[test]
fn artifacts_lie_where_the_layout_says() {
    let metadata = project();
    let original = get_original_wasm_path("a".to_string(), &metadata);
    assert_eq!(original.root, "/work/target");
    assert_eq!(
        original.components,
        names(&["a", "wasm32-unknown-unknown", "release", "flipper.wasm"])
    );
    let destination = get_dest_wasm_path("a".to_string(), &metadata);
    assert_eq!(destination.root, "/work/target");
    assert_eq!(destination.components, names(&["a.wasm"]));
    let optimized = get_optimized_wasm_path("a".to_string(), &metadata);
    assert_eq!(optimized.components, names(&["a-opt.wasm"]));
    let source = get_inline_source_path("a".to_string(), &metadata);
    assert_eq!(source.components, names(&["a.wat"]));
    assert_eq!(
        get_original_wasm_path("b".to_string(), &metadata).components[0],
        "b"
    );
}

#[test]
fn cross_compilation_is_scoped_to_the_component() {
    let metadata = project();
    let request = build_cargo_project_compose(
        &metadata,
        "a".to_string(),
        Some(Verbosity::Quiet),
        UnstableFlags::default(),
    );
    assert_eq!(
        request.rustflags,
        "-C link-arg=-z -C link-arg=stack-size=65536 -C link-arg=--import-memory"
    );
    assert_eq!(request.target, "wasm32-unknown-unknown");
    assert_eq!(request.manifest, ManifestChoice::Amended);
    assert_eq!(request.arguments, names(&["--no-default-features", "--features=a", "--release"]));
    assert_eq!(request.target_dir.root, "/work/target");
    assert_eq!(request.target_dir.components, names(&["a"]));
    assert_eq!(request.sysroot_path.components, names(&["sysroot"]));
    assert!(!request.memcpy);
    assert!(request.panic_immediate_abort);
    assert_eq!(request.verbosity, Some(Verbosity::Quiet));
    let original = build_cargo_project_compose(
        &metadata,
        "b".to_string(),
        None,
        UnstableFlags { original_manifest: true },
    );
    assert_eq!(original.manifest, ManifestChoice::Original);
    assert_eq!(original.target_dir.components, names(&["b"]));
    assert_eq!(original.verbosity, None);
}

#[test]
fn optimizer_reads_the_artifact_and_writes_beside_it() {
    let metadata = project();
    let request = optimize_wasm_compose(&metadata, "a".to_string());
    assert_eq!(request.program, "wasm-opt");
    assert_eq!(request.level, "-O3");
    assert_eq!(request.output_flag, "-o");
    assert_eq!(request.input.components, names(&["a.wasm"]));
    assert_eq!(request.output.components, names(&["a-opt.wasm"]));
    assert_eq!(request.output.root, "/work/target");
}

#[test]
fn inline_contract_is_compiled_from_its_text() {
    let metadata = project();
    let mut scanner = WatContractsScanner::new_empty();
    assert!(scanner.scan_from_text(
        "FOO_WAT_CONTRACT: &str = r#\"(module (func (export \"call\")))\"#;"
    ));
    let contract = scanner.find_by_name("foo".to_string()).expect("registered");
    let build = compile_wat_to_wasm("foo".to_string(), &metadata, contract).expect("compiles");
    assert_eq!(build.source, b"(module (func (export \"call\")))".to_vec());
    assert_eq!(build.source_path.components, names(&["foo.wat"]));
    assert_eq!(build.binary_path.components, names(&["foo.wasm"]));
    assert_eq!(build.binary, wat::parse_str("(module (func (export \"call\")))").unwrap());
    assert_eq!(&build.binary[0..4], b"\0asm");
    assert_ne!(build.binary, build.source);
}

#[test]
fn inline_contract_that_does_not_compile_is_refused() {
    let metadata = project();
    let mut scanner = WatContractsScanner::new_empty();
    scanner.add_contract("broken", "\"(module (func\"");
    scanner.add_contract("short", "\"");
    scanner.add_contract("unquoted", "(module)");
    let broken = scanner.find_by_name("broken".to_string()).unwrap();
    assert!(matches!(
        compile_wat_to_wasm("broken".to_string(), &metadata, broken),
        Err(BuildError::InlineCompilationFailed)
    ));
    let short = scanner.find_by_name("short".to_string()).unwrap();
    assert!(matches!(
        compile_wat_to_wasm("short".to_string(), &metadata, short),
        Err(BuildError::InlineSourceTooShort)
    ));
    let unquoted = scanner.find_by_name("unquoted".to_string()).unwrap();
    assert!(matches!(
        compile_wat_to_wasm("unquoted".to_string(), &metadata, unquoted),
        Err(BuildError::InlineCompilationFailed)
    ));
}

#[test]
fn verbosity_follows_the_flags() {
    let flags = |quiet, verbose| VerbosityFlags { quiet, verbose };
    assert_eq!(Verbosity::try_from_flags(&flags(false, false)), Ok(Verbosity::Default));
    assert_eq!(Verbosity::try_from_flags(&flags(true, false)), Ok(Verbosity::Quiet));
    assert_eq!(Verbosity::try_from_flags(&flags(false, true)), Ok(Verbosity::Verbose));
    assert_eq!(
        Verbosity::try_from_flags(&flags(true, true)),
        Err(CommandError::QuietAndVerbose)
    );
    assert!(Verbosity::Default.is_verbose());
    assert!(Verbosity::Verbose.is_verbose());
    assert!(!Verbosity::Quiet.is_verbose());
}

#[test]
fn unstable_options_know_the_original_manifest() {
    assert_eq!(
        UnstableFlags::try_from_options(&Vec::new()),
        Ok(UnstableFlags { original_manifest: false })
    );
    assert_eq!(
        UnstableFlags::try_from_options(&names(&["original-manifest"])),
        Ok(UnstableFlags { original_manifest: true })
    );
    assert_eq!(
        UnstableFlags::try_from_options(&names(&["original-manifest", "original-manifest"])),
        Ok(UnstableFlags { original_manifest: true })
    );
    assert_eq!(
        UnstableFlags::try_from_options(&names(&["original-manifest", "other"])),
        Err(CommandError::UnknownUnstableOption)
    );
    assert_eq!(
        UnstableFlags::try_from_options(&names(&["Original-Manifest"])),
        Err(CommandError::UnknownUnstableOption)
    );
}

#[test]
fn test_command_asks_for_cargo_test() {
    let command = TestCommand {
        manifest_path: Some("contracts/Cargo.toml".to_string()),
        verbosity: VerbosityFlags { quiet: false, verbose: true },
    };
    let invocation = command.exec().expect("flags agree");
    assert_eq!(invocation.command, "test");
    assert_eq!(invocation.arguments, names(&[""]));
    assert_eq!(invocation.manifest_path, Some("contracts/Cargo.toml".to_string()));
    assert_eq!(invocation.verbosity, Verbosity::Verbose);
    let plain = TestCommand { manifest_path: None, verbosity: VerbosityFlags::default() };
    let invocation = plain.exec().expect("flags agree");
    assert_eq!(invocation.manifest_path, None);
    assert_eq!(invocation.verbosity, Verbosity::Default);
}

#[test]
fn test_command_refuses_quiet_and_verbose() {
    let command = TestCommand {
        manifest_path: None,
        verbosity: VerbosityFlags { quiet: true, verbose: true },
    };
    assert!(matches!(command.exec(), Err(CommandError::QuietAndVerbose)));
}

#[test]
fn test_result_displays_what_was_printed() {
    let result = TestResult {
        stdout: "test result: ok. 3 passed; 0 failed; 1 ignored — done".as_bytes().to_vec(),
        verbosity: Verbosity::Default,
    };
    assert_eq!(
        result.display(),
        Ok("test result: ok. 3 passed; 0 failed; 1 ignored — done".to_string())
    );
    let empty = TestResult { stdout: Vec::new(), verbosity: Verbosity::Quiet };
    assert_eq!(empty.display(), Ok(String::new()));
    let broken = TestResult { stdout: vec![b'o', b'k', 0xff], verbosity: Verbosity::Default };
    assert_eq!(broken.display(), Err(CommandError::OutputNotUtf8));
}

#[test]
fn passing_tests_yield_stdout() {
    let ok_output_pattern =
        regex::Regex::new(r"test result: ok. \d+ passed; 0 failed; \d+ ignored")
            .expect("regex pattern compilation failed");

    let invocation = execute(None, Verbosity::Default);
    assert_eq!(invocation.command, "test");
    assert_eq!(invocation.verbosity, Verbosity::Default);
    let res = TestResult {
        stdout: b"\nrunning 2 tests\ntest tests::default_works ... ok\ntest tests::it_works ... ok\n\ntest result: ok. 2 passed; 0 failed; 0 ignored; 0 measured; 0 filtered out\n\n"
            .to_vec(),
        verbosity: invocation.verbosity,
    };

    assert!(ok_output_pattern.is_match(&String::from_utf8_lossy(&res.stdout)));
    let shown = res.display().expect("test execution failed");
    assert!(ok_output_pattern.is_match(&shown));
}

#[test]
fn an_error_on_a_file_has_its_path() {
    let metadata = project();
    let path = |file| artifact_path(file, "a".to_string(), &metadata);
    assert_eq!(path(ArtifactFile::Destination).components, names(&["a.wasm"]));
    assert_eq!(path(ArtifactFile::Optimized).components, names(&["a-opt.wasm"]));
    assert_eq!(path(ArtifactFile::InlineSource).components, names(&["a.wat"]));
    assert_eq!(
        path(ArtifactFile::Original).components,
        names(&["a", "wasm32-unknown-unknown", "release", "flipper.wasm"])
    );
    assert_eq!(
        path(ArtifactFile::AmendedManifest).components,
        names(&["a", "manifest", "Cargo.toml"])
    );
    assert_eq!(path(ArtifactFile::Destination).root, "/work/target");
    assert_eq!(
        get_amended_manifest_path("b".to_string(), &metadata).components,
        names(&["b", "manifest", "Cargo.toml"])
    );
}

#[test]
fn amended_manifest_loses_the_static_library() {
    assert_eq!(kept_crate_types(&names(&["cdylib", "rlib"])), names(&["cdylib"]));
    assert_eq!(kept_crate_types(&names(&["rlib", "cdylib", "rlib", "lib"])), names(&["cdylib", "lib"]));
    assert_eq!(kept_crate_types(&names(&["rlib"])), Vec::<String>::new());
    assert_eq!(kept_crate_types(&names(&["Rlib", "dylib"])), names(&["Rlib", "dylib"]));
    assert_eq!(kept_crate_types(&Vec::new()), Vec::<String>::new());
}

#[test]
fn amended_profile_keeps_what_the_project_sets() {
    let all = vec![
        ProfileSetting::OptLevel,
        ProfileSetting::Lto,
        ProfileSetting::CodegenUnits,
        ProfileSetting::OverflowChecks,
        ProfileSetting::Panic,
    ];
    assert_eq!(settings_to_add(&Vec::new()), all);
    assert_eq!(settings_to_add(&names(&["debug", "incremental"])), all);
    assert_eq!(
        settings_to_add(&names(&["lto", "panic", "debug"])),
        vec![ProfileSetting::OptLevel, ProfileSetting::CodegenUnits, ProfileSetting::OverflowChecks]
    );
    assert_eq!(
        settings_to_add(&names(&["opt-level", "lto", "codegen-units", "overflow-checks", "panic"])),
        Vec::new()
    );
    let keys: Vec<&str> = all.iter().map(|setting| setting.key()).collect();
    assert_eq!(keys, vec!["opt-level", "lto", "codegen-units", "overflow-checks", "panic"]);
    assert_eq!(ProfileSetting::OptLevel.value(), ProfileValue::Text("z"));
    assert_eq!(ProfileSetting::Lto.value(), ProfileValue::Text("fat"));
    assert_eq!(ProfileSetting::CodegenUnits.value(), ProfileValue::Number(1));
    assert_eq!(ProfileSetting::OverflowChecks.value(), ProfileValue::Flag(true));
    assert_eq!(ProfileSetting::Panic.value(), ProfileValue::Text("abort"));
}

#[test]
fn inline_build_holds_what_the_compiler_made() {
    let metadata = project();
    let build = inline_build_of("foo".to_string(), &metadata, b"(module)".to_vec(), Some(vec![0, 97]))
        .expect("compiled");
    assert_eq!(build.source, b"(module)".to_vec());
    assert_eq!(build.binary, vec![0, 97]);
    assert_eq!(build.source_path.components, names(&["foo.wat"]));
    assert_eq!(build.binary_path.components, names(&["foo.wasm"]));
    assert_eq!(build.source_path.root, "/work/target");
    assert!(matches!(
        inline_build_of("foo".to_string(), &metadata, b"(module".to_vec(), None),
        Err(BuildError::InlineCompilationFailed)
    ));
}

#[test]
fn channel_is_read_from_the_version() {
    assert_eq!(channel_of("rustc 1.50.0-nightly (f76ecd066 2020-12-15)"), Channel::Nightly);
    assert_eq!(channel_of("rustc 1.49.0 (e1884a8e3 2020-12-29)"), Channel::Stable);
    assert_eq!(channel_of("rustc 1.50.0-beta.5 (ff3998e1a 2021-01-05)"), Channel::Beta);
    assert_eq!(channel_of("rustc 1.51.0-dev"), Channel::Dev);
    assert_eq!(channel_of(""), Channel::Stable);
    assert_eq!(channel_of("rustc 1.50.0-nightly-dev"), Channel::Nightly);
}

#[test]
fn stable_and_beta_toolchains_are_refused() {
    assert_eq!(assert_channel(Channel::Nightly), Ok(()));
    assert_eq!(assert_channel(Channel::Dev), Ok(()));
    assert_eq!(
        assert_channel(Channel::Stable),
        Err(CommandError::UnsupportedChannel { channel: Channel::Stable })
    );
    assert_eq!(
        assert_channel(Channel::Beta),
        Err(CommandError::UnsupportedChannel { channel: Channel::Beta })
    );
    assert_eq!(
        CommandError::UnsupportedChannel { channel: Channel::Stable }.message(),
        "cargo-contract cannot build using the \"stable\" channel. Switch to nightly."
    );
    assert_eq!(
        BuildError::UnsupportedChannel { channel: Channel::Beta }.message(),
        "cargo-contract cannot build using the \"beta\" channel. Switch to nightly."
    );
}
