use debug_target::artefacts::{check_executable_artefacts, find_built_file};
use debug_target::directive::declared_suffix;
use debug_target::paths::{absolutize, file_name, json_path, normalize_path, sibling};
use debug_target::{
    build_debug_target, build_debug_target_with, describe_debug_target, installed_paths_consulted,
    paths_consulted, CompilerConfiguration, DebugTarget, DebugTargetKind, FileState, Files,
    IdeEnvironment, IdeLibrarySettings, IdeSettings, Installation, Project, Registry, Rsvars,
    Selection, SymbolFiles, TargetError,
};

/// A Delphi 12 installation that exists only as values: no disk, no registry.
struct FakeIde {
    environment: Option<IdeEnvironment>,
    library: IdeLibrarySettings,
}

impl FakeIde {
    fn new() -> Self {
        let rsvars = [
            ("BDS", r"C:\Delphi\23.0"),
            ("BDSCOMMONDIR", r"C:\Users\Public\Documents\Embarcadero\Studio\23.0"),
        ]
        .iter()
        .map(|(k, v)| (k.to_string(), v.to_string()))
        .collect();
        FakeIde {
            environment: Some(IdeEnvironment { rsvars, ..Default::default() }),
            library: IdeLibrarySettings::default(),
        }
    }

    fn with_variable(mut self, name: &str, value: &str) -> Self {
        if let Some(environment) = &mut self.environment {
            environment.ide_variables.push((name.to_string(), value.to_string()));
        }
        self
    }

    fn unavailable() -> Self {
        FakeIde { environment: None, library: IdeLibrarySettings::default() }
    }
}

impl IdeSettings for FakeIde {
    fn environment(&self) -> Result<IdeEnvironment, String> {
        self.environment.clone().ok_or_else(|| "rsvars.bat not found".to_string())
    }

    fn library_settings(&self, _platform: &str) -> IdeLibrarySettings {
        self.library.clone()
    }
}

fn compiler() -> CompilerConfiguration {
    CompilerConfiguration {
        condition: "VER360".into(),
        product_name: "Delphi 12.0 Athens".into(),
        product_version: 23,
        package_version: 290,
        compiler_version: 36,
        installation_path: r"C:\Delphi\23.0".into(),
        build_arguments: Vec::new(),
    }
}

/// The directory of the projects below.
const DIR: &str = "/work";

fn project(name: &str) -> Project {
    Project { id: 7, name: name.into(), directory: DIR.into(), ..Default::default() }
}

/// A disk that holds the directory of the projects.
fn disk() -> Files {
    let mut files = Files::new();
    make_dir(&mut files, DIR);
    files
}

fn make_dir(files: &mut Files, path: &str) {
    let state = FileState {
        present: true,
        is_file: false,
        is_dir: true,
        modified: None,
        contents: Err("is a directory".to_string()),
    };
    files.record(path.to_string(), state);
}

fn write(files: &mut Files, path: &str, contents: &str) -> String {
    write_at(files, path, contents, 1_700_000_000)
}

fn write_at(files: &mut Files, path: &str, contents: &str, seconds: i128) -> String {
    let state = FileState {
        present: true,
        is_file: true,
        is_dir: false,
        modified: Some(seconds * 1_000_000_000),
        contents: Ok(contents.to_string()),
    };
    files.record(path.to_string(), state);
    path.to_string()
}

fn touch(files: &mut Files, path: &str) -> String {
    write(files, path, "x")
}

fn built(outcome: Result<DebugTarget, TargetError>) -> DebugTarget {
    match outcome {
        Ok(target) => target,
        Err(error) => panic!("{}", error.message()),
    }
}

fn refused(outcome: Result<DebugTarget, TargetError>) -> TargetError {
    match outcome {
        Ok(_) => panic!("there is a target"),
        Err(error) => error,
    }
}

/// A dproj with the configurations Debug and Release, of which Debug and the
/// given platform are the defaults, and the given elements in its base, in
/// Debug, and in Debug for Win64.
fn dproj(platform: &str, base: &str, debug: &str, debug_win64: &str) -> String {
    format!(
        r#"<Project xmlns="http://schemas.microsoft.com/developer/msbuild/2003">
    <PropertyGroup>
        <Config Condition="'$(Config)'==''">Debug</Config>
        <Platform Condition="'$(Platform)'==''">{platform}</Platform>
    </PropertyGroup>
    <PropertyGroup Condition="'$(Config)'=='Base' or '$(Base)'!=''">
        <Base>true</Base>
    </PropertyGroup>
    <PropertyGroup Condition="'$(Base)'!=''">{base}</PropertyGroup>
    <PropertyGroup Condition="'$(Cfg_1)'!=''">{debug}</PropertyGroup>
    <PropertyGroup Condition="'$(Cfg_1_Win64)'!=''">{debug_win64}</PropertyGroup>
    <ItemGroup>
        <BuildConfiguration Include="Base"><Key>Base</Key></BuildConfiguration>
        <BuildConfiguration Include="Debug"><Key>Cfg_1</Key><CfgParent>Base</CfgParent></BuildConfiguration>
        <BuildConfiguration Include="Release"><Key>Cfg_2</Key><CfgParent>Base</CfgParent></BuildConfiguration>
    </ItemGroup>
</Project>"#
    )
}

/// A package whose Debug/Win64 host is `$(VEGADIR)/FieldHost64.exe`, with the
/// unit search path `./$(Platform)/$(Config)`.
fn package_with_dproj(files: &mut Files) -> Project {
    let source = dproj(
        "Win64",
        "<DCC_UnitSearchPath>./$(Platform)/$(Config);$(DCC_UnitSearchPath)</DCC_UnitSearchPath>",
        "<Debugger_HostApplication>$(ProjectDir)/hosts/DebugHost.exe</Debugger_HostApplication>",
        "<Debugger_HostApplication>$(VEGADIR)/FieldHost64.exe</Debugger_HostApplication>",
    );
    let mut project = project("TestPkg64");
    project.dproj = Some(write(files, "/work/TestPkg64.dproj", &source));
    project.dpk = Some(write(files, "/work/TestPkg.dpk", "package TestPkg;\nend.\n"));
    project
}

fn told(target: &DebugTarget, words: &str) -> bool {
    target.warnings.iter().any(|w| w.contains(words))
}

#[test]
fn a_program_target_lists_its_exe_and_symbols() {
    let mut files = disk();
    let exe = touch(&mut files, "/work/Demo.exe");
    let mut project = project("Demo");
    project.dpr = Some("/work/Demo.dpr".into());
    project.exe = Some(exe);
    project.dproj_run_params = Some("-a".into());
    project.start_parameters = Some("\"b c\"".into());

    let target = built(build_debug_target_with(&project, &compiler(), &FakeIde::new(), &files));
    assert_eq!(target.kind, DebugTargetKind::Program);
    assert_eq!(target.bitness, Some(32));
    assert!(target.executable.ends_with("/Demo.exe"));
    assert!(target.symbols.rsm.ends_with("/Demo.rsm"));
    assert_eq!(target.args, vec!["-a", "b c"]);
    assert!(target.modules.is_empty());
    assert_eq!(target.source_search_paths[0], json_path(&normalize_path(DIR)));
    assert!(target.warnings.iter().any(|w| w.contains("Missing .map")));
}

#[test]
fn a_program_with_a_host_application_keeps_its_own_symbols_as_a_module() {
    let mut files = disk();
    let exe = touch(&mut files, "/work/out/Plugin.exe");
    touch(&mut files, "/work/out/Plugin.map");
    let host = touch(&mut files, "/work/Host.exe");
    let mut project = project("Plugin");
    project.exe = Some(exe);
    project.host_application = Some(host);

    let target = built(build_debug_target_with(&project, &compiler(), &FakeIde::new(), &files));
    assert_eq!(target.kind, DebugTargetKind::Program);
    assert!(target.executable.ends_with("/Host.exe"));
    // The host's symbols are not the program's: nothing is expected next to it.
    assert!(!told(&target, "the executable"), "{:?}", target.warnings);
    let module = &target.modules[0];
    assert_eq!(module.name, "Plugin.exe");
    assert!(module.map.as_deref().unwrap().ends_with("/out/Plugin.map"));
    assert!(target.warnings.iter().any(|w| w.contains("Plugin.exe") && w.contains("Missing .rsm")));
}

#[test]
fn a_package_target_reads_host_platform_and_search_paths_of_the_dproj() {
    let mut files = disk();
    let project = package_with_dproj(&mut files);
    make_dir(&mut files, "/work/Win64/Debug");
    let ide = FakeIde::new().with_variable("VEGADIR", "/Athens/hydra_2");

    // Nothing on record about the host: the dproj is evaluated for its default
    // platform (Win64), with the IDE variable expanded.
    let target = built(build_debug_target_with(&project, &compiler(), &ide, &files));
    assert_eq!(target.kind, DebugTargetKind::Package);
    assert_eq!(
        (target.config.as_str(), target.platform.as_str(), target.bitness),
        ("Debug", "Win64", Some(64))
    );
    assert_eq!(target.executable, "/Athens/hydra_2/FieldHost64.exe");
    assert_eq!(target.host_application, Some(target.executable.clone()));
    assert_eq!(target.modules[0].name, "TestPkg64.bpl");
    assert!(target.modules[0].binary.is_none());
    assert_eq!(target.source_search_paths, vec!["/work", "/work/Win64/Debug"]);
    assert!(told(&target, "Executable not found"));
    assert!(told(&target, "No built TestPkg64.bpl"));
}

#[test]
fn a_package_target_uses_the_persisted_state_and_finds_its_bpl_next_to_the_host() {
    let mut files = disk();
    let mut project = package_with_dproj(&mut files);
    project.dproj_host_application = Some("/work/vega/FieldHost64.exe".into());
    project.dproj_run_params = Some("-flag1".into());
    let host = touch(&mut files, "/work/vega/FieldHost64.exe");
    touch(&mut files, "/work/vega/TestPkg64.bpl");
    touch(&mut files, "/work/vega/TestPkg64.dcp");
    let ide = FakeIde::new().with_variable("VEGADIR", "/work/vega");

    let target = built(build_debug_target_with(&project, &compiler(), &ide, &files));
    assert_eq!(target.executable, json_path(&normalize_path(&host)));
    assert_eq!(target.args, vec!["-flag1"]);
    let module = &target.modules[0];
    assert!(module.binary.as_deref().unwrap().ends_with("/vega/TestPkg64.bpl"));
    assert!(module.dcp.as_deref().unwrap().ends_with("/vega/TestPkg64.dcp"));
    assert!(target.warnings.iter().any(|w| w.contains("TestPkg64.bpl") && w.contains("Missing .map")));

    // Describing another platform re-reads the host for it: the dproj's
    // Debug host is `$(ProjectDir)/hosts/DebugHost.exe`, not the Win64 one.
    project.active_platform = Some("Win32".into());
    let target = built(build_debug_target_with(&project, &compiler(), &ide, &files));
    assert_eq!(target.platform, "Win32");
    assert!(target.executable.ends_with("/hosts/DebugHost.exe"), "{}", target.executable);
}

#[test]
fn a_package_with_an_automatic_libsuffix_is_found_by_its_exact_name_in_the_bpl_output() {
    let mut files = disk();
    let source = dproj(
        "Win32",
        "<DllSuffix>$(Auto)</DllSuffix><DCC_BplOutput>./bpl</DCC_BplOutput>\
         <DCC_DcpOutput>./dcp</DCC_DcpOutput><DCC_IncludePath>inc;missing</DCC_IncludePath>",
        "<Debugger_HostApplication>hosts/Host.exe</Debugger_HostApplication>",
        "",
    );
    let mut project = project("TestPkgSuffix");
    project.dproj = Some(write(&mut files, "/work/TestPkgSuffix.dproj", &source));
    project.dpk = Some(write(&mut files, "/work/TestPkgSuffix.dpk", "package TestPkgSuffix;\nend.\n"));
    touch(&mut files, "/work/hosts/Host.exe");
    // A stale namesake that a prefix match would have preferred.
    touch(&mut files, "/work/./bpl/TestPkgSuffixOld.bpl");
    touch(&mut files, "/work/bpl/TestPkgSuffixOld.bpl");
    touch(&mut files, "/work/bpl/TestPkgSuffix290.bpl");
    touch(&mut files, "/work/dcp/TestPkgSuffix.dcp");
    make_dir(&mut files, "/work/inc");

    let target = built(build_debug_target_with(&project, &compiler(), &FakeIde::new(), &files));
    assert!(target.executable.ends_with("/hosts/Host.exe"));
    let module = &target.modules[0];
    assert_eq!(module.name, "TestPkgSuffix290.bpl");
    assert!(module.binary.as_deref().unwrap().ends_with("/bpl/TestPkgSuffix290.bpl"));
    assert!(module.dcp.as_deref().unwrap().ends_with("/dcp/TestPkgSuffix.dcp"));
    let expected = json_path(&normalize_path("/work/inc"));
    assert!(target.source_search_paths.contains(&expected), "{:?}", target.source_search_paths);
}

#[test]
fn a_libsuffix_directive_in_the_dpk_names_the_bpl_when_the_dproj_is_silent() {
    let mut files = disk();
    let dpk = write(&mut files, "/work/Demo.dpk", "package Demo;\n{$LIBSUFFIX 'D29'}\nend.\n");
    let host = touch(&mut files, "/work/Host.exe");
    touch(&mut files, "/work/DemoD29.bpl");
    let mut project = project("Demo");
    project.dpk = Some(dpk);
    project.host_application = Some(host);

    let target = built(build_debug_target_with(&project, &compiler(), &FakeIde::new(), &files));
    assert_eq!(target.modules[0].name, "DemoD29.bpl");
    assert!(target.modules[0].binary.is_some());

    write(&mut files, "/work/Demo.dpk", "package Demo;\n{$LIBSUFFIX AUTO}\nend.\n");
    let target = built(build_debug_target_with(&project, &compiler(), &FakeIde::new(), &files));
    assert_eq!(target.modules[0].name, "Demo290.bpl");
}

#[test]
fn a_library_target_binds_its_dll() {
    let mut files = disk();
    let source = dproj(
        "Win32",
        "<GenDll>TRUE</GenDll>",
        "<Debugger_HostApplication>Host.exe</Debugger_HostApplication>",
        "",
    );
    let mut project = project("TestLib");
    project.dproj = Some(write(&mut files, "/work/TestLib.dproj", &source));
    // A library's output is on record the way a program's is.
    project.exe = Some("/work/out/TestLib.exe".into());
    touch(&mut files, "/work/Host.exe");
    touch(&mut files, "/work/out/TestLib.dll");

    let target = built(build_debug_target_with(&project, &compiler(), &FakeIde::new(), &files));
    assert_eq!(target.kind, DebugTargetKind::Library, "{:?}", target.warnings);
    assert!(target.executable.ends_with("/Host.exe"), "{}", target.executable);
    assert_eq!(target.modules[0].name, "TestLib.dll");
    assert!(target.modules[0].binary.as_deref().unwrap().ends_with("/out/TestLib.dll"));
}

#[test]
fn a_package_without_host_is_an_error_not_a_target() {
    let mut project = project("Demo");
    project.dpk = Some("/work/Demo.dpk".into());
    let error = refused(build_debug_target_with(&project, &compiler(), &FakeIde::new(), &disk()));
    assert!(error.message().contains("Host Application"), "{}", error.message());
}

#[test]
fn unreadable_inputs_are_reported_not_swallowed() {
    let mut files = disk();
    let exe = touch(&mut files, "/work/Demo.exe");
    let mut project = project("Demo");
    project.dproj = Some(write(&mut files, "/work/Demo.dproj", "<Project><PropertyGroup><Config>"));
    project.exe = Some(exe);

    let target =
        built(build_debug_target_with(&project, &compiler(), &FakeIde::unavailable(), &files));
    assert!(told(&target, "rsvars.bat not found"), "{:?}", target.warnings);
    assert!(told(&target, "Could not evaluate"), "{:?}", target.warnings);
    assert!(told(&target, "No IDE Library Path"), "{:?}", target.warnings);
}

#[test]
fn symbol_checks_report_missing_and_stale_files() {
    let mut files = disk();
    let now: i128 = 1_700_000_000;
    let exe = write_at(&mut files, "/work/Demo.exe", "exe", now);
    // A map from an earlier build: well outside the same-build tolerance.
    write_at(&mut files, "/work/Demo.map", "map", now - 3600);
    let mut warnings = Vec::new();
    check_executable_artefacts(&exe, true, &files, &mut warnings);
    assert!(warnings.iter().any(|w| w.contains(".map") && w.contains("older")), "{warnings:?}");
    assert!(warnings.iter().any(|w| w.contains("Missing .rsm")), "{warnings:?}");
}

// ─── Warnings and errors in words ────────────────────────────────────────────

#[test]
fn a_program_without_executable_is_an_error() {
    let error = refused(build_debug_target_with(
        &project("Demo"),
        &compiler(),
        &FakeIde::new(),
        &disk(),
    ));
    assert_eq!(error.message(), "Project \"Demo\" has no executable to debug. Compile it first.");
    assert!(matches!(error, TargetError::NoExecutable { .. }));
}

#[test]
fn a_library_without_host_is_an_error() {
    let mut files = disk();
    let mut project = project("Demo");
    let source = dproj("Win32", "<GenDll>true</GenDll>", "", "");
    project.dproj = Some(write(&mut files, "/work/Demo.dproj", &source));
    project.exe = Some(touch(&mut files, "/work/Demo.exe"));
    let error = refused(build_debug_target_with(&project, &compiler(), &FakeIde::new(), &files));
    assert_eq!(
        error.message(),
        "Library \"Demo\" has no Host Application to debug through. Set one via Project > Options \
         > Debugger in the Delphi IDE, or DevKit's \"Set Host Application\"."
    );
    assert!(matches!(error, TargetError::NoHostApplication { kind: DebugTargetKind::Library, .. }));
}

#[test]
fn every_unreadable_input_has_its_words() {
    let mut project = project("Demo");
    project.dproj = Some("/work/Demo.dproj".into());
    project.exe = Some("/work/Demo.exe".into());
    project.active_platform = Some("Linux64".into());
    let mut files = disk();
    let state = FileState {
        present: true,
        is_file: true,
        is_dir: false,
        modified: None,
        contents: Err("denied".to_string()),
    };
    files.record("/work/Demo.dproj".to_string(), state);
    let target =
        built(build_debug_target_with(&project, &compiler(), &FakeIde::unavailable(), &files));
    assert_eq!(
        target.warnings,
        vec![
            "The IDE environment of Delphi 12.0 Athens could not be read (rsvars.bat not found); \
             $(BDS)-relative paths will stay unresolved.",
            "Could not evaluate /work/Demo.dproj (denied); the target is described from DevKit's \
             recorded project state alone, so config/platform, host application and search paths \
             may be incomplete.",
            "No IDE Library Path found for Linux64 under SOFTWARE\\Embarcadero\\BDS\\23.0; only \
             the project's own paths and the compiler's source tree are searched for sources.",
            "Executable not found: /work/Demo.exe. Compile the project first.",
            "Platform linux64 is not a Windows target; a Windows debugger cannot debug it.",
        ]
    );
    assert_eq!(target.bitness, None);
    assert_eq!((target.config.as_str(), target.platform.as_str()), ("Debug", "Linux64"));
}

#[test]
fn a_configuration_that_the_dproj_lacks_is_reported() {
    let mut files = disk();
    let mut project = project("Demo");
    let source = dproj("Win64", "", "", "");
    project.dproj = Some(write(&mut files, "/work/Demo.dproj", &source));
    project.exe = Some(touch(&mut files, "/work/Demo.exe"));
    project.active_configuration = Some("Nightly".into());
    project.dproj_host_application = Some("/work/Host.exe".into());
    let target = built(build_debug_target_with(&project, &compiler(), &FakeIde::new(), &files));
    assert!(target.warnings.contains(
        &"The dproj defines no property group for Nightly/Win64 (Build configuration 'Nightly' not \
          found); output directories, host application and search paths from the dproj are \
          unavailable."
            .to_string()
    ));
    // The dproj could not be evaluated, so the host it named before counts.
    assert_eq!(target.executable, "/work/Host.exe");
}

#[test]
fn a_dproj_that_names_no_host_overrules_the_recorded_one() {
    let mut files = disk();
    let mut project = project("Demo");
    let source = dproj("Win64", "", "", "");
    project.dproj = Some(write(&mut files, "/work/Demo.dproj", &source));
    project.exe = Some(touch(&mut files, "/work/Demo.exe"));
    project.dproj_host_application = Some("/work/Host.exe".into());
    let target = built(build_debug_target_with(&project, &compiler(), &FakeIde::new(), &files));
    assert_eq!(target.executable, "/work/Demo.exe");
    assert_eq!(target.host_application, None);
}

#[test]
fn a_chosen_host_wins_where_it_can_be_launched() {
    let mut files = disk();
    let mut project = package_with_dproj(&mut files);
    let ide = FakeIde::new().with_variable("VEGADIR", "/vega");
    project.host_application = Some(r"/chosen\Host.exe".into());
    let target = built(build_debug_target_with(&project, &compiler(), &ide, &files));
    assert_eq!(target.executable, "/chosen/Host.exe");
    for unusable in [" \t", "", "$(NOWHERE)/Host.exe"] {
        project.host_application = Some(unusable.into());
        let target = built(build_debug_target_with(&project, &compiler(), &ide, &files));
        assert_eq!(target.executable, "/vega/FieldHost64.exe");
    }
}

#[test]
fn a_host_with_an_unresolved_macro_is_none() {
    let mut files = disk();
    let mut project = project("Demo");
    let source = dproj(
        "Win64",
        "",
        "<Debugger_HostApplication>hosts/Host.exe</Debugger_HostApplication>",
        "<Debugger_HostApplication>  </Debugger_HostApplication>",
    );
    project.dproj = Some(write(&mut files, "/work/Demo.dproj", &source));
    project.dpk = Some("/work/Demo.dpk".into());
    let outcome = build_debug_target_with(&project, &compiler(), &FakeIde::new(), &files);
    assert!(matches!(outcome, Err(TargetError::NoHostApplication { .. })));
    project.active_platform = Some("Win32".into());
    let target = built(build_debug_target_with(&project, &compiler(), &FakeIde::new(), &files));
    assert_eq!(target.executable, "/work/hosts/Host.exe");
}

#[test]
fn a_hosted_program_that_was_never_built_is_a_module_without_binary() {
    let mut files = disk();
    let mut project = project("Plugin");
    project.host_application = Some(touch(&mut files, "/work/Host.exe"));
    let target = built(build_debug_target_with(&project, &compiler(), &FakeIde::new(), &files));
    assert_eq!(target.modules.len(), 1);
    assert_eq!(target.modules[0].name, "Plugin.exe");
    assert_eq!(target.modules[0].binary, None);
    assert!(target.warnings.contains(
        &"Program \"Plugin\" is started by a Host Application but has no executable of its own \
          recorded. Compile it first."
            .to_string()
    ));

    project.exe = Some("/work/gone/Plugin.exe".into());
    let target = built(build_debug_target_with(&project, &compiler(), &FakeIde::new(), &files));
    assert_eq!(target.modules[0].binary.as_deref(), Some("/work/gone/Plugin.exe"));
    assert!(target.warnings.contains(
        &"Executable not found: /work/gone/Plugin.exe. Compile the project first.".to_string()
    ));
}

#[test]
fn a_package_is_looked_for_in_order() {
    let mut files = disk();
    let mut project = project("Pkg");
    let source = dproj("Win64", "<DCC_BplOutput>out</DCC_BplOutput>", "", "");
    project.dproj = Some(write(&mut files, "/work/Pkg.dproj", &source));
    project.dpk = Some("/work/Pkg.dpk".into());
    project.host_application = Some(touch(&mut files, "/host/Host.exe"));
    let mut ide = FakeIde::new().with_variable("BDSCOMMONDIR", "/common");
    ide.library.package_dpl_output = Some(" $(BDSCOMMONDIR)/dpl ".into());
    ide.library.package_dcp_output = Some("$(NOWHERE)/dcp".into());
    let target = built(build_debug_target_with(&project, &compiler(), &ide, &files));
    let expected = "No built Pkg.bpl found for package \"Pkg\" (searched: /work/out; /common/dpl; \
                    /work/Win64/Debug). Compile it first, or the debugger will treat it as a black \
                    box.";
    // The IDE's default output is written with backslashes.
    let common = "/common\\Bpl/Win64; /common\\Bpl; /host; ";
    let expected = expected.replace("/work/Win64/Debug)", &format!("{common}/work/Win64/Debug)"));
    assert!(target.warnings.contains(&expected), "{:?}", target.warnings);

    // Whatever comes up earlier in that order is taken.
    for path in [
        "/work/Win64/Debug/Pkg.bpl",
        "/host/Pkg.bpl",
        "/common\\Bpl/Pkg.bpl",
        "/common\\Bpl/Win64/Pkg.bpl",
        "/common/dpl/Pkg.bpl",
        "/work/out/Pkg.bpl",
    ] {
        touch(&mut files, path);
        let target = built(build_debug_target_with(&project, &compiler(), &ide, &files));
        assert_eq!(target.modules[0].binary, Some(json_path(path)));
        assert_eq!(target.modules[0].dcp, None);
        assert!(target.warnings.contains(
            &"No Pkg.dcp found for package \"Pkg\": the debugger will lack the package's rich \
              debug information."
                .to_string()
        ));
    }
    touch(&mut files, "/work/out/Pkg.dcp");
    touch(&mut files, "/common\\Dcp/Win64/Pkg.dcp");
    let target = built(build_debug_target_with(&project, &compiler(), &ide, &files));
    assert_eq!(target.modules[0].dcp.as_deref(), Some("/common/Dcp/Win64/Pkg.dcp"));
}

#[test]
fn a_library_is_looked_for_in_one_directory() {
    let mut files = disk();
    let mut project = project("Lib");
    let source = dproj("Win32", "<GenDll>true</GenDll><DllSuffix>$(NOWHERE)</DllSuffix>", "", "");
    project.dproj = Some(write(&mut files, "/work/Lib.dproj", &source));
    project.host_application = Some(touch(&mut files, "/work/Host.exe"));
    let target = built(build_debug_target_with(&project, &compiler(), &FakeIde::new(), &files));
    assert!(target.warnings.contains(
        &"No built Lib.dll found for library \"Lib\" in /work/Win32/Debug. Compile it first, or \
          the debugger will treat it as a black box."
            .to_string()
    ));
    assert_eq!(target.modules[0].name, "Lib.dll");
    assert_eq!(target.modules[0].binary, None);
}

// ─── Symbols ─────────────────────────────────────────────────────────────────

#[test]
fn symbols_within_five_minutes_are_of_the_same_build() {
    let mut files = disk();
    let now: i128 = 1_700_000_000;
    write_at(&mut files, "/work/Demo.exe", "exe", now);
    write_at(&mut files, "/work/Demo.map", "map", now - 300);
    write_at(&mut files, "/work/Demo.rsm", "rsm", now - 301);
    let mut warnings = vec!["before".to_string()];
    check_executable_artefacts("/work/Demo.exe", true, &files, &mut warnings);
    assert_eq!(
        warnings,
        vec![
            "before",
            "The .rsm next to the executable is older than the binary: stale symbols make \
             breakpoints land on wrong lines. Recompile with debug info (Compile for Debugging).",
        ]
    );
}

#[test]
fn missing_symbols_say_what_they_cost() {
    let mut files = disk();
    touch(&mut files, "/work/Demo.exe");
    let mut warnings = Vec::new();
    check_executable_artefacts("/work/Demo.exe", true, &files, &mut warnings);
    assert_eq!(
        warnings,
        vec![
            "Missing .map next to the executable (no source lines: breakpoints and stepping will \
             not work). Compile with debug info (Compile for Debugging).",
            "Missing .rsm next to the executable (variable inspection and expression evaluation \
             will be severely limited). Compile with debug info (Compile for Debugging).",
        ]
    );
    // The symbols of a host are optional.
    warnings.clear();
    check_executable_artefacts("/work/Demo.exe", false, &files, &mut warnings);
    assert!(warnings.is_empty());
}

#[test]
fn the_first_directory_that_holds_the_file_counts() {
    let mut files = disk();
    touch(&mut files, "/b/x.bpl");
    touch(&mut files, "/c/x.bpl");
    make_dir(&mut files, "/a/x.bpl");
    let dirs = |list: &[&str]| list.iter().map(|d| d.to_string()).collect::<Vec<String>>();
    let found = find_built_file(&dirs(&["/a", "/b", "/c"]), "x.bpl", &files);
    assert_eq!(found.as_deref(), Some("/b/x.bpl"));
    assert_eq!(find_built_file(&dirs(&["/a", "/b"]), "X.bpl", &files), None);
    assert_eq!(find_built_file(&dirs(&[]), "x.bpl", &files), None);
}

// ─── Sources ─────────────────────────────────────────────────────────────────

#[test]
fn source_paths_are_distinct_existing_and_most_specific_first() {
    let mut files = disk();
    let mut project = project("Demo");
    let source = dproj(
        "Win64",
        "<DCC_UnitSearchPath>units;gone;../shared;;$(NOWHERE)/x</DCC_UnitSearchPath>\
         <DCC_IncludePath>/inc</DCC_IncludePath>",
        "",
        "",
    );
    project.dproj = Some(write(&mut files, "/work/Demo.dproj", &source));
    project.exe = Some(touch(&mut files, "/work/Demo.exe"));
    let mut ide = FakeIde::new().with_variable("BDS", "/bds");
    ide.library.search_path = Some("/lib/$(Platform); /WORK/Units ;/inc".into());
    ide.library.browsing_path = Some("/browse;/work".into());
    for dir in ["/work/units", "/shared", "/inc", "/lib/Win64", "/WORK/Units", "/browse", "/bds\\source"] {
        make_dir(&mut files, dir);
    }
    let target = built(build_debug_target_with(&project, &compiler(), &ide, &files));
    assert_eq!(
        target.source_search_paths,
        vec!["/work", "/work/units", "/shared", "/inc", "/lib/Win64", "/browse", "/bds/source"]
    );
}

// ─── The whole target ────────────────────────────────────────────────────────

#[test]
fn a_target_reads_as_text() {
    let mut files = disk();
    let mut project = project("Demo");
    project.dpk = Some("/work/Demo.dpk".into());
    project.host_application = Some(touch(&mut files, "/work/Host.exe"));
    project.start_parameters = Some("-a \"b c\"".into());
    let mut ide = FakeIde::new();
    ide.library.search_path = Some("/nowhere".into());
    let mut target = built(build_debug_target_with(&project, &compiler(), &ide, &files));
    target.warnings = vec!["one".into(), "two".into()];
    assert_eq!(
        target.render(),
        "Debug target for \"Demo\" (package, Debug Win32, Delphi 12.0 Athens):\n  \
         project file: /work/Demo.dpk\n  \
         executable:   /work/Host.exe\n  \
         host app:     /work/Host.exe\n  \
         map / rsm:    /work/Host.map / /work/Host.rsm\n  \
         module:       Demo.bpl -> (not built)\n  \
         args:         -a b c\n  \
         source root:  /work\n  \
         source paths: 1 directories\n\
         Warnings:\n- one\n- two\n"
    );
    target.warnings.clear();
    target.args.clear();
    target.host_application = None;
    target.modules[0].binary = Some("/work/Demo.bpl".into());
    target.kind = DebugTargetKind::Library;
    assert_eq!(
        target.render(),
        "Debug target for \"Demo\" (library, Debug Win32, Delphi 12.0 Athens):\n  \
         project file: /work/Demo.dpk\n  \
         executable:   /work/Host.exe\n  \
         map / rsm:    /work/Host.map / /work/Host.rsm\n  \
         module:       Demo.bpl -> /work/Demo.bpl\n  \
         source root:  /work\n  \
         source paths: 1 directories\n"
    );
}

#[test]
fn a_target_names_its_project() {
    let mut files = disk();
    let mut project = project("Demo");
    project.exe = Some(touch(&mut files, r"/work\Demo.exe"));
    let target = built(build_debug_target_with(&project, &compiler(), &FakeIde::new(), &files));
    assert_eq!(target.project_id, Some(7));
    assert_eq!(target.project, "Demo");
    assert_eq!(target.project_file, "/work");
    assert_eq!(target.main_source, None);
    assert_eq!(target.executable, "/work/Demo.exe");
    assert_eq!(target.source_root, "/work");
    assert_eq!(target.compiler, "Delphi 12.0 Athens");

    project.dpr = Some("/work/Demo.dpr".into());
    let target = built(build_debug_target_with(&project, &compiler(), &FakeIde::new(), &files));
    assert_eq!(target.project_file, "/work/Demo.dpr");
    assert_eq!(target.main_source.as_deref(), Some("/work/Demo.dpr"));

    project.dproj = Some("/work/Demo.dproj".into());
    let target = built(build_debug_target_with(&project, &compiler(), &FakeIde::new(), &files));
    assert_eq!(target.project_file, "/work/Demo.dproj");
}

#[test]
fn the_bitness_follows_the_platform_in_any_casing() {
    let mut files = disk();
    let mut project = project("Demo");
    project.exe = Some(touch(&mut files, "/work/Demo.exe"));
    for (platform, bitness) in
        [("WIN32", Some(32)), ("Win64", Some(64)), ("Win64x", Some(64)), ("OSX64", None)]
    {
        project.active_platform = Some(platform.into());
        let target = built(build_debug_target_with(&project, &compiler(), &FakeIde::new(), &files));
        assert_eq!(target.bitness, bitness);
        assert_eq!(target.platform, platform);
    }
}

#[test]
fn a_sound_target_has_no_warnings() {
    let mut files = disk();
    let mut project = package_with_dproj(&mut files);
    let mut ide = FakeIde::new().with_variable("VEGADIR", "/vega");
    ide.library.browsing_path = Some("/browse".into());
    for path in [
        "/vega/FieldHost64.exe",
        "/vega/TestPkg64.bpl",
        "/vega/TestPkg64.map",
        "/vega/TestPkg64.rsm",
        "/vega/TestPkg64.dcp",
    ] {
        let target = built(build_debug_target_with(&project, &compiler(), &ide, &files));
        assert!(!target.warnings.is_empty());
        touch(&mut files, path);
    }
    let target = built(build_debug_target_with(&project, &compiler(), &ide, &files));
    assert!(target.warnings.is_empty(), "{:?}", target.warnings);
    assert_eq!(target.host_application, Some(target.executable.clone()));

    project.active_platform = Some("Android".into());
    let target = built(build_debug_target_with(&project, &compiler(), &ide, &files));
    assert!(!target.warnings.is_empty());
}

#[test]
fn every_path_of_a_target_has_forward_slashes() {
    let mut files = Files::new();
    let mut project = project("Demo");
    project.directory = r"/w\x".into();
    project.dpk = Some(r"/w\x/Demo.dpk".into());
    project.host_application = Some(r"/h\Host.exe".into());
    make_dir(&mut files, r"/w\x");
    touch(&mut files, r"/w\x/Win32/Debug/Demo.bpl");
    touch(&mut files, r"/w\x/Win32/Debug/Demo.dcp");
    let target = built(build_debug_target_with(&project, &compiler(), &FakeIde::new(), &files));
    assert_eq!(target.project_file, "/w/x/Demo.dpk");
    assert_eq!(target.main_source.as_deref(), Some("/w/x/Demo.dpk"));
    assert_eq!(target.executable, "/h/Host.exe");
    assert_eq!(target.symbols.map, "/h/Host.map");
    assert_eq!(target.source_root, "/w/x");
    assert_eq!(target.source_search_paths, vec!["/w/x"]);
    let module = &target.modules[0];
    assert_eq!(module.binary.as_deref(), Some("/w/x/Win32/Debug/Demo.bpl"));
    assert_eq!(module.map.as_deref(), Some("/w/x/Win32/Debug/Demo.map"));
    assert_eq!(module.rsm.as_deref(), Some("/w/x/Win32/Debug/Demo.rsm"));
    assert_eq!(module.dcp.as_deref(), Some("/w/x/Win32/Debug/Demo.dcp"));
}

fn delphi() -> Installation {
    let win64 = vec![("Search Path".to_string(), "/lib".to_string())];
    let keys = vec![(r"SOFTWARE\Embarcadero\BDS\23.0\Library\Win64".to_string(), win64)];
    Installation {
        rsvars: Rsvars::Parsed(vec![("BDS".to_string(), "/bds".to_string())]),
        registry: Registry {
            keys,
            overrides: vec![(23, vec![("VEGADIR".to_string(), "/vega".to_string())])],
        },
        documents: None,
        public_profile: Some("/public".to_string()),
    }
}

#[test]
fn an_installed_ide_supplies_environment_and_library_settings() {
    let mut files = disk();
    let project = package_with_dproj(&mut files);
    make_dir(&mut files, "/lib");
    let target = built(build_debug_target(&project, &compiler(), &delphi(), &files));
    assert_eq!(target.executable, "/vega/FieldHost64.exe");
    assert_eq!(target.source_search_paths, vec!["/work", "/lib"]);
    assert!(!told(&target, "No IDE Library Path"));

    let mut bare = delphi();
    bare.rsvars = Rsvars::Missing;
    let target = built(build_debug_target(&project, &compiler(), &bare, &files));
    assert!(told(&target, "(rsvars.bat not found in compiler installation: "));
    // A variable that nothing defines is empty in a dproj.
    assert_eq!(target.executable, "/FieldHost64.exe");
}

#[test]
fn a_target_is_that_of_the_inputs_given() {
    let mut files = disk();
    let mut project = project("Demo");
    project.exe = Some(touch(&mut files, "/work/Demo.exe"));
    let library = IdeLibrarySettings::default();
    let error = Err("not today".to_string());
    let target = built(describe_debug_target(&project, &compiler(), error, library, &files));
    assert!(told(&target, "(not today)"));
}

#[test]
fn the_paths_consulted_lead_from_one_to_the_next() {
    let mut files = Files::new();
    let mut project = project("TestPkg64");
    project.dproj = Some("/work/TestPkg64.dproj".into());
    project.dpk = Some("/work/TestPkg.dpk".into());
    let listed = installed_paths_consulted(&project, &compiler(), &delphi(), &files);
    // Nothing can be launched as far as is known yet.
    assert_eq!(listed, vec!["/work/TestPkg64.dproj", "/work/TestPkg.dpk"]);

    package_with_dproj(&mut files);
    let listed = installed_paths_consulted(&project, &compiler(), &delphi(), &files);
    for path in [
        "/vega/FieldHost64.exe",
        "/vega/FieldHost64.map",
        "/vega/FieldHost64.rsm",
        "/vega/TestPkg64.bpl",
        "/work/Win64/Debug/TestPkg64.bpl",
        "/work",
        "/work/Win64/Debug",
        "/lib",
    ] {
        assert!(listed.contains(&path.to_string()), "{path} is not in {listed:?}");
    }
    assert!(!listed.contains(&"/vega/TestPkg64.dcp".to_string()));

    touch(&mut files, "/vega/TestPkg64.bpl");
    let listed = installed_paths_consulted(&project, &compiler(), &delphi(), &files);
    for path in ["/vega/TestPkg64.map", "/vega/TestPkg64.rsm", "/vega/TestPkg64.dcp"] {
        assert!(listed.contains(&path.to_string()), "{path} is not in {listed:?}");
    }
}

#[test]
fn what_else_is_on_disk_does_not_matter() {
    let mut files = disk();
    let mut project = project("Demo");
    project.exe = Some(touch(&mut files, "/work/Demo.exe"));
    let describe = |files: &Files| {
        let library = IdeLibrarySettings::default();
        let environment = Ok(IdeEnvironment::default());
        built(describe_debug_target(&project, &compiler(), environment, library, files)).render()
    };
    let before = describe(&files);
    let library = IdeLibrarySettings::default();
    let environment = Ok(IdeEnvironment::default());
    let listed = paths_consulted(&project, &compiler(), environment, library, &files);
    assert!(!listed.contains(&"/work/Other.exe".to_string()));
    touch(&mut files, "/work/Other.exe");
    assert_eq!(describe(&files), before);
}

#[test]
fn the_record_of_a_project_selects_before_its_dproj() {
    let mut files = disk();
    let mut project = project("Demo");
    let select = |project: &Project, files: &Files| {
        let selection = Selection::of(project, files);
        (selection.config, selection.platform)
    };
    let pair = |config: &str, platform: &str| (config.to_string(), platform.to_string());
    assert_eq!(select(&project, &files), pair("Debug", "Win32"));
    let source = dproj("Win64", "", "", "").replace(">Debug</Config>", ">Release</Config>");
    project.dproj = Some(write(&mut files, "/work/Demo.dproj", &source));
    assert_eq!(select(&project, &files), pair("Release", "Win64"));
    project.active_configuration = Some("Debug".into());
    assert_eq!(select(&project, &files), pair("Debug", "Win64"));
}

#[test]
fn a_directive_in_the_dpr_names_the_dll_when_the_dproj_is_silent() {
    let mut files = disk();
    let mut project = project("Lib");
    let source = dproj("Win32", "<GenDll>true</GenDll>", "", "");
    project.dproj = Some(write(&mut files, "/work/Lib.dproj", &source));
    project.dpr = Some("/work/Lib.dpr".into());
    project.exe = Some("/work/out/Lib.exe".into());
    project.host_application = Some(touch(&mut files, "/work/Host.exe"));
    let listed = installed_paths_consulted(&project, &compiler(), &delphi(), &files);
    assert!(listed.contains(&"/work/Lib.dpr".to_string()));

    write(&mut files, "/work/Lib.dpr", "library Lib;\n{$LIBSUFFIX '290'}\nend.\n");
    touch(&mut files, "/work/out/Lib290.dll");
    let target = built(build_debug_target_with(&project, &compiler(), &FakeIde::new(), &files));
    assert_eq!(target.kind, DebugTargetKind::Library);
    assert_eq!(target.modules[0].name, "Lib290.dll");
    assert_eq!(target.modules[0].binary.as_deref(), Some("/work/out/Lib290.dll"));
}

#[test]
fn an_unreadable_environment_leaves_bds_unresolved() {
    let mut files = disk();
    let mut project = project("Demo");
    project.exe = Some(touch(&mut files, "/work/Demo.exe"));
    let mut compiler = compiler();
    compiler.installation_path = "/bds".into();
    make_dir(&mut files, "/bds\\source");
    let mut ide = FakeIde::unavailable();
    ide.library.search_path = Some("$(BDSLIB)/x;$(ProjectDir)/units".into());
    make_dir(&mut files, "/work/units");
    let target = built(build_debug_target_with(&project, &compiler, &ide, &files));
    assert_eq!(target.source_search_paths, vec!["/work", "/work/units"]);

    // One that could be read and is silent derives it from the installation.
    ide.environment = Some(IdeEnvironment::default());
    let target = built(build_debug_target_with(&project, &compiler, &ide, &files));
    assert_eq!(target.source_search_paths, vec!["/work", "/work/units", "/bds/source"]);
}

#[test]
fn an_override_in_another_casing_wins_in_the_dproj() {
    let mut files = disk();
    let project = package_with_dproj(&mut files);
    let mut ide = FakeIde::new().with_variable("VegaDir", "/new");
    if let Some(environment) = &mut ide.environment {
        environment.rsvars.push(("VEGADIR".to_string(), "/old".to_string()));
    }
    let target = built(build_debug_target_with(&project, &compiler(), &ide, &files));
    assert_eq!(target.executable, "/new/FieldHost64.exe");
}

#[test]
fn settings_can_be_supplied_by_any_ide() {
    let mut files = disk();
    let mut project = project("Demo");
    project.exe = Some(touch(&mut files, "/work/Demo.exe"));
    let ides: Vec<Box<dyn IdeSettings>> =
        vec![Box::new(FakeIde::new()), Box::new(FakeIde::unavailable())];
    let told_of: Vec<bool> = ides
        .iter()
        .map(|ide| {
            let target =
                built(build_debug_target_with(&project, &compiler(), ide.as_ref(), &files));
            told(&target, "rsvars.bat not found")
        })
        .collect();
    assert_eq!(told_of, vec![false, true]);
}

#[test]
fn a_module_on_a_share_has_the_name_looked_for() {
    let mut files = disk();
    let mut project = project("Pkg");
    project.dpk = Some("/work/Pkg.dpk".into());
    project.host_application = Some(touch(&mut files, "//server/share/Host.exe"));
    touch(&mut files, "//server/share/Pkg.bpl");
    let target = built(build_debug_target_with(&project, &compiler(), &FakeIde::new(), &files));
    assert_eq!(target.modules[0].name, "Pkg.bpl");
    assert!(target.modules[0].binary.as_deref().unwrap().ends_with("/server/share/Pkg.bpl"));
}

#[test]
fn the_recorded_host_does_not_matter_once_the_dproj_is_evaluated() {
    let mut files = disk();
    let mut project = package_with_dproj(&mut files);
    let ide = FakeIde::new().with_variable("VEGADIR", "/vega");
    for recorded in [None, Some("/recorded/Host.exe".to_string())] {
        project.dproj_host_application = recorded;
        let target = built(build_debug_target_with(&project, &compiler(), &ide, &files));
        assert_eq!(target.executable, "/vega/FieldHost64.exe");
    }
}

// ─── Helpers ─────────────────────────────────────────────────────────────────

#[test]
fn paths_are_worked_off() {
    assert_eq!(normalize_path("/a/./b/../c/"), "/a/c");
    assert_eq!(normalize_path("/../a"), "/a");
    assert_eq!(normalize_path("a/b/.."), "a");
    assert_eq!(normalize_path("/"), "/");
    assert_eq!(normalize_path(""), "");
    assert_eq!(absolutize("x/../y", "/base"), "/base/y");
    assert_eq!(absolutize("/x", "/base"), "/x");
    assert_eq!(sibling("/a/b.exe", "map"), "/a/b.map");
    assert_eq!(sibling("/a/b", "map"), "/a/b.map");
    assert_eq!(file_name("/a/b.exe"), "b.exe");
    assert_eq!(file_name("/a/.."), "");
    assert_eq!(json_path(r"C:\a/b\c"), "C:/a/b/c");
}

#[test]
fn a_suffix_is_auto_or_what_stands_between_the_quotes() {
    let some = |s: &str| Some(s.to_string());
    assert_eq!(declared_suffix(some("auto"), None), some("AUTO"));
    assert_eq!(declared_suffix(None, some(" D29 ")), some("D29"));
    assert_eq!(declared_suffix(None, None), None);
}

#[test]
fn directives_are_found_in_any_casing_and_spacing() {
    let mut files = disk();
    let mut project = project("Demo");
    project.dpk = Some("/work/Demo.dpk".into());
    project.host_application = Some(touch(&mut files, "/work/Host.exe"));
    for (source, name) in [
        ("{$libsuffix  ' D29 ' }", "DemoD29.bpl"),
        ("{$LibSuffix auto}", "Demo290.bpl"),
        ("{$LIBSUFFIX '$(Auto)'}", "Demo290.bpl"),
        ("{$LIBSUFFIX '$(ProjectName)'}", "DemoDemo.bpl"),
        ("{$LIBSUFFIX '$(NOWHERE)'}", "Demo.bpl"),
        ("{$LIBSUFFIX}", "Demo.bpl"),
        ("{$LIBSUFFIX ''}", "Demo.bpl"),
        ("", "Demo.bpl"),
    ] {
        write(&mut files, "/work/Demo.dpk", source);
        let target = built(build_debug_target_with(&project, &compiler(), &FakeIde::new(), &files));
        assert_eq!(target.modules[0].name, name, "{source}");
    }
}

#[test]
fn there_are_no_symbols_by_default() {
    let symbols = SymbolFiles::default();
    assert_eq!((symbols.map.as_str(), symbols.rsm.as_str()), ("", ""));
}
