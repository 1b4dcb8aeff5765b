//! Building the description of a debug target.

use vstd::prelude::*;
use vstd::string::*;

use crate::artefacts;
use crate::context;
use crate::context::{Selection, TargetContext};
use crate::environment;
use crate::environment::{IdeEnvironment, Installation};
use crate::files;
use crate::files::Files;
use crate::ide;
use crate::ide::{IdeSettings, InstalledIde};
use crate::macro_map;
use crate::modules;
use crate::paths;
use crate::project::{CompilerConfiguration, Project};
use crate::registry;
use crate::registry::IdeLibrarySettings;
use crate::resolve;
use crate::run_args;
use crate::sources;
use crate::target;
use crate::target::{DebugModule, DebugTarget, DebugTargetKind, SymbolFiles};
use crate::text;

verus! {

/// Why a project has no debug target.
pub enum TargetError {
    /// A program that was not built yet.
    NoExecutable { project: String },
    /// A package or a library without a Host Application.
    NoHostApplication { kind: DebugTargetKind, project: String },
}

/// The plain value of a [`TargetError`].
pub enum ErrorView {
    NoExecutable { project: Seq<char> },
    NoHostApplication { kind: DebugTargetKind, project: Seq<char> },
}

impl View for TargetError {
    type V = ErrorView;

    open spec fn view(&self) -> ErrorView {
        match self {
            TargetError::NoExecutable { project } => ErrorView::NoExecutable { project: project@ },
            TargetError::NoHostApplication { kind, project } => ErrorView::NoHostApplication {
                kind: *kind,
                project: project@,
            },
        }
    }
}

impl ErrorView {
    /// The error in words.
    pub open spec fn words(self) -> Seq<char> {
        match self {
            ErrorView::NoExecutable { project } => "Project \""@ + project
                + "\" has no executable to debug. Compile it first."@,
            ErrorView::NoHostApplication { kind, project } => (if kind == DebugTargetKind::Package {
                "Package"@
            } else {
                "Library"@
            }) + " \""@ + project
                + "\" has no Host Application to debug through. Set one via Project > Options > Debugger in the Delphi IDE, or DevKit's \"Set Host Application\"."@,
        }
    }
}

impl TargetError {
    /// The error in words.
    pub fn message(&self) -> (res: String)
        ensures
            res@ == self@.words(),
    {
        match self {
            TargetError::NoExecutable { project } => "Project \"".to_owned().concat(
                project.as_str(),
            ).concat("\" has no executable to debug. Compile it first."),
            TargetError::NoHostApplication { kind, project } => {
                let what = if *kind == DebugTargetKind::Package {
                    "Package"
                } else {
                    "Library"
                };
                what.to_owned().concat(" \"").concat(project.as_str()).concat(
                    "\" has no Host Application to debug through. Set one via Project > Options > Debugger in the Delphi IDE, or DevKit's \"Set Host Application\".",
                )
            },
        }
    }
}

// ─── What is launched ────────────────────────────────────────────────────────

/// A Host Application on record, where it can be launched: it is not blank,
/// and no macro in it is unresolved.
pub open spec fn usable(host: Option<Seq<char>>) -> Option<Seq<char>> {
    match host {
        Some(host) if !text::blank(host) && !macro_map::has_reference(host) => Some(host),
        _ => None,
    }
}

/// A copy of a Host Application on record, where it can be launched.
pub fn usable_host(host: &Option<String>) -> (res: Option<String>)
    ensures
        text::opt(res) == usable(text::opt(*host)),
{
    match host {
        Some(host) => if !text::is_blank(host.as_str()) && !macro_map::contains_reference(
            host.as_str(),
        ) {
            Some(host.clone())
        } else {
            None
        },
        None => None,
    }
}

/// The Host Application: the one chosen for the project wins; then the one
/// that the dproj names for the described configuration and platform; and only
/// where the dproj could not be evaluated the one it named before.
pub open spec fn host_of(context: context::ContextView) -> Option<Seq<char>> {
    match usable(text::opt(context.project.host_application)) {
        Some(chosen) => Some(chosen),
        None => match resolve::dproj_host(context) {
            Some(named) => Some(named),
            None => if context.group is Some {
                None
            } else {
                usable(text::opt(context.project.dproj_host_application))
            },
        },
    }
}

/// The process to launch or attach to.
pub open spec fn executable_of(context: context::ContextView) -> Result<Seq<char>, ErrorView> {
    match host_of(context) {
        Some(host) => Ok(host),
        None => match resolve::kind_of(context) {
            DebugTargetKind::Program => match context.project.exe {
                Some(exe) => Ok(exe@),
                None => Err(ErrorView::NoExecutable { project: context.project.name@ }),
            },
            kind => Err(ErrorView::NoHostApplication { kind, project: context.project.name@ }),
        },
    }
}

/// Whether the project's own program is launched, not a host.
pub open spec fn launches_own_program(context: context::ContextView) -> bool {
    resolve::kind_of(context) == DebugTargetKind::Program && host_of(context) is None
}

impl<'a> TargetContext<'a> {
    /// The Host Application. DevKit's own override wins; then the dproj read
    /// live for the described config/platform (the persisted discovery was
    /// made for the *active* ones, and a `--platform` override may select a
    /// different host, or none). The persisted value is the fallback only
    /// when the dproj could not be evaluated: a dproj that was read and names
    /// no host for this platform means there is none.
    pub fn host_application(&self) -> (res: Option<String>)
        ensures
            text::opt(res) == host_of(self@),
    {
        match usable_host(&self.project.host_application) {
            Some(chosen) => Some(chosen),
            None => match self.dproj_host_application() {
                Some(named) => Some(named),
                None => if self.group.is_some() {
                    None
                } else {
                    usable_host(&self.project.dproj_host_application)
                },
            },
        }
    }

    /// The process to launch or attach to.
    pub fn executable(&self) -> (res: Result<String, TargetError>)
        ensures
            match res {
                Ok(executable) => executable_of(self@) == Ok::<Seq<char>, ErrorView>(executable@),
                Err(error) => executable_of(self@) == Err::<Seq<char>, ErrorView>(error@),
            },
    {
        match self.host_application() {
            Some(host) => Ok(host),
            None => match self.kind() {
                DebugTargetKind::Program => match &self.project.exe {
                    Some(exe) => Ok(exe.clone()),
                    None => Err(TargetError::NoExecutable { project: self.project.name.clone() }),
                },
                kind => Err(
                    TargetError::NoHostApplication { kind, project: self.project.name.clone() },
                ),
            },
        }
    }
}

// ─── Bitness ─────────────────────────────────────────────────────────────────

/// The bitness of a platform, by its name in lower case.
pub open spec fn bitness_of(lower: Seq<char>) -> Option<u8> {
    if lower == "win32"@ {
        Some(32)
    } else if lower == "win64"@ || lower == "win64x"@ {
        Some(64)
    } else {
        None
    }
}

/// That a platform is none of Windows, if so; by its name in lower case.
pub open spec fn bitness_warnings(lower: Seq<char>) -> Seq<Seq<char>> {
    if bitness_of(lower) is None {
        seq![
            "Platform "@ + lower
                + " is not a Windows target; a Windows debugger cannot debug it."@,
        ]
    } else {
        Seq::empty()
    }
}

/// The bitness of the platform whose name in lower case is `lower`; a warning
/// where it is none of Windows.
pub fn platform_bitness(lower: &str, warnings: &mut Vec<String>) -> (res: Option<u8>)
    ensures
        res == bitness_of(lower@),
        text::texts(final(warnings)@) == text::texts(old(warnings)@) + bitness_warnings(lower@),
{
    let bitness: Option<u8> = if text::is_same(lower, "win32") {
        Some(32)
    } else if text::is_same(lower, "win64") || text::is_same(lower, "win64x") {
        Some(64)
    } else {
        text::push_text(
            warnings,
            "Platform ".to_owned().concat(lower).concat(
                " is not a Windows target; a Windows debugger cannot debug it.",
            ),
        );
        None
    };
    proof {
        assert(text::texts(warnings@) =~= text::texts(old(warnings)@) + bitness_warnings(lower@));
    }
    bitness
}

// ─── Modules ─────────────────────────────────────────────────────────────────

/// The modules of a target that launches `executable`.
pub open spec fn modules_of(
    context: context::ContextView,
    files: Map<Seq<char>, files::FileView>,
    executable: Seq<char>,
) -> Seq<target::ModuleView> {
    match resolve::kind_of(context) {
        DebugTargetKind::Program => if launches_own_program(context) {
            Seq::empty()
        } else {
            seq![modules::hosted_program(context)]
        },
        DebugTargetKind::Package => seq![modules::package_of(context, files, executable)],
        DebugTargetKind::Library => seq![modules::library_of(context, files)],
    }
}

/// What is wrong with the modules of a target that launches `executable`.
pub open spec fn modules_warnings(
    context: context::ContextView,
    files: Map<Seq<char>, files::FileView>,
    executable: Seq<char>,
) -> Seq<Seq<char>> {
    match resolve::kind_of(context) {
        DebugTargetKind::Program => if launches_own_program(context) {
            Seq::empty()
        } else {
            modules::hosted_program_warnings(context, files)
        },
        DebugTargetKind::Package => modules::package_warnings(context, files, executable),
        DebugTargetKind::Library => modules::library_warnings(context, files),
    }
}

/// Whether a package or DLL among the modules has exactly the name that it is
/// looked for under, on drives and network shares.
pub open spec fn module_is_named_exactly(
    context: context::ContextView,
    files: Map<Seq<char>, files::FileView>,
    executable: Seq<char>,
    modules: Seq<target::ModuleView>,
) -> bool {
    match resolve::kind_of(context) {
        DebugTargetKind::Program => true,
        DebugTargetKind::Package => modules::package_is_on_drive_or_share(
            context,
            files,
            executable,
        ) ==> modules[0].name == modules::bpl_name(context, files),
        DebugTargetKind::Library => modules::library_is_on_drive_or_share(context, files)
            ==> modules[0].name == modules::dll_name(context, files),
    }
}

impl<'a> TargetContext<'a> {
    /// The modules of a target that launches `executable`.
    pub fn modules(
        &self,
        executable: &str,
        files: &Files,
        warnings: &mut Vec<String>,
    ) -> (res: Vec<DebugModule>)
        ensures
            target::modules_view(res@) == modules_of(self@, files@, executable@),
            module_is_named_exactly(
                self@,
                files@,
                executable@,
                target::modules_view(res@),
            ),
            text::texts(final(warnings)@) == text::texts(old(warnings)@) + modules_warnings(
                self@,
                files@,
                executable@,
            ),
    {
        let mut modules: Vec<DebugModule> = Vec::new();
        match self.kind() {
            DebugTargetKind::Program => if self.host_application().is_some() {
                modules.push(self.hosted_program_module(files, warnings));
            },
            DebugTargetKind::Package => {
                modules.push(self.package_module(executable, files, warnings));
            },
            DebugTargetKind::Library => {
                modules.push(self.library_module(files, warnings));
            },
        }
        proof {
            assert(target::modules_view(modules@) =~= modules_of(self@, files@, executable@));
            assert(text::texts(warnings@) =~= text::texts(old(warnings)@) + modules_warnings(
                self@,
                files@,
                executable@,
            ));
        }
        modules
    }
}

// ─── The target ──────────────────────────────────────────────────────────────

/// The `.dpr` or the `.dpk`.
pub open spec fn main_source_of(project: Project) -> Option<Seq<char>> {
    match project.dpr {
        Some(dpr) => Some(dpr@),
        None => text::opt(project.dpk),
    }
}

/// The `.dproj` when there is one, else the main source, else the directory.
pub open spec fn project_file_of(project: Project) -> Seq<char> {
    match project.dproj {
        Some(dproj) => dproj@,
        None => match main_source_of(project) {
            Some(source) => source,
            None => project.directory@,
        },
    }
}

/// The target described in `context`, where it launches `executable`; `told`
/// is what was wrong before.
pub open spec fn described(
    context: context::ContextView,
    files: Map<Seq<char>, files::FileView>,
    executable: Seq<char>,
    told: Seq<Seq<char>>,
) -> target::TargetView {
    let project = context.project;
    let lower = text::lowercase(context.platform);
    target::TargetView {
        project_id: Some(project.id),
        project: project.name@,
        project_file: paths::slashed(project_file_of(project)),
        main_source: paths::slashed_opt(main_source_of(project)),
        kind: resolve::kind_of(context),
        executable: paths::slashed(executable),
        host_application: paths::slashed_opt(host_of(context)),
        compiler: context.compiler.product_name@,
        config: context.config,
        platform: context.platform,
        bitness: bitness_of(lower),
        symbols: target::SymbolsView {
            map: paths::slashed(paths::path_with_extension(executable, "map"@)),
            rsm: paths::slashed(paths::path_with_extension(executable, "rsm"@)),
        },
        source_root: paths::slashed(paths::normalized(project.directory@)),
        source_search_paths: sources::search_paths(context, files),
        modules: modules_of(context, files, executable),
        args: run_args::run_arguments(
            text::opt(project.dproj_run_params),
            text::opt(project.start_parameters),
        ),
        warnings: told + artefacts::executable_warnings(
            files,
            executable,
            launches_own_program(context),
        ) + bitness_warnings(lower) + modules_warnings(context, files, executable),
    }
}

/// The debug target of a project, or why it has none.
pub open spec fn target_of(
    project: Project,
    compiler: CompilerConfiguration,
    environment: Result<environment::EnvironmentView, Seq<char>>,
    library: registry::LibraryView,
    files: Map<Seq<char>, files::FileView>,
) -> Result<target::TargetView, ErrorView> {
    let context = context::context_of(project, compiler, environment, library, files);
    match executable_of(context) {
        Ok(executable) => Ok(
            described(
                context,
                files,
                executable,
                context::context_warnings(project, compiler, environment, library, files),
            ),
        ),
        Err(error) => Err(error),
    }
}

/// The plain value of a target, or of the error that there is none.
pub open spec fn target_outcome(r: Result<DebugTarget, TargetError>) -> Result<
    target::TargetView,
    ErrorView,
> {
    match r {
        Ok(target) => Ok(target@),
        Err(error) => Err(error@),
    }
}

/// Whether the bitness of a target follows its platform, in whatever casing;
/// said of a platform whose name is ASCII.
pub open spec fn bitness_follows_platform(target: target::TargetView) -> bool {
    vstd::utf8::is_ascii_chars(target.platform) ==> target.bitness == bitness_of(
        text::lower(target.platform),
    )
}

/// What holds of a target beyond [`target_of`]: its bitness follows the
/// platform, and a package or DLL has exactly the name looked for.
pub open spec fn target_facts(
    project: Project,
    compiler: CompilerConfiguration,
    environment: Result<environment::EnvironmentView, Seq<char>>,
    library: registry::LibraryView,
    files: Map<Seq<char>, files::FileView>,
    target: target::TargetView,
) -> bool {
    let context = context::context_of(project, compiler, environment, library, files);
    &&& bitness_follows_platform(target)
    &&& executable_of(context) matches Ok(executable) && module_is_named_exactly(
        context,
        files,
        executable,
        target.modules,
    )
}

/// Describes the debug target of a project that builds with `compiler`, from
/// what was read of the installation and found on disk.
pub fn build_debug_target(
    project: &Project,
    compiler: &CompilerConfiguration,
    installation: &Installation,
    files: &Files,
) -> (res: Result<DebugTarget, TargetError>)
    ensures
        target_outcome(res) == target_of(
            *project,
            *compiler,
            ide::installed_environment(*compiler, *installation),
            ide::installed_library(
                *compiler,
                *installation,
                context::effective_platform(*project, files@),
            ),
            files@,
        ),
        res matches Ok(target) ==> target_facts(
            *project,
            *compiler,
            ide::installed_environment(*compiler, *installation),
            ide::installed_library(
                *compiler,
                *installation,
                context::effective_platform(*project, files@),
            ),
            files@,
            target@,
        ),
{
    build_debug_target_with(project, compiler, &InstalledIde { compiler, installation }, files)
}

/// [`build_debug_target`] with the IDE inputs supplied by `ide`: its
/// environment, and its library settings for the effective platform. Whatever
/// they are, the target is the one that [`describe_debug_target`] gives for
/// them. Pure with respect to global state: everything needed is passed in.
pub fn build_debug_target_with<I: IdeSettings + ?Sized>(
    project: &Project,
    compiler: &CompilerConfiguration,
    ide: &I,
    files: &Files,
) -> (res: Result<DebugTarget, TargetError>)
    ensures
        exists|
            environment: Result<IdeEnvironment, String>,
            platform: &str,
            library: IdeLibrarySettings,
        |
            #![trigger call_ensures(I::environment, (ide,), environment), call_ensures(I::library_settings, (ide, platform), library)]
            {
                &&& call_ensures(I::environment, (ide,), environment)
                &&& call_ensures(I::library_settings, (ide, platform), library)
                &&& platform@ == context::effective_platform(*project, files@)
                &&& target_outcome(res) == target_of(
                    *project,
                    *compiler,
                    ide::environment_outcome(environment),
                    library@,
                    files@,
                )
                &&& res matches Ok(target) ==> target_facts(
                    *project,
                    *compiler,
                    ide::environment_outcome(environment),
                    library@,
                    files@,
                    target@,
                )
            },
{
    let environment = ide.environment();
    let selection = Selection::of(project, files);
    let platform: &str = selection.platform.as_str();
    let library = ide.library_settings(platform);
    proof {
        assert(call_ensures(I::environment, (ide,), environment));
        assert(call_ensures(I::library_settings, (ide, platform), library));
    }
    describe_selected(project, compiler, environment, selection, library, files)
}

/// Describes the debug target of a project that builds with `compiler`, for
/// the environment and the library settings given.
pub fn describe_debug_target(
    project: &Project,
    compiler: &CompilerConfiguration,
    environment: Result<IdeEnvironment, String>,
    library: IdeLibrarySettings,
    files: &Files,
) -> (res: Result<DebugTarget, TargetError>)
    ensures
        target_outcome(res) == target_of(
            *project,
            *compiler,
            ide::environment_outcome(environment),
            library@,
            files@,
        ),
        res matches Ok(target) ==> target_facts(
            *project,
            *compiler,
            ide::environment_outcome(environment),
            library@,
            files@,
            target@,
        ),
{
    let selection = Selection::of(project, files);
    describe_selected(project, compiler, environment, selection, library, files)
}

fn describe_selected(
    project: &Project,
    compiler: &CompilerConfiguration,
    environment: Result<IdeEnvironment, String>,
    selection: Selection,
    library: IdeLibrarySettings,
    files: &Files,
) -> (res: Result<DebugTarget, TargetError>)
    requires
        selection.is_of(*project, files@),
    ensures
        target_outcome(res) == target_of(
            *project,
            *compiler,
            ide::environment_outcome(environment),
            library@,
            files@,
        ),
        res matches Ok(target) ==> target_facts(
            *project,
            *compiler,
            ide::environment_outcome(environment),
            library@,
            files@,
            target@,
        ),
{
    let mut warnings: Vec<String> = Vec::new();
    proof {
        assert(text::texts(warnings@) =~= Seq::<Seq<char>>::empty());
    }
    let ghost read = ide::environment_outcome(environment);
    let ghost settings = library@;
    let context = TargetContext::new(
        project,
        compiler,
        environment,
        selection,
        library,
        files,
        &mut warnings,
    );
    let ghost told = text::texts(warnings@);
    proof {
        assert(told =~= context::context_warnings(*project, *compiler, read, settings, files@));
    }

    let kind = context.kind();
    let host_application = context.host_application();
    let executable = match context.executable() {
        Ok(executable) => executable,
        Err(error) => {
            return Err(error);
        },
    };
    // The launched executable's own symbols matter only when it is the
    // project's program; a host's symbols are optional, the module's count.
    let own_program: bool = kind == DebugTargetKind::Program && host_application.is_none();
    artefacts::check_executable_artefacts(executable.as_str(), own_program, files, &mut warnings);

    let lower = text::to_lowercase(context.platform.as_str());
    let bitness: Option<u8> = platform_bitness(lower.as_str(), &mut warnings);

    let modules = context.modules(executable.as_str(), files, &mut warnings);
    let source_search_paths = context.source_search_paths(files);
    let args = run_args::run_args(&project.dproj_run_params, &project.start_parameters);

    let main_source = match &project.dpr {
        Some(dpr) => Some(dpr.clone()),
        None => text::clone_opt(&project.dpk),
    };
    let project_file = match &project.dproj {
        Some(dproj) => dproj.clone(),
        None => match &main_source {
            Some(source) => source.clone(),
            None => project.directory.clone(),
        },
    };
    proof {
        reveal_strlit("map");
        reveal_strlit("rsm");
    }
    let target = DebugTarget {
        project_id: Some(project.id),
        project: project.name.clone(),
        project_file: paths::json_path(project_file.as_str()),
        main_source: paths::json_path_opt(&main_source),
        kind,
        executable: paths::json_path(executable.as_str()),
        host_application: paths::json_path_opt(&host_application),
        compiler: compiler.product_name.clone(),
        config: context.config.clone(),
        platform: context.platform.clone(),
        bitness,
        symbols: SymbolFiles {
            map: paths::json_path(paths::sibling(executable.as_str(), "map").as_str()),
            rsm: paths::json_path(paths::sibling(executable.as_str(), "rsm").as_str()),
        },
        source_root: paths::json_path(paths::normalize_path(project.directory.as_str()).as_str()),
        source_search_paths,
        modules,
        args,
        warnings,
    };
    proof {
        assert(target@ =~= described(context@, files@, executable@, told));
    }
    Ok(target)
}

} // verus!
