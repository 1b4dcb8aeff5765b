//! Laws of debug targets.

use vstd::prelude::*;

use crate::artefacts;
use crate::builder;
use crate::context;
use crate::directive;
use crate::environment;
use crate::files;
use crate::ide;
use crate::laws::paths as path_laws;
use crate::laws::search;
use crate::macro_map;
use crate::modules;
use crate::paths;
use crate::project::{CompilerConfiguration, Project};
use crate::registry;
use crate::resolve;
use crate::run_args;
use crate::sources;
use crate::target;
use crate::target::DebugTargetKind;
use crate::text;

verus! {

/// A project has a target unless there is nothing to launch: no Host
/// Application, and no program that was built.
pub proof fn a_target_needs_something_to_launch(
    project: Project,
    compiler: CompilerConfiguration,
    environment: Result<environment::EnvironmentView, Seq<char>>,
    library: registry::LibraryView,
    files: Map<Seq<char>, files::FileView>,
)
    ensures
        ({
            let context = context::context_of(project, compiler, environment, library, files);
            let outcome = builder::target_of(project, compiler, environment, library, files);
            let kind = resolve::kind_of(context);
            let unhosted = builder::host_of(context) is None;
            &&& outcome is Err <==> unhosted && (kind != DebugTargetKind::Program
                || project.exe is None)
            &&& outcome == Err::<target::TargetView, builder::ErrorView>(
                builder::ErrorView::NoExecutable { project: project.name@ },
            ) <==> unhosted && kind == DebugTargetKind::Program && project.exe is None
            &&& outcome == Err::<target::TargetView, builder::ErrorView>(
                builder::ErrorView::NoHostApplication { kind, project: project.name@ },
            ) <==> unhosted && kind != DebugTargetKind::Program
        }),
{
}

/// A usable Host Application chosen for the project is what is launched,
/// whatever the dproj says and whatever the project builds.
pub proof fn chosen_host_wins(
    project: Project,
    compiler: CompilerConfiguration,
    environment: Result<environment::EnvironmentView, Seq<char>>,
    library: registry::LibraryView,
    files: Map<Seq<char>, files::FileView>,
    host: Seq<char>,
)
    requires
        text::opt(project.host_application) == Some(host),
        !text::blank(host),
        !macro_map::has_reference(host),
    ensures
        builder::target_of(project, compiler, environment, library, files) matches Ok(target)
            && target.executable == paths::slashed(host) && target.host_application == Some(
            paths::slashed(host),
        ),
{
}

/// A dproj that was evaluated and names no Host Application means that there
/// is none, whatever it named before, unless one was chosen.
pub proof fn evaluated_dproj_decides(context: context::ContextView)
    requires
        context.group is Some,
        builder::usable(text::opt(context.project.host_application)) is None,
    ensures
        builder::host_of(context) == resolve::dproj_host(context),
{
}

/// Once the dproj is evaluated, what it named before does not matter at all.
pub proof fn recorded_host_does_not_matter_once_evaluated(
    context: context::ContextView,
    recorded: Option<String>,
)
    requires
        context.group is Some,
    ensures
        builder::host_of(context) == builder::host_of(
            context::ContextView {
                project: Project { dproj_host_application: recorded, ..context.project },
                ..context
            },
        ),
{
}

/// What the dproj named before counts only where it cannot be evaluated now.
pub proof fn recorded_host_is_the_last_resort(context: context::ContextView)
    requires
        context.group is None,
        builder::usable(text::opt(context.project.host_application)) is None,
    ensures
        builder::host_of(context) == builder::usable(
            text::opt(context.project.dproj_host_application),
        ),
{
}

/// The project's own binary is a module exactly when it is not what is
/// launched; then it is the only one.
pub proof fn own_binary_is_launched_or_a_module(
    context: context::ContextView,
    files: Map<Seq<char>, files::FileView>,
    executable: Seq<char>,
)
    ensures
        builder::launches_own_program(context) ==> builder::modules_of(
            context,
            files,
            executable,
        ).len() == 0,
        !builder::launches_own_program(context) ==> builder::modules_of(
            context,
            files,
            executable,
        ).len() == 1,
        builder::launches_own_program(context) && builder::executable_of(context) is Ok
            ==> (context.project.exe matches Some(exe) && builder::executable_of(context) == Ok::<
            Seq<char>,
            builder::ErrorView,
        >(exe@)),
        !builder::launches_own_program(context) && builder::executable_of(context) is Ok
            ==> (builder::host_of(context) matches Some(host) && builder::executable_of(context)
            == Ok::<Seq<char>, builder::ErrorView>(host)),
{
}

/// A Host Application in the target is what is launched.
pub proof fn host_application_is_the_executable(
    project: Project,
    compiler: CompilerConfiguration,
    environment: Result<environment::EnvironmentView, Seq<char>>,
    library: registry::LibraryView,
    files: Map<Seq<char>, files::FileView>,
)
    requires
        builder::target_of(project, compiler, environment, library, files) is Ok,
    ensures
        ({
            let target = builder::target_of(project, compiler, environment, library, files)->Ok_0;
            &&& target.host_application matches Some(host) ==> host == target.executable
            &&& target.host_application is None ==> target.kind == DebugTargetKind::Program
                && target.modules.len() == 0
        }),
{
}

/// Where the dproj gives no suffix, the main source does: that of the package,
/// or of the library.
pub proof fn main_source_declares_the_suffix(
    context: context::ContextView,
    files: Map<Seq<char>, files::FileView>,
)
    requires
        resolve::element(context, "DllSuffix"@) matches Some(suffix) ==> text::blank(suffix),
    ensures
        context.project.dpk matches Some(dpk) ==> resolve::declared(context, files)
            == directive::directive_suffix(files, dpk@),
        context.project.dpk is None && context.project.dpr is Some ==> resolve::declared(
            context,
            files,
        ) == directive::directive_suffix(files, context.project.dpr->0@),
{
}

/// An automatic suffix is the package version of the compiler.
pub proof fn automatic_suffix_is_the_package_version(
    context: context::ContextView,
    files: Map<Seq<char>, files::FileView>,
)
    requires
        resolve::declared(context, files) matches Some(suffix) && (text::same_name(suffix, "auto"@)
            || text::same_name(suffix, "$(Auto)"@)),
    ensures
        resolve::stem_of(context, files) == context.project.name@ + text::decimal(
            context.compiler.package_version as nat,
        ),
{
}

/// A package is matched by exactly its name, the project's and then its suffix:
/// one that is found is the file of that name in the first directory that has
/// one; one that is not found is a module of that name without binary.
pub proof fn package_is_matched_by_its_exact_name(
    context: context::ContextView,
    files: Map<Seq<char>, files::FileView>,
    host: Seq<char>,
)
    ensures
        ({
            let name = context.project.name@ + resolve::lib_suffix_of(context, files) + ".bpl"@;
            let dirs = modules::bpl_dirs(context, host);
            let module = modules::package_of(context, files, host);
            match modules::found_bpl(context, files, host) {
                Some(bpl) => {
                    &&& exists|i: int| search::is_first_found(files, dirs, name, bpl, i)
                    &&& module.binary == Some(paths::slashed(bpl))
                    &&& module.name == paths::name_of_file(bpl)
                },
                None => module.name == name && module.binary is None,
            }
        }),
{
    match modules::found_bpl(context, files, host) {
        Some(bpl) => {
            search::found_file_is_in_a_directory(
                files,
                modules::bpl_dirs(context, host),
                modules::bpl_name(context, files),
                bpl,
            );
        },
        None => {},
    }
}

/// A DLL is matched by exactly its name, the project's and then its suffix, in
/// one directory; one that is not found is a module of that name without binary.
pub proof fn library_is_matched_by_its_exact_name(
    context: context::ContextView,
    files: Map<Seq<char>, files::FileView>,
)
    ensures
        ({
            let name = context.project.name@ + resolve::lib_suffix_of(context, files) + ".dll"@;
            let path = paths::path_join(modules::dll_dir(context), name);
            let module = modules::library_of(context, files);
            match modules::found_dll(context, files) {
                Some(dll) => {
                    &&& files::at(files, path).is_file
                    &&& dll == paths::normalized(path)
                    &&& module.binary == Some(paths::slashed(dll))
                    &&& module.name == paths::name_of_file(dll)
                },
                None => {
                    &&& !files::at(files, path).is_file
                    &&& module.name == name
                    &&& module.binary is None
                },
            }
        }),
{
    let dirs = seq![modules::dll_dir(context)];
    assert(dirs[0] == modules::dll_dir(context));
    reveal_with_fuel(artefacts::built_file, 2);
}

// ─── Warnings ────────────────────────────────────────────────────────────────

proof fn part_is_contained(a: Seq<Seq<char>>, b: Seq<Seq<char>>, c: Seq<Seq<char>>, s: Seq<char>)
    requires
        b.contains(s),
    ensures
        (a + b + c).contains(s),
{
    let i = choose|i: int| 0 <= i < b.len() && b[i] == s;
    assert((a + b + c)[a.len() + i] == s);
}

proof fn first_warnings_are_told(
    a: Seq<Seq<char>>,
    b: Seq<Seq<char>>,
    c: Seq<Seq<char>>,
    d: Seq<Seq<char>>,
)
    ensures
        a.len() > 0 ==> (a + b + c + d).contains(a[0]),
        b.len() > 0 ==> (a + b + c + d).contains(b[0]),
        c.len() > 0 ==> (a + b + c + d).contains(c[0]),
        d.len() > 0 ==> (a + b + c + d).contains(d[0]),
{
    let all = a + b + c + d;
    if a.len() > 0 {
        assert(all[0] == a[0]);
    }
    if b.len() > 0 {
        assert(all[a.len() as int] == b[0]);
    }
    if c.len() > 0 {
        assert(all[(a.len() + b.len()) as int] == c[0]);
    }
    if d.len() > 0 {
        assert(all[(a.len() + b.len() + c.len()) as int] == d[0]);
    }
}

/// What was told of the inputs stays in the warnings of the target.
pub proof fn warnings_told_before_stay(
    context: context::ContextView,
    files: Map<Seq<char>, files::FileView>,
    executable: Seq<char>,
    told: Seq<Seq<char>>,
)
    ensures
        forall|warning: Seq<char>| #[trigger]
            told.contains(warning) ==> builder::described(
                context,
                files,
                executable,
                told,
            ).warnings.contains(warning),
{
    let of_executable = artefacts::executable_warnings(
        files,
        executable,
        builder::launches_own_program(context),
    );
    let of_platform = builder::bitness_warnings(text::lowercase(context.platform));
    let of_modules = builder::modules_warnings(context, files, executable);
    let warnings = builder::described(context, files, executable, told).warnings;
    let none = Seq::<Seq<char>>::empty();
    assert(warnings =~= none + told + (of_executable + of_platform + of_modules));
    assert forall|warning: Seq<char>| #[trigger] told.contains(warning) implies warnings.contains(
        warning,
    ) by {
        part_is_contained(none, told, of_executable + of_platform + of_modules, warning);
    }
}

/// No input that fails to load is passed over: an environment that could not
/// be read, a dproj that could not be evaluated, a configuration that it does
/// not have, and a missing library path are each reported in the target.
pub proof fn failed_inputs_are_reported(
    project: Project,
    compiler: CompilerConfiguration,
    environment: Result<environment::EnvironmentView, Seq<char>>,
    library: registry::LibraryView,
    files: Map<Seq<char>, files::FileView>,
)
    requires
        builder::target_of(project, compiler, environment, library, files) is Ok,
    ensures
        ({
            let warnings = builder::target_of(
                project,
                compiler,
                environment,
                library,
                files,
            )->Ok_0.warnings;
            let config = context::effective_config(project, files);
            let platform = context::effective_platform(project, files);
            &&& environment matches Err(error) ==> warnings.contains(
                "The IDE environment of "@ + compiler.product_name@ + " could not be read ("@
                    + error + "); $(BDS)-relative paths will stay unresolved."@,
            )
            &&& (project.dproj matches Some(path) && context::dproj_source(project, files)
                matches Some(Err(error))) ==> warnings.contains(
                "Could not evaluate "@ + project.dproj->0@ + " ("@ + context::dproj_source(
                    project,
                    files,
                )->0->Err_0
                    + "); the target is described from DevKit's recorded project state alone, so config/platform, host application and search paths may be incomplete."@,
            )
            &&& context::evaluated_group(project, compiler, environment, files) matches Some(
                Err(error),
            ) ==> warnings.contains(
                "The dproj defines no property group for "@ + config + "/"@ + platform + " ("@
                    + error
                    + "); output directories, host application and search paths from the dproj are unavailable."@,
            )
            &&& library.search_path is None && library.browsing_path is None
                ==> warnings.contains(
                "No IDE Library Path found for "@ + platform + " under "@ + ide::default_key_path(
                    compiler,
                )
                    + "; only the project's own paths and the compiler's source tree are searched for sources."@,
            )
        }),
{
    let context = context::context_of(project, compiler, environment, library, files);
    let executable = builder::executable_of(context)->Ok_0;
    let told = context::context_warnings(project, compiler, environment, library, files);
    let config = context::effective_config(project, files);
    let platform = context::effective_platform(project, files);
    let group = context::evaluated_group(project, compiler, environment, files);
    first_warnings_are_told(
        context::environment_warnings(compiler, environment),
        context::dproj_warnings(project, files),
        context::group_warnings(group, config, platform),
        context::library_warnings(library, platform, compiler),
    );
    warnings_told_before_stay(context, files, executable, told);
}

/// A missing executable, and a platform that is none of Windows, are reported;
/// and such a platform has no bitness.
pub proof fn missing_executable_and_foreign_platform_are_reported(
    context: context::ContextView,
    files: Map<Seq<char>, files::FileView>,
    executable: Seq<char>,
    told: Seq<Seq<char>>,
)
    ensures
        ({
            let target = builder::described(context, files, executable, told);
            &&& !files::at(files, executable).present ==> target.warnings.contains(
                artefacts::executable_not_found(executable),
            )
            &&& target.bitness is None ==> target.warnings.contains(
                "Platform "@ + text::lowercase(context.platform)
                    + " is not a Windows target; a Windows debugger cannot debug it."@,
            )
            &&& target.bitness matches Some(bits) ==> bits == 32 || bits == 64
        }),
{
    let lower = text::lowercase(context.platform);
    let of_executable = artefacts::executable_warnings(
        files,
        executable,
        builder::launches_own_program(context),
    );
    let of_platform = builder::bitness_warnings(lower);
    let of_modules = builder::modules_warnings(context, files, executable);
    let warnings = builder::described(context, files, executable, told).warnings;
    assert(warnings =~= told + of_executable + (of_platform + of_modules));
    assert(warnings =~= (told + of_executable) + of_platform + of_modules);
    if !files::at(files, executable).present {
        assert(of_executable.contains(of_executable[0]));
        part_is_contained(told, of_executable, of_platform + of_modules, of_executable[0]);
    }
    if builder::bitness_of(lower) is None {
        assert(of_platform.contains(of_platform[0]));
        part_is_contained(told + of_executable, of_platform, of_modules, of_platform[0]);
    }
}

/// Every problem of the executable and of the modules is reported.
pub proof fn problems_of_binaries_are_reported(
    context: context::ContextView,
    files: Map<Seq<char>, files::FileView>,
    executable: Seq<char>,
    told: Seq<Seq<char>>,
    problem: Seq<char>,
)
    requires
        artefacts::executable_warnings(
            files,
            executable,
            builder::launches_own_program(context),
        ).contains(problem) || builder::modules_warnings(context, files, executable).contains(
            problem,
        ),
    ensures
        builder::described(context, files, executable, told).warnings.contains(problem),
{
    let of_executable = artefacts::executable_warnings(
        files,
        executable,
        builder::launches_own_program(context),
    );
    let of_platform = builder::bitness_warnings(text::lowercase(context.platform));
    let of_modules = builder::modules_warnings(context, files, executable);
    let warnings = builder::described(context, files, executable, told).warnings;
    let none = Seq::<Seq<char>>::empty();
    if of_executable.contains(problem) {
        assert(warnings =~= told + of_executable + (of_platform + of_modules));
        part_is_contained(told, of_executable, of_platform + of_modules, problem);
    } else {
        assert(warnings =~= (told + of_executable + of_platform) + of_modules + none);
        part_is_contained(told + of_executable + of_platform, of_modules, none, problem);
    }
}

/// Whether the module of the project is there with everything that belongs to
/// it, or is itself what is launched.
pub open spec fn has_sound_module(
    context: context::ContextView,
    files: Map<Seq<char>, files::FileView>,
    executable: Seq<char>,
) -> bool {
    match resolve::kind_of(context) {
        DebugTargetKind::Program => builder::launches_own_program(context) || (
        context.project.exe matches Some(exe) && files::at(files, exe@).present
            && search::has_fresh_symbols(files, exe@)),
        DebugTargetKind::Package => modules::found_bpl(context, files, executable) matches Some(
            bpl,
        ) && search::has_fresh_symbols(files, bpl) && modules::found_dcp(context, files, bpl) is Some,
        DebugTargetKind::Library => modules::found_dll(context, files) matches Some(dll)
            && search::has_fresh_symbols(files, dll),
    }
}

/// Nothing is said of inputs that could all be read, and something of others.
pub proof fn sound_inputs_have_no_warnings(
    project: Project,
    compiler: CompilerConfiguration,
    environment: Result<environment::EnvironmentView, Seq<char>>,
    library: registry::LibraryView,
    files: Map<Seq<char>, files::FileView>,
)
    ensures
        context::context_warnings(project, compiler, environment, library, files).len() == 0 <==> {
            &&& environment is Ok
            &&& project.dproj is Some ==> context::context_of(
                project,
                compiler,
                environment,
                library,
                files,
            ).group is Some
            &&& library.search_path is Some || library.browsing_path is Some
        },
{
}

/// Nothing is said of a module that is there with everything that belongs to
/// it, and something of others.
pub proof fn sound_modules_have_no_warnings(
    context: context::ContextView,
    files: Map<Seq<char>, files::FileView>,
    executable: Seq<char>,
)
    ensures
        builder::modules_warnings(context, files, executable).len() == 0 <==> has_sound_module(
            context,
            files,
            executable,
        ),
{
    match resolve::kind_of(context) {
        DebugTargetKind::Program => match context.project.exe {
            Some(exe) => {
                search::fresh_symbols_pass(files, exe@, paths::name_of_file(exe@));
            },
            None => {},
        },
        DebugTargetKind::Package => match modules::found_bpl(context, files, executable) {
            Some(bpl) => {
                search::fresh_symbols_pass(files, bpl, paths::name_of_file(bpl));
            },
            None => {},
        },
        DebugTargetKind::Library => match modules::found_dll(context, files) {
            Some(dll) => {
                search::fresh_symbols_pass(files, dll, paths::name_of_file(dll));
            },
            None => {},
        },
    }
}

/// Warnings are given where something is wrong and nowhere else: a target has
/// none exactly when every input could be read, what is launched is there for
/// Windows, and the project's own binary is there with fresh symbols.
pub proof fn sound_targets_have_no_warnings(
    project: Project,
    compiler: CompilerConfiguration,
    environment: Result<environment::EnvironmentView, Seq<char>>,
    library: registry::LibraryView,
    files: Map<Seq<char>, files::FileView>,
)
    requires
        builder::target_of(project, compiler, environment, library, files) is Ok,
    ensures
        ({
            let context = context::context_of(project, compiler, environment, library, files);
            let target = builder::target_of(project, compiler, environment, library, files)->Ok_0;
            let executable = builder::executable_of(context)->Ok_0;
            target.warnings.len() == 0 <==> {
                &&& environment is Ok
                &&& project.dproj is Some ==> context.group is Some
                &&& library.search_path is Some || library.browsing_path is Some
                &&& files::at(files, executable).present
                &&& builder::launches_own_program(context) ==> search::has_fresh_symbols(files, executable)
                &&& target.bitness is Some
                &&& has_sound_module(context, files, executable)
            }
        }),
{
    let context = context::context_of(project, compiler, environment, library, files);
    let executable = builder::executable_of(context)->Ok_0;
    let told = context::context_warnings(project, compiler, environment, library, files);
    sound_inputs_have_no_warnings(project, compiler, environment, library, files);
    sound_modules_have_no_warnings(context, files, executable);
    search::fresh_symbols_pass(files, executable, "the executable"@);
    assert(builder::described(context, files, executable, told).warnings.len() == told.len()
        + artefacts::executable_warnings(
        files,
        executable,
        builder::launches_own_program(context),
    ).len() + builder::bitness_warnings(text::lowercase(context.platform)).len()
        + builder::modules_warnings(context, files, executable).len());
}

// ─── Paths ───────────────────────────────────────────────────────────────────

/// Whether a path has forward slashes alone.
pub open spec fn has_no_backslash(path: Seq<char>) -> bool {
    forall|i: int| 0 <= i < path.len() ==> #[trigger] path[i] != '\\'
}

/// Whether a path that there may be has forward slashes alone.
pub open spec fn has_no_backslash_if_any(path: Option<Seq<char>>) -> bool {
    path matches Some(path) ==> has_no_backslash(path)
}

/// Every path in a target has forward slashes alone.
pub proof fn target_paths_have_forward_slashes(
    context: context::ContextView,
    files: Map<Seq<char>, files::FileView>,
    executable: Seq<char>,
    told: Seq<Seq<char>>,
)
    ensures
        ({
            let target = builder::described(context, files, executable, told);
            &&& has_no_backslash(target.executable)
            &&& has_no_backslash(target.symbols.map)
            &&& has_no_backslash(target.symbols.rsm)
            &&& has_no_backslash(target.project_file)
            &&& has_no_backslash(target.source_root)
            &&& has_no_backslash_if_any(target.main_source)
            &&& has_no_backslash_if_any(target.host_application)
            &&& forall|i: int|
                0 <= i < target.source_search_paths.len() ==> has_no_backslash(
                    #[trigger] target.source_search_paths[i],
                )
            &&& forall|i: int|
                0 <= i < target.modules.len() ==> {
                    let module = #[trigger] target.modules[i];
                    &&& has_no_backslash_if_any(module.binary)
                    &&& has_no_backslash_if_any(module.map)
                    &&& has_no_backslash_if_any(module.rsm)
                    &&& has_no_backslash_if_any(module.dcp)
                }
        }),
{
    let target = builder::described(context, files, executable, told);
    let dirs = sources::distinct(sources::source_candidates(context));
    search::existing_directories_are_kept(files, dirs);
    assert forall|i: int| 0 <= i < target.source_search_paths.len() implies has_no_backslash(
        #[trigger] target.source_search_paths[i],
    ) by {
        let path = sources::existing(files, dirs)[i];
        assert(search::is_existing_in(files, dirs, path));
    }
}

// ─── All of it ───────────────────────────────────────────────────────────────

/// What a target says of its project, its paths and what it is described for:
/// every path stands for the one on record or found, whole.
pub proof fn targets_say_what_they_are_of(
    project: Project,
    compiler: CompilerConfiguration,
    environment: Result<environment::EnvironmentView, Seq<char>>,
    library: registry::LibraryView,
    files: Map<Seq<char>, files::FileView>,
)
    requires
        builder::target_of(project, compiler, environment, library, files) is Ok,
    ensures
        ({
            let context = context::context_of(project, compiler, environment, library, files);
            let target = builder::target_of(project, compiler, environment, library, files)->Ok_0;
            let launched = match builder::host_of(context) {
                Some(host) => host,
                None => project.exe->0@,
            };
            let source = match project.dpr {
                Some(dpr) => Some(dpr@),
                None => text::opt(project.dpk),
            };
            let file = match project.dproj {
                Some(dproj) => dproj@,
                None => match source {
                    Some(source) => source,
                    None => project.directory@,
                },
            };
            &&& target.project_id == Some(project.id)
            &&& target.project == project.name@
            &&& target.compiler == compiler.product_name@
            &&& target.config == context::effective_config(project, files)
            &&& target.platform == context::effective_platform(project, files)
            &&& target.kind == resolve::kind_of(context)
            &&& target.bitness == builder::bitness_of(text::lowercase(target.platform))
            &&& path_laws::stands_for(target.executable, launched)
            &&& path_laws::stands_for(
                target.symbols.map,
                paths::path_with_extension(launched, "map"@),
            )
            &&& path_laws::stands_for(
                target.symbols.rsm,
                paths::path_with_extension(launched, "rsm"@),
            )
            &&& path_laws::stands_for_if_any(target.host_application, builder::host_of(context))
            &&& path_laws::stands_for_if_any(target.main_source, source)
            &&& path_laws::stands_for(target.project_file, file)
            &&& path_laws::stands_for(
                target.source_root,
                paths::normalized(project.directory@),
            )
            &&& target.source_search_paths == sources::search_paths(context, files)
            &&& target.args == run_args::run_arguments(
                text::opt(project.dproj_run_params),
                text::opt(project.start_parameters),
            )
        }),
{
}

/// The modules of a target are those of its kind: none where the project's own
/// program is launched, else the one of the hosted program, of the package that
/// the executable loads, or of the library.
pub proof fn modules_follow_the_kind(
    context: context::ContextView,
    files: Map<Seq<char>, files::FileView>,
    executable: Seq<char>,
    told: Seq<Seq<char>>,
)
    ensures
        ({
            let target = builder::described(context, files, executable, told);
            match resolve::kind_of(context) {
                DebugTargetKind::Program => if builder::host_of(context) is None {
                    target.modules.len() == 0
                } else {
                    target.modules =~= seq![modules::hosted_program(context)]
                },
                DebugTargetKind::Package => target.modules =~= seq![
                    modules::package_of(context, files, executable),
                ],
                DebugTargetKind::Library => target.modules =~= seq![
                    modules::library_of(context, files),
                ],
            }
        }),
{
}

/// The bitness is that of the platform's name in lower case; any other name
/// has none, and the words for it.
pub proof fn bitness_is_by_name(lower: Seq<char>)
    ensures
        builder::bitness_of(lower) == Some(32u8) <==> lower == "win32"@,
        builder::bitness_of(lower) == Some(64u8) <==> lower == "win64"@ || lower == "win64x"@,
        builder::bitness_of(lower) is None <==> lower != "win32"@ && lower != "win64"@ && lower
            != "win64x"@,
        builder::bitness_of(lower) is Some ==> builder::bitness_warnings(lower).len() == 0,
        builder::bitness_of(lower) is None ==> builder::bitness_warnings(lower) =~= seq![
            "Platform "@ + lower
                + " is not a Windows target; a Windows debugger cannot debug it."@,
        ],
{
    reveal_strlit("win32");
    reveal_strlit("win64");
    reveal_strlit("win64x");
    assert("win32"@.len() == 5);
    assert("win64x"@.len() == 6);
    assert("win32"@[3] == '3');
    assert("win64"@[3] == '6');
}

/// The warnings of a target come in order, each of them: what could not be read
/// of the environment, the dproj, its group and the library settings, then what
/// is said of the executable, of the platform, and of the modules.
pub proof fn warnings_come_in_order(
    project: Project,
    compiler: CompilerConfiguration,
    environment: Result<environment::EnvironmentView, Seq<char>>,
    library: registry::LibraryView,
    files: Map<Seq<char>, files::FileView>,
)
    requires
        builder::target_of(project, compiler, environment, library, files) is Ok,
    ensures
        ({
            let context = context::context_of(project, compiler, environment, library, files);
            let target = builder::target_of(project, compiler, environment, library, files)->Ok_0;
            let executable = builder::executable_of(context)->Ok_0;
            let own = resolve::kind_of(context) == DebugTargetKind::Program && builder::host_of(
                context,
            ) is None;
            let of_modules = match resolve::kind_of(context) {
                DebugTargetKind::Program => if own {
                    Seq::empty()
                } else {
                    modules::hosted_program_warnings(context, files)
                },
                DebugTargetKind::Package => modules::package_warnings(context, files, executable),
                DebugTargetKind::Library => modules::library_warnings(context, files),
            };
            target.warnings == context::environment_warnings(compiler, environment)
                + context::dproj_warnings(project, files) + context::group_warnings(
                context::evaluated_group(project, compiler, environment, files),
                context.config,
                context.platform,
            ) + context::library_warnings(library, context.platform, compiler)
                + artefacts::executable_warnings(files, executable, own)
                + builder::bitness_warnings(text::lowercase(context.platform)) + of_modules
        }),
{
}

/// An input that could be read gives no warning, and any other gives one.
pub proof fn one_warning_for_each_failed_input(
    project: Project,
    compiler: CompilerConfiguration,
    environment: Result<environment::EnvironmentView, Seq<char>>,
    library: registry::LibraryView,
    files: Map<Seq<char>, files::FileView>,
)
    ensures
        context::environment_warnings(compiler, environment).len() == (if environment is Ok {
            0nat
        } else {
            1nat
        }),
        context::dproj_warnings(project, files).len() == (if project.dproj is None
            || context::usable_source(project, files) is Some {
            0nat
        } else {
            1nat
        }),
        context::library_warnings(
            library,
            context::effective_platform(project, files),
            compiler,
        ).len() == (if library.search_path is None && library.browsing_path is None {
            1nat
        } else {
            0nat
        }),
        ({
            let group = context::evaluated_group(project, compiler, environment, files);
            let told = context::group_warnings(
                group,
                context::effective_config(project, files),
                context::effective_platform(project, files),
            );
            told.len() == (if group matches Some(Err(_)) {
                1nat
            } else {
                0nat
            })
        }),
        context::evaluated_group(project, compiler, environment, files) is Some
            <==> context::usable_source(project, files) is Some,
{
}

/// The words for a project without a target name it and say what to do.
pub proof fn errors_in_words(project: Seq<char>, kind: DebugTargetKind)
    ensures
        (builder::ErrorView::NoExecutable { project }).words() == "Project \""@ + project
            + "\" has no executable to debug. Compile it first."@,
        (builder::ErrorView::NoHostApplication { kind, project }).words() == (if kind
            == DebugTargetKind::Package {
            "Package"@
        } else {
            "Library"@
        }) + " \""@ + project
            + "\" has no Host Application to debug through. Set one via Project > Options > Debugger in the Delphi IDE, or DevKit's \"Set Host Application\"."@,
{
}

} // verus!
