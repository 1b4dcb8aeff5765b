//! Laws of the inputs: what was read, and what is made of it.

use vstd::prelude::*;

use crate::builder;
use crate::builder::TargetError;
use crate::context;
use crate::context::TargetContext;
use crate::dproj;
use crate::environment;
use crate::environment::{IdeEnvironment, Installation, Rsvars};
use crate::files;
use crate::files::FileState;
use crate::ide;
use crate::macro_map;
use crate::paths;
use crate::project;
use crate::project::{CompilerConfiguration, Project};
use crate::registry;
use crate::registry::IdeLibrarySettings;
use crate::table;
use crate::target;
use crate::target::DebugTarget;
use crate::text;

verus! {

// ─── Plain values ────────────────────────────────────────────────────────────

/// The plain value of what was read has all of it.
pub proof fn plain_inputs_hide_nothing(
    environment: IdeEnvironment,
    library: IdeLibrarySettings,
    group: dproj::PropertyGroup,
    state: FileState,
    i: int,
)
    ensures
        environment@.rsvars.len() == environment.rsvars@.len(),
        0 <= i < environment.rsvars@.len() ==> environment@.rsvars[i] == (
            environment.rsvars@[i].0@,
            environment.rsvars@[i].1@,
        ),
        environment@.ide_variables.len() == environment.ide_variables@.len(),
        0 <= i < environment.ide_variables@.len() ==> environment@.ide_variables[i] == (
            environment.ide_variables@[i].0@,
            environment.ide_variables@[i].1@,
        ),
        environment@.user_dir == text::opt(environment.user_dir),
        environment@.common_dir == text::opt(environment.common_dir),
        library@.search_path == text::opt(library.search_path),
        library@.browsing_path == text::opt(library.browsing_path),
        library@.debug_dcu_path == text::opt(library.debug_dcu_path),
        library@.package_dpl_output == text::opt(library.package_dpl_output),
        library@.package_dcp_output == text::opt(library.package_dcp_output),
        group@.gen_dll == text::opt(group.gen_dll),
        group@.bpl_output == text::opt(group.bpl_output),
        group@.dcp_output == text::opt(group.dcp_output),
        group@.unit_search_path == text::opt(group.unit_search_path),
        group@.include_path == text::opt(group.include_path),
        group@.other == group.other@,
        state@.present == state.present,
        state@.is_file == state.is_file,
        state@.is_dir == state.is_dir,
        state.modified matches Some(time) ==> state@.modified == Some(time as int),
        state.modified is None ==> state@.modified is None,
        state@.contents == text::outcome(state.contents),
{
}

/// The plain value of a context has all of it, and that of an outcome is the
/// plain value of what came out.
pub proof fn plain_outcomes_hide_nothing(
    context: TargetContext,
    environment: Result<IdeEnvironment, String>,
    group: Result<dproj::PropertyGroup, String>,
    target: Result<DebugTarget, TargetError>,
)
    ensures
        context@.project == *context.project,
        context@.compiler == *context.compiler,
        context@.config == context.config@,
        context@.platform == context.platform@,
        context@.macros == context.macros@,
        context@.library == context.library@,
        match context.group {
            Some(group) => context@.group == Some(group@),
            None => context@.group is None,
        },
        match environment {
            Ok(read) => ide::environment_outcome(environment) == Ok::<
                environment::EnvironmentView,
                Seq<char>,
            >(read@),
            Err(error) => ide::environment_outcome(environment) == Err::<
                environment::EnvironmentView,
                Seq<char>,
            >(error@),
        },
        match group {
            Ok(found) => dproj::group_outcome(group) == Ok::<dproj::GroupView, Seq<char>>(found@),
            Err(error) => dproj::group_outcome(group) == Err::<dproj::GroupView, Seq<char>>(error@),
        },
        match target {
            Ok(found) => builder::target_outcome(target) == Ok::<
                target::TargetView,
                builder::ErrorView,
            >(found@),
            Err(TargetError::NoExecutable { project }) => builder::target_outcome(target) == Err::<
                target::TargetView,
                builder::ErrorView,
            >(builder::ErrorView::NoExecutable { project: project@ }),
            Err(TargetError::NoHostApplication { kind, project }) => builder::target_outcome(target)
                == Err::<target::TargetView, builder::ErrorView>(
                builder::ErrorView::NoHostApplication { kind, project: project@ },
            ),
        },
{
}

/// Nothing is set by default.
pub proof fn defaults_are_empty(name: Seq<char>)
    ensures
        environment::EnvironmentView::empty().rsvars.len() == 0,
        environment::EnvironmentView::empty().ide_variables.len() == 0,
        environment::EnvironmentView::empty().user_dir is None,
        environment::EnvironmentView::empty().common_dir is None,
        macro_map::MacroView::empty().get(name) is None,
        !macro_map::MacroView::empty().as_env().contains_key(name),
        registry::LibraryView::empty().search_path is None,
        registry::LibraryView::empty().browsing_path is None,
        registry::LibraryView::empty().debug_dcu_path is None,
        registry::LibraryView::empty().package_dpl_output is None,
        registry::LibraryView::empty().package_dcp_output is None,
{
}

/// At a path that was looked at there is what was found there; at any other
/// there is nothing.
pub proof fn nothing_is_found_where_nobody_looked(
    files: Map<Seq<char>, files::FileView>,
    path: Seq<char>,
)
    ensures
        files.contains_key(path) ==> files::at(files, path) == files[path],
        !files.contains_key(path) ==> {
            let there = files::at(files, path);
            &&& !there.present
            &&& !there.is_file
            &&& !there.is_dir
            &&& there.modified is None
            &&& there.contents is Err
        },
{
}

/// A table has for each name the value of the last pair with that name, however
/// many pairs there are, and no others.
pub proof fn tables_have_every_pair<V: View>(pairs: Seq<(String, V)>, name: Seq<char>, i: int)
    ensures
        table::is_last_named(pairs, name, i) ==> table::pairs_map(pairs).contains_key(name)
            && table::pairs_map(pairs)[name] == pairs[i].1@,
        (forall|j: int| 0 <= j < pairs.len() ==> (#[trigger] pairs[j]).0@ != name)
            ==> !table::pairs_map(pairs).contains_key(name),
    decreases pairs.len(),
{
    if pairs.len() > 0 {
        let before = pairs.drop_last();
        let last = pairs.len() - 1;
        assert(pairs[last] == pairs.last());
        tables_have_every_pair(before, name, i);
        if table::is_last_named(pairs, name, i) && i < last {
            assert(pairs[last].0@ != name);
            assert forall|j: int| i < j < before.len() implies (#[trigger] before[j]).0@ != name by {
                assert(before[j] == pairs[j]);
            }
            assert(before[i] == pairs[i]);
            assert(table::is_last_named(before, name, i));
        }
        if forall|j: int| 0 <= j < pairs.len() ==> (#[trigger] pairs[j]).0@ != name {
            assert forall|j: int| 0 <= j < before.len() implies (#[trigger] before[j]).0@ != name by {
                assert(before[j] == pairs[j]);
            }
            assert(pairs[last].0@ != name);
        }
    }
}

// ─── The registry ────────────────────────────────────────────────────────────

/// The number of a version is the one in front of its first dot, whatever comes
/// behind; a text that is no number there has the number zero.
pub proof fn versions_are_read_up_to_the_dot(front: Seq<char>, rest: Seq<char>)
    requires
        !front.contains('.'),
    ensures
        registry::major_of(front) == (match text::parsed_usize(front) {
            Some(n) => n,
            None => 0,
        }),
        registry::major_of(front + seq!['.'] + rest) == registry::major_of(front),
{
    registry::first_piece(front, seq!['.'] + rest, '.');
    assert(front + (seq!['.'] + rest) =~= front + seq!['.'] + rest);
}

/// Each setting of the library is the value of its own name in the key of the
/// platform, without the white space around it; a blank value is none.
pub proof fn settings_are_the_values_of_the_key(
    keys: Seq<(Seq<char>, Seq<(Seq<char>, Seq<char>)>)>,
    path: Seq<char>,
)
    ensures
        ({
            let settings = registry::library_of(keys, path);
            match table::named(keys, path) {
                Some(key) => {
                    &&& is_value_of(settings.search_path, key, "Search Path"@)
                    &&& is_value_of(settings.browsing_path, key, "Browsing Path"@)
                    &&& is_value_of(settings.debug_dcu_path, key, "Debug DCU Path"@)
                    &&& is_value_of(settings.package_dpl_output, key, "Package DPL Output"@)
                    &&& is_value_of(settings.package_dcp_output, key, "Package DCP Output"@)
                },
                None => {
                    &&& settings.search_path is None
                    &&& settings.browsing_path is None
                    &&& settings.debug_dcu_path is None
                    &&& settings.package_dpl_output is None
                    &&& settings.package_dcp_output is None
                },
            }
        }),
{
}

/// Whether a setting is the value of that name, trimmed, or none where it is
/// blank or not there.
pub open spec fn is_value_of(
    setting: Option<Seq<char>>,
    key: Seq<(Seq<char>, Seq<char>)>,
    name: Seq<char>,
) -> bool {
    match table::named(key, name) {
        Some(value) => if text::blank(value) {
            setting is None
        } else {
            setting == Some(text::trimmed(value))
        },
        None => setting is None,
    }
}

/// The settings of the IDE are looked for under the path of the version's root,
/// and there under the platform.
pub proof fn settings_are_those_of_version_and_platform(
    compiler: CompilerConfiguration,
    installation: Installation,
    platform: Seq<char>,
)
    ensures
        ({
            let major = compiler.product_version as nat;
            let path = "SOFTWARE\\"@ + registry::vendor_of(major) + "\\"@ + "BDS"@ + "\\"@ + (
            text::decimal(major) + ".0"@) + "\\Library\\"@ + platform;
            ide::installed_library(compiler, installation, platform) == registry::library_of(
                registry::keys_texts(installation.registry.keys@),
                path,
            )
        }),
        forall|i: int|
            0 <= i < installation.registry.keys@.len()
                ==> #[trigger] registry::keys_texts(installation.registry.keys@)[i] == (
                installation.registry.keys@[i].0@,
                macro_map::pair_texts(installation.registry.keys@[i].1@),
            ),
        registry::keys_texts(installation.registry.keys@).len()
            == installation.registry.keys@.len(),
{
}

/// The overrides are all of those of the first entry for the version; where no
/// entry is for it there are none.
pub proof fn overrides_are_those_of_the_version(
    overrides: Seq<(usize, Vec<(String, String)>)>,
    major: nat,
    i: int,
)
    requires
        0 <= i <= overrides.len(),
        forall|j: int| 0 <= j < i ==> (#[trigger] overrides[j]).0 != major,
    ensures
        i < overrides.len() && overrides[i].0 == major ==> {
            let found = registry::overrides_of(overrides, major);
            &&& found.len() == overrides[i].1@.len()
            &&& forall|k: int|
                0 <= k < found.len() ==> #[trigger] found[k] == (
                    overrides[i].1@[k].0@,
                    overrides[i].1@[k].1@,
                )
        },
        i == overrides.len() ==> registry::overrides_of(overrides, major).len() == 0,
    decreases i,
{
    if i > 0 {
        assert(overrides[0].0 != major);
        let rest = overrides.skip(1);
        assert forall|j: int| 0 <= j < i - 1 implies (#[trigger] rest[j]).0 != major by {
            assert(rest[j] == overrides[j + 1]);
        }
        if i < overrides.len() {
            assert(rest[i - 1] == overrides[i]);
        }
        overrides_are_those_of_the_version(rest, major, i - 1);
    }
}

// ─── The installation ────────────────────────────────────────────────────────

/// An installation whose `rsvars.bat` was parsed has an environment: all the
/// variables of that file, the overrides of its version, and the data
/// directories; one without has the words for what is missing.
pub proof fn environment_is_what_was_read(
    compiler: CompilerConfiguration,
    installation: Installation,
)
    ensures
        ({
            let version = text::decimal(compiler.product_version as nat) + ".0"@;
            let file = paths::path_join(
                paths::path_join(compiler.installation_path@, "bin"@),
                "rsvars.bat"@,
            );
            match (installation.rsvars, ide::installed_environment(compiler, installation)) {
                (Rsvars::Parsed(variables), Ok(read)) => {
                    &&& read.rsvars.len() == variables@.len()
                    &&& forall|i: int|
                        0 <= i < variables@.len() ==> #[trigger] read.rsvars[i] == (
                            variables@[i].0@,
                            variables@[i].1@,
                        )
                    &&& read.ide_variables == registry::overrides_of(
                        installation.registry.overrides@,
                        registry::major_of(version),
                    )
                    &&& read.user_dir == environment::user_dir_of(
                        text::opt(installation.documents),
                        version,
                    )
                    &&& read.common_dir == environment::common_dir_of(
                        text::opt(installation.public_profile),
                        version,
                    )
                },
                (Rsvars::Missing, Err(words)) => words
                    == "rsvars.bat not found in compiler installation: "@ + file,
                (Rsvars::Unreadable(_), Err(words)) => words == "Failed to parse "@ + file,
                _ => false,
            }
        }),
{
}

/// The data directories are those of the version below a folder of the IDE, in
/// the user's documents and in those of the public profile: the folder is
/// another one up to version seven.
pub proof fn data_directories_are_by_version(
    documents: Seq<char>,
    profile: Seq<char>,
    version: Seq<char>,
)
    ensures
        ({
            let folder = if registry::major_of(version) <= 7 {
                "RAD Studio"@
            } else {
                paths::path_join("Embarcadero"@, "Studio"@)
            };
            let shared = paths::path_join(profile, "Documents"@);
            &&& environment::user_dir_of(Some(documents), version) == Some(
                paths::path_join(paths::path_join(documents, folder), version),
            )
            &&& environment::user_dir_of(None, version) is None
            &&& environment::common_dir_of(Some(profile), version) == Some(
                paths::path_join(paths::path_join(shared, folder), version),
            )
            &&& environment::common_dir_of(None, version) is None
        }),
{
}

// ─── The project ─────────────────────────────────────────────────────────────

/// Configuration and platform are those chosen for the project; else those of
/// its dproj, where that can be parsed and has them; else `Debug` and `Win32`.
pub proof fn configuration_and_platform_come_in_order(
    project: Project,
    files: Map<Seq<char>, files::FileView>,
)
    ensures
        ({
            let config = context::effective_config(project, files);
            let platform = context::effective_platform(project, files);
            let source = context::usable_source(project, files);
            &&& match project.active_configuration {
                Some(chosen) => config == chosen@,
                None => match source {
                    Some(source) => match dproj::dproj_configuration(source) {
                        Ok(found) => config == found,
                        Err(_) => config == "Debug"@,
                    },
                    None => config == "Debug"@,
                },
            }
            &&& match project.active_platform {
                Some(chosen) => platform == chosen@,
                None => match source {
                    Some(source) => match dproj::dproj_platform(source) {
                        Ok(found) => platform == found,
                        Err(_) => platform == "Win32"@,
                    },
                    None => platform == "Win32"@,
                },
            }
            &&& match project.dproj {
                Some(path) => match files::at(files, path@).contents {
                    Ok(text) => (source == Some(text) <==> dproj::dproj_parse_error(text) is None)
                        && (source is None <==> dproj::dproj_parse_error(text) is Some),
                    Err(_) => source is None,
                },
                None => source is None,
            }
        }),
{
}

/// A dproj is its whole text where that can be read and parsed; else it is the
/// reason why not, that of the disk or that of the parser.
pub proof fn dprojs_are_read_or_say_why_not(
    project: Project,
    files: Map<Seq<char>, files::FileView>,
)
    ensures
        project.dproj is None ==> context::dproj_source(project, files) is None,
        project.dproj matches Some(path) ==> match files::at(files, path@).contents {
            Ok(source) => match dproj::dproj_parse_error(source) {
                Some(reason) => context::dproj_source(project, files) == Some(
                    Err::<Seq<char>, Seq<char>>(reason),
                ),
                None => context::dproj_source(project, files) == Some(
                    Ok::<Seq<char>, Seq<char>>(source),
                ),
            },
            Err(reason) => context::dproj_source(project, files) == Some(
                Err::<Seq<char>, Seq<char>>(reason),
            ),
        },
{
}

/// The dproj is evaluated, where it can be, for the effective configuration and
/// platform, with the macros of the installation and of the project.
pub proof fn dproj_is_evaluated_with_the_macros(
    project: Project,
    compiler: CompilerConfiguration,
    environment: Result<environment::EnvironmentView, Seq<char>>,
    library: registry::LibraryView,
    files: Map<Seq<char>, files::FileView>,
)
    ensures
        ({
            let context = context::context_of(project, compiler, environment, library, files);
            let macros = context::project_macros(project, compiler, environment);
            &&& context.project == project
            &&& context.compiler == compiler
            &&& context.library == library
            &&& context.config == context::effective_config(project, files)
            &&& context.platform == context::effective_platform(project, files)
            &&& match context::usable_source(project, files) {
                Some(source) => match dproj::dproj_group(
                    source,
                    macros.as_env(),
                    context.config,
                    context.platform,
                ) {
                    Ok(group) => context.group == Some(group),
                    Err(_) => context.group is None,
                },
                None => context.group is None,
            }
        }),
{
}

/// The macros of a context: its own six names have the values of the project,
/// of the compiler, and of what it is described for; every other name has the
/// value that the installation gives it, if any.
pub proof fn contexts_define_six_names(
    project: Project,
    compiler: CompilerConfiguration,
    environment: Result<environment::EnvironmentView, Seq<char>>,
    library: registry::LibraryView,
    files: Map<Seq<char>, files::FileView>,
    name: Seq<char>,
)
    ensures
        ({
            let context = context::context_of(project, compiler, environment, library, files);
            let of_dproj = context::project_macros(project, compiler, environment);
            let key = text::upper(name);
            let version = text::decimal(compiler.package_version as nat);
            let given = match environment {
                Ok(read) => read.macros(compiler.installation_path@).get(name),
                Err(_) => None,
            };
            let for_dproj = if key == text::upper("Auto"@) {
                Some(version)
            } else if key == text::upper("ProjectName"@) {
                Some(project.name@)
            } else if key == text::upper("ProjectDir"@) {
                Some(project.directory@)
            } else {
                given
            };
            &&& of_dproj.get(name) == for_dproj
            &&& context.macros.get(name) == (if key == text::upper("Platform"@) {
                Some(context.platform)
            } else if key == text::upper("Configuration"@) || key == text::upper("Config"@) {
                Some(context.config)
            } else {
                for_dproj
            })
        }),
{
    reveal_strlit("ProjectDir");
    reveal_strlit("ProjectName");
    reveal_strlit("Auto");
    reveal_strlit("Config");
    reveal_strlit("Configuration");
    reveal_strlit("Platform");
}

/// The order in which configuration and platform are looked for.
pub proof fn chosen_then_found_then_fallback(
    chosen: Option<Seq<char>>,
    found: Option<Seq<char>>,
    fallback: Seq<char>,
)
    ensures
        chosen matches Some(value) ==> project::first_of(chosen, found, fallback) == value,
        chosen is None && found is Some ==> Some(project::first_of(chosen, found, fallback))
            == found,
        chosen is None && found is None ==> project::first_of(chosen, found, fallback) == fallback,
{
}

} // verus!
