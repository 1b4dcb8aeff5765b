//! Which paths the description of a target depends on, so that a caller knows
//! where to look before it asks for the description.

use vstd::prelude::*;

use crate::artefacts;
use crate::builder;
use crate::context;
use crate::context::{Selection, TargetContext};
use crate::environment;
use crate::environment::{IdeEnvironment, Installation};
use crate::files;
use crate::files::Files;
use crate::ide;
use crate::ide::{IdeSettings, InstalledIde};
use crate::modules;
use crate::paths;
use crate::project::{CompilerConfiguration, Project};
use crate::registry;
use crate::registry::IdeLibrarySettings;
use crate::resolve;
use crate::sources;
use crate::target::DebugTargetKind;
use crate::text;

verus! {

/// A binary and the symbol files next to it.
pub open spec fn beside(binary: Seq<char>) -> Seq<Seq<char>> {
    seq![
        binary,
        paths::path_with_extension(binary, "map"@),
        paths::path_with_extension(binary, "rsm"@),
    ]
}

/// Where a file of the given name is looked for.
pub open spec fn candidates(directories: Seq<Seq<char>>, file_name: Seq<char>) -> Seq<Seq<char>> {
    directories.map_values(|dir: Seq<char>| paths::path_join(dir, file_name))
}

/// The paths that the modules depend on.
pub open spec fn module_paths(
    context: context::ContextView,
    files: Map<Seq<char>, files::FileView>,
    executable: Seq<char>,
) -> Seq<Seq<char>> {
    match resolve::kind_of(context) {
        DebugTargetKind::Program => match context.project.exe {
            Some(exe) => beside(exe@),
            None => Seq::empty(),
        },
        DebugTargetKind::Package => candidates(
            modules::bpl_dirs(context, executable),
            modules::bpl_name(context, files),
        ) + (match modules::found_bpl(context, files, executable) {
            Some(binary) => beside(binary) + candidates(
                modules::dcp_dirs(context, binary),
                modules::dcp_name(context),
            ),
            None => Seq::empty(),
        }),
        DebugTargetKind::Library => candidates(
            seq![modules::dll_dir(context)],
            modules::dll_name(context, files),
        ) + (match modules::found_dll(context, files) {
            Some(binary) => beside(binary),
            None => Seq::empty(),
        }),
    }
}

/// The paths that everything but the project's own files depends on.
pub open spec fn built_paths(
    context: context::ContextView,
    files: Map<Seq<char>, files::FileView>,
) -> Seq<Seq<char>> {
    match builder::executable_of(context) {
        Ok(executable) => beside(executable) + module_paths(context, files, executable)
            + sources::distinct(sources::source_candidates(context)),
        Err(_) => Seq::empty(),
    }
}

/// The paths that the description of a target depends on, as far as they
/// follow from what was found so far.
pub open spec fn consulted(
    project: Project,
    compiler: CompilerConfiguration,
    environment: Result<environment::EnvironmentView, Seq<char>>,
    library: registry::LibraryView,
    files: Map<Seq<char>, files::FileView>,
) -> Seq<Seq<char>> {
    artefacts::dir_list(text::opt(project.dproj)) + artefacts::dir_list(
        resolve::suffix_source(project),
    ) + built_paths(
        context::context_of(project, compiler, environment, library, files),
        files,
    )
}

fn push_beside(list: &mut Vec<String>, binary: &str)
    ensures
        text::texts(final(list)@) == text::texts(old(list)@) + beside(binary@),
{
    proof {
        reveal_strlit("map");
        reveal_strlit("rsm");
    }
    list.push(binary.to_owned());
    list.push(paths::sibling(binary, "map"));
    list.push(paths::sibling(binary, "rsm"));
    proof {
        assert(text::texts(list@) =~= text::texts(old(list)@) + beside(binary@));
    }
}

fn push_candidates(list: &mut Vec<String>, directories: &Vec<String>, file_name: &str)
    ensures
        text::texts(final(list)@) == text::texts(old(list)@) + candidates(
            text::texts(directories@),
            file_name@,
        ),
{
    let ghost before = text::texts(list@);
    let ghost all = candidates(text::texts(directories@), file_name@);
    let mut i: usize = 0;
    proof {
        assert(text::texts(list@) =~= before + all.take(0));
    }
    while i < directories.len()
        invariant
            i <= directories@.len(),
            all == candidates(text::texts(directories@), file_name@),
            text::texts(list@) == before + all.take(i as int),
        decreases directories@.len() - i,
    {
        text::push_text(list, paths::join(directories[i].as_str(), file_name));
        i = i + 1;
        proof {
            assert(all[i - 1] == paths::path_join(directories@[i - 1]@, file_name@));
            assert(text::texts(list@) =~= before + all.take(i as int));
        }
    }
    proof {
        assert(all.take(i as int) == all);
    }
}

impl<'a> TargetContext<'a> {
    fn push_module_paths(&self, list: &mut Vec<String>, executable: &str, files: &Files)
        ensures
            text::texts(final(list)@) == text::texts(old(list)@) + module_paths(
                self@,
                files@,
                executable@,
            ),
    {
        match self.kind() {
            DebugTargetKind::Program => match &self.project.exe {
                Some(exe) => push_beside(list, exe.as_str()),
                None => {},
            },
            DebugTargetKind::Package => {
                let name = self.bpl_name(files);
                let directories = self.bpl_directories(executable);
                push_candidates(list, &directories, name.as_str());
                match artefacts::find_built_file(&directories, name.as_str(), files) {
                    Some(binary) => {
                        push_beside(list, binary.as_str());
                        push_candidates(
                            list,
                            &self.dcp_directories(binary.as_str()),
                            self.dcp_name().as_str(),
                        );
                    },
                    None => {},
                }
            },
            DebugTargetKind::Library => {
                let name = self.dll_name(files);
                let directories = self.dll_directories();
                push_candidates(list, &directories, name.as_str());
                match artefacts::find_built_file(&directories, name.as_str(), files) {
                    Some(binary) => push_beside(list, binary.as_str()),
                    None => {},
                }
            },
        }
        proof {
            assert(text::texts(list@) =~= text::texts(old(list)@) + module_paths(
                self@,
                files@,
                executable@,
            ));
        }
    }

    fn push_built_paths(&self, list: &mut Vec<String>, files: &Files)
        ensures
            text::texts(final(list)@) == text::texts(old(list)@) + built_paths(self@, files@),
    {
        match self.executable() {
            Ok(executable) => {
                push_beside(list, executable.as_str());
                self.push_module_paths(list, executable.as_str(), files);
                text::append_texts(list, sources::distinct_paths(&self.source_directories()));
            },
            Err(_) => {},
        }
        proof {
            assert(text::texts(list@) =~= text::texts(old(list)@) + built_paths(self@, files@));
        }
    }
}

/// The paths that the target of `project` depends on, as far as they follow
/// from what was found so far. Once each of them was looked at, the
/// description is that of the disk.
pub fn paths_consulted(
    project: &Project,
    compiler: &CompilerConfiguration,
    environment: Result<IdeEnvironment, String>,
    library: IdeLibrarySettings,
    files: &Files,
) -> (res: Vec<String>)
    ensures
        text::texts(res@) == consulted(
            *project,
            *compiler,
            ide::environment_outcome(environment),
            library@,
            files@,
        ),
{
    let ghost read = ide::environment_outcome(environment);
    let ghost settings = library@;
    let selection = Selection::of(project, files);
    let mut warnings: Vec<String> = Vec::new();
    let context = TargetContext::new(
        project,
        compiler,
        environment,
        selection,
        library,
        files,
        &mut warnings,
    );
    let mut list: Vec<String> = Vec::new();
    artefacts::push_dir(&mut list, text::clone_opt(&project.dproj));
    let source = match &project.dpk {
        Some(dpk) => Some(dpk.clone()),
        None => text::clone_opt(&project.dpr),
    };
    artefacts::push_dir(&mut list, source);
    context.push_built_paths(&mut list, files);
    proof {
        assert(text::texts(list@) =~= consulted(*project, *compiler, read, settings, files@));
    }
    list
}

/// [`paths_consulted`] for the installation that `compiler` describes.
pub fn installed_paths_consulted(
    project: &Project,
    compiler: &CompilerConfiguration,
    installation: &Installation,
    files: &Files,
) -> (res: Vec<String>)
    ensures
        text::texts(res@) == consulted(
            *project,
            *compiler,
            ide::installed_environment(*compiler, *installation),
            ide::installed_library(
                *compiler,
                *installation,
                context::effective_platform(*project, files@),
            ),
            files@,
        ),
{
    let ide = InstalledIde { compiler, installation };
    let selection = Selection::of(project, files);
    let library = ide.library_settings(selection.platform.as_str());
    paths_consulted(project, compiler, ide.environment(), library, files)
}

// ─── Laws ────────────────────────────────────────────────────────────────────

/// Whether the same was found at each of the paths.
pub open spec fn agree_on(
    one: Map<Seq<char>, files::FileView>,
    other: Map<Seq<char>, files::FileView>,
    list: Seq<Seq<char>>,
) -> bool {
    forall|i: int|
        0 <= i < list.len() ==> files::at(one, #[trigger] list[i]) == files::at(other, list[i])
}

proof fn agreement_on_parts(
    one: Map<Seq<char>, files::FileView>,
    other: Map<Seq<char>, files::FileView>,
    a: Seq<Seq<char>>,
    b: Seq<Seq<char>>,
)
    requires
        agree_on(one, other, a + b),
    ensures
        agree_on(one, other, a),
        agree_on(one, other, b),
{
    assert forall|i: int| 0 <= i < a.len() implies files::at(one, #[trigger] a[i]) == files::at(
        other,
        a[i],
    ) by {
        assert((a + b)[i] == a[i]);
    }
    assert forall|i: int| 0 <= i < b.len() implies files::at(one, #[trigger] b[i]) == files::at(
        other,
        b[i],
    ) by {
        assert((a + b)[a.len() + i] == b[i]);
    }
}

proof fn agreement_beside(
    one: Map<Seq<char>, files::FileView>,
    other: Map<Seq<char>, files::FileView>,
    binary: Seq<char>,
)
    requires
        agree_on(one, other, beside(binary)),
    ensures
        files::at(one, binary) == files::at(other, binary),
        forall|what: Seq<char>|
            artefacts::symbol_warnings(one, binary, what) == artefacts::symbol_warnings(
                other,
                binary,
                what,
            ),
{
    let list = beside(binary);
    assert(files::at(one, list[0]) == files::at(other, list[0]));
    assert(files::at(one, list[1]) == files::at(other, list[1]));
    assert(files::at(one, list[2]) == files::at(other, list[2]));
}

proof fn agreement_on_candidates(
    one: Map<Seq<char>, files::FileView>,
    other: Map<Seq<char>, files::FileView>,
    directories: Seq<Seq<char>>,
    file_name: Seq<char>,
)
    requires
        agree_on(one, other, candidates(directories, file_name)),
    ensures
        artefacts::built_file(one, directories, file_name) == artefacts::built_file(
            other,
            directories,
            file_name,
        ),
    decreases directories.len(),
{
    if directories.len() > 0 {
        let all = candidates(directories, file_name);
        let rest = candidates(directories.skip(1), file_name);
        assert(files::at(one, all[0]) == files::at(other, all[0]));
        assert forall|i: int| 0 <= i < rest.len() implies files::at(one, #[trigger] rest[i])
            == files::at(other, rest[i]) by {
            assert(rest[i] == all[i + 1]);
        }
        agreement_on_candidates(one, other, directories.skip(1), file_name);
    }
}

proof fn agreement_on_dirs(
    one: Map<Seq<char>, files::FileView>,
    other: Map<Seq<char>, files::FileView>,
    dirs: Seq<Seq<char>>,
)
    requires
        agree_on(one, other, dirs),
    ensures
        sources::existing(one, dirs) == sources::existing(other, dirs),
    decreases dirs.len(),
{
    if dirs.len() > 0 {
        let before = dirs.drop_last();
        assert(files::at(one, dirs[dirs.len() - 1]) == files::at(other, dirs[dirs.len() - 1]));
        assert forall|i: int| 0 <= i < before.len() implies files::at(one, #[trigger] before[i])
            == files::at(other, before[i]) by {
            assert(before[i] == dirs[i]);
        }
        agreement_on_dirs(one, other, before);
    }
}

proof fn agreement_on_modules(
    context: context::ContextView,
    one: Map<Seq<char>, files::FileView>,
    other: Map<Seq<char>, files::FileView>,
    executable: Seq<char>,
)
    requires
        resolve::lib_suffix_of(context, one) == resolve::lib_suffix_of(context, other),
        agree_on(one, other, module_paths(context, one, executable)),
    ensures
        builder::modules_of(context, one, executable) == builder::modules_of(
            context,
            other,
            executable,
        ),
        builder::modules_warnings(context, one, executable) == builder::modules_warnings(
            context,
            other,
            executable,
        ),
        module_paths(context, one, executable) == module_paths(context, other, executable),
{
    match resolve::kind_of(context) {
        DebugTargetKind::Program => match context.project.exe {
            Some(exe) => {
                agreement_beside(one, other, exe@);
            },
            None => {},
        },
        DebugTargetKind::Package => {
            let dirs = modules::bpl_dirs(context, executable);
            let name = modules::bpl_name(context, one);
            let found = modules::found_bpl(context, one, executable);
            let rest = match found {
                Some(binary) => beside(binary) + candidates(
                    modules::dcp_dirs(context, binary),
                    modules::dcp_name(context),
                ),
                None => Seq::empty(),
            };
            agreement_on_parts(one, other, candidates(dirs, name), rest);
            agreement_on_candidates(one, other, dirs, name);
            match found {
                Some(binary) => {
                    let dcps = candidates(
                        modules::dcp_dirs(context, binary),
                        modules::dcp_name(context),
                    );
                    agreement_on_parts(one, other, beside(binary), dcps);
                    agreement_beside(one, other, binary);
                    agreement_on_candidates(
                        one,
                        other,
                        modules::dcp_dirs(context, binary),
                        modules::dcp_name(context),
                    );
                },
                None => {},
            }
        },
        DebugTargetKind::Library => {
            let dirs = seq![modules::dll_dir(context)];
            let name = modules::dll_name(context, one);
            let found = modules::found_dll(context, one);
            let rest = match found {
                Some(binary) => beside(binary),
                None => Seq::empty(),
            };
            agreement_on_parts(one, other, candidates(dirs, name), rest);
            agreement_on_candidates(one, other, dirs, name);
            match found {
                Some(binary) => {
                    agreement_beside(one, other, binary);
                },
                None => {},
            }
        },
    }
}

/// The description of a target depends on the paths consulted and on no
/// others: whatever else is on disk, the same found at each of them gives the
/// same target, or the same error, and the same paths to consult.
pub proof fn target_depends_on_the_paths_consulted(
    project: Project,
    compiler: CompilerConfiguration,
    environment: Result<environment::EnvironmentView, Seq<char>>,
    library: registry::LibraryView,
    one: Map<Seq<char>, files::FileView>,
    other: Map<Seq<char>, files::FileView>,
)
    requires
        agree_on(one, other, consulted(project, compiler, environment, library, one)),
    ensures
        builder::target_of(project, compiler, environment, library, one) == builder::target_of(
            project,
            compiler,
            environment,
            library,
            other,
        ),
        consulted(project, compiler, environment, library, one) == consulted(
            project,
            compiler,
            environment,
            library,
            other,
        ),
        context::effective_platform(project, one) == context::effective_platform(project, other),
{
    let context = context::context_of(project, compiler, environment, library, one);
    let own = artefacts::dir_list(text::opt(project.dproj));
    let source = artefacts::dir_list(resolve::suffix_source(project));
    let built = built_paths(context, one);
    agreement_on_parts(one, other, own + source, built);
    agreement_on_parts(one, other, own, source);
    match project.dproj {
        Some(path) => {
            assert(files::at(one, own[0]) == files::at(other, own[0]));
        },
        None => {},
    }
    match resolve::suffix_source(project) {
        Some(path) => {
            assert(files::at(one, source[0]) == files::at(other, source[0]));
        },
        None => {},
    }
    assert(context::dproj_source(project, one) == context::dproj_source(project, other));
    assert(context == context::context_of(project, compiler, environment, library, other));
    assert(resolve::lib_suffix_of(context, one) == resolve::lib_suffix_of(context, other));
    match builder::executable_of(context) {
        Ok(executable) => {
            let of_modules = module_paths(context, one, executable);
            let of_sources = sources::distinct(sources::source_candidates(context));
            agreement_on_parts(one, other, beside(executable) + of_modules, of_sources);
            agreement_on_parts(one, other, beside(executable), of_modules);
            agreement_beside(one, other, executable);
            agreement_on_modules(context, one, other, executable);
            agreement_on_dirs(one, other, of_sources);
        },
        Err(_) => {},
    }
}

} // verus!
