//! Laws of where the binaries of a project are looked for, and of what is said
//! of them.

use vstd::prelude::*;

use crate::artefacts;
use crate::context;
use crate::files;
use crate::laws::paths as path_laws;
use crate::modules;
use crate::paths;
use crate::resolve;
use crate::target;
use crate::text;

verus! {

// ─── Where ───────────────────────────────────────────────────────────────────

/// The file of the given name in a directory that there may be, in normal form,
/// where it is there.
pub open spec fn file_in(
    files: Map<Seq<char>, files::FileView>,
    dir: Option<Seq<char>>,
    name: Seq<char>,
) -> Option<Seq<char>> {
    match dir {
        Some(dir) => if files::at(files, paths::path_join(dir, name)).is_file {
            Some(paths::normalized(paths::path_join(dir, name)))
        } else {
            None
        },
        None => None,
    }
}

/// The one where there is one, else the other.
pub open spec fn or_else(one: Option<Seq<char>>, other: Option<Seq<char>>) -> Option<Seq<char>> {
    if one is Some {
        one
    } else {
        other
    }
}

proof fn looking_on(
    files: Map<Seq<char>, files::FileView>,
    a: Seq<Seq<char>>,
    b: Seq<Seq<char>>,
    name: Seq<char>,
)
    ensures
        artefacts::built_file(files, a + b, name) == or_else(
            artefacts::built_file(files, a, name),
            artefacts::built_file(files, b, name),
        ),
    decreases a.len(),
{
    if a.len() == 0 {
        assert(a + b =~= b);
    } else {
        assert((a + b)[0] == a[0]);
        assert((a + b).skip(1) =~= a.skip(1) + b);
        looking_on(files, a.skip(1), b, name);
    }
}

proof fn looking_in_one(
    files: Map<Seq<char>, files::FileView>,
    dir: Option<Seq<char>>,
    name: Seq<char>,
)
    ensures
        artefacts::built_file(files, artefacts::dir_list(dir), name) == file_in(files, dir, name),
{
    reveal_with_fuel(artefacts::built_file, 2);
}

/// The directory for the platform of the IDE's default package output.
pub open spec fn common_of_platform(context: context::ContextView, kind: Seq<char>) -> Option<
    Seq<char>,
> {
    match resolve::directory_of(context, Some("$(BDSCOMMONDIR)\\"@ + kind)) {
        Some(root) => Some(paths::path_join(root, context.platform)),
        None => None,
    }
}

proof fn looking_in_common(
    context: context::ContextView,
    files: Map<Seq<char>, files::FileView>,
    kind: Seq<char>,
    name: Seq<char>,
)
    ensures
        artefacts::built_file(files, resolve::common_dirs(context, kind), name) == or_else(
            file_in(files, common_of_platform(context, kind), name),
            file_in(files, resolve::directory_of(context, Some("$(BDSCOMMONDIR)\\"@ + kind)), name),
        ),
{
    let root = resolve::directory_of(context, Some("$(BDSCOMMONDIR)\\"@ + kind));
    let below = common_of_platform(context, kind);
    assert(resolve::common_dirs(context, kind) =~= artefacts::dir_list(below)
        + artefacts::dir_list(root));
    looking_on(files, artefacts::dir_list(below), artefacts::dir_list(root), name);
    looking_in_one(files, below, name);
    looking_in_one(files, root, name);
}

/// A package is looked for in this order, and nowhere else: in the dproj's
/// `DCC_BplOutput`, in the IDE's `Package DPL Output`, in the IDE's default
/// output for the platform and then in that itself, next to the host, and where
/// a build goes by default. A setting that names no directory is passed over.
pub proof fn packages_are_looked_for_in_order(
    context: context::ContextView,
    files: Map<Seq<char>, files::FileView>,
    host: Seq<char>,
)
    ensures
        ({
            let name = context.project.name@ + resolve::lib_suffix_of(context, files) + ".bpl"@;
            let of_dproj = match context.group {
                Some(group) => group.bpl_output,
                None => None,
            };
            let of_ide = context.library.package_dpl_output;
            modules::found_bpl(context, files, host) == or_else(
                file_in(files, resolve::directory_of(context, of_dproj), name),
                or_else(
                    file_in(files, resolve::directory_of(context, of_ide), name),
                    or_else(
                        file_in(files, common_of_platform(context, "Bpl"@), name),
                        or_else(
                            file_in(
                                files,
                                resolve::directory_of(context, Some("$(BDSCOMMONDIR)\\"@ + "Bpl"@)),
                                name,
                            ),
                            or_else(
                                file_in(files, paths::path_parent(host), name),
                                file_in(files, Some(resolve::default_output(context)), name),
                            ),
                        ),
                    ),
                ),
            )
        }),
{
    let name = modules::bpl_name(context, files);
    let a = artefacts::dir_list(modules::bpl_output(context));
    let b = artefacts::dir_list(
        resolve::directory_of(context, context.library.package_dpl_output),
    );
    let c = resolve::common_dirs(context, "Bpl"@);
    let d = artefacts::dir_list(paths::path_parent(host));
    let e = artefacts::dir_list(Some(resolve::default_output(context)));
    assert(modules::bpl_dirs(context, host) =~= a + (b + (c + (d + e))));
    looking_on(files, a, b + (c + (d + e)), name);
    looking_on(files, b, c + (d + e), name);
    looking_on(files, c, d + e, name);
    looking_on(files, d, e, name);
    let of_dproj = match context.group {
        Some(group) => group.bpl_output,
        None => None,
    };
    looking_in_one(files, resolve::directory_of(context, of_dproj), name);
    looking_in_one(
        files,
        resolve::directory_of(context, context.library.package_dpl_output),
        name,
    );
    looking_in_common(context, files, "Bpl"@, name);
    looking_in_one(files, paths::path_parent(host), name);
    looking_in_one(files, Some(resolve::default_output(context)), name);
}

/// The compiled package is looked for in this order, and nowhere else: in the
/// dproj's `DCC_DcpOutput`, in the IDE's `Package DCP Output`, in the IDE's
/// default output for the platform and then in that itself, and next to the
/// package. It has the name of the project, without the suffix.
pub proof fn compiled_packages_are_looked_for_in_order(
    context: context::ContextView,
    files: Map<Seq<char>, files::FileView>,
    binary: Seq<char>,
)
    ensures
        ({
            let name = context.project.name@ + ".dcp"@;
            let of_dproj = match context.group {
                Some(group) => group.dcp_output,
                None => None,
            };
            let of_ide = context.library.package_dcp_output;
            modules::found_dcp(context, files, binary) == or_else(
                file_in(files, resolve::directory_of(context, of_dproj), name),
                or_else(
                    file_in(files, resolve::directory_of(context, of_ide), name),
                    or_else(
                        file_in(files, common_of_platform(context, "Dcp"@), name),
                        or_else(
                            file_in(
                                files,
                                resolve::directory_of(context, Some("$(BDSCOMMONDIR)\\"@ + "Dcp"@)),
                                name,
                            ),
                            file_in(files, paths::path_parent(binary), name),
                        ),
                    ),
                ),
            )
        }),
{
    let name = modules::dcp_name(context);
    let a = artefacts::dir_list(modules::dcp_output(context));
    let b = artefacts::dir_list(
        resolve::directory_of(context, context.library.package_dcp_output),
    );
    let c = resolve::common_dirs(context, "Dcp"@);
    let d = artefacts::dir_list(paths::path_parent(binary));
    assert(modules::dcp_dirs(context, binary) =~= a + (b + (c + d)));
    looking_on(files, a, b + (c + d), name);
    looking_on(files, b, c + d, name);
    looking_on(files, c, d, name);
    let of_dproj = match context.group {
        Some(group) => group.dcp_output,
        None => None,
    };
    looking_in_one(files, resolve::directory_of(context, of_dproj), name);
    looking_in_one(
        files,
        resolve::directory_of(context, context.library.package_dcp_output),
        name,
    );
    looking_in_common(context, files, "Dcp"@, name);
    looking_in_one(files, paths::path_parent(binary), name);
}

/// A directory that there may be, as a list.
pub open spec fn if_any(dir: Option<Seq<char>>) -> Seq<Seq<char>> {
    match dir {
        Some(dir) => seq![dir],
        None => seq![],
    }
}

/// The directories where a package is looked for, as they are listed where it
/// is not found: all of them, in order.
pub proof fn searched_directories_are_listed(context: context::ContextView, host: Seq<char>)
    ensures
        ({
            let of_dproj = match context.group {
                Some(group) => group.bpl_output,
                None => None,
            };
            modules::bpl_dirs(context, host) == if_any(resolve::directory_of(context, of_dproj))
                + if_any(resolve::directory_of(context, context.library.package_dpl_output))
                + if_any(common_of_platform(context, "Bpl"@)) + if_any(
                resolve::directory_of(context, Some("$(BDSCOMMONDIR)\\"@ + "Bpl"@)),
            ) + if_any(paths::path_parent(host)) + seq![resolve::default_output(context)]
        }),
{
    let common = if_any(common_of_platform(context, "Bpl"@)) + if_any(
        resolve::directory_of(context, Some("$(BDSCOMMONDIR)\\"@ + "Bpl"@)),
    );
    assert(resolve::common_dirs(context, "Bpl"@) =~= common);
}

/// A compiled package in the IDE's `Package DCP Output` is the one bound, where
/// the dproj's own output does not hold one.
pub proof fn output_of_the_ide_is_searched(
    context: context::ContextView,
    files: Map<Seq<char>, files::FileView>,
    host: Seq<char>,
    binary: Seq<char>,
    dir: Seq<char>,
)
    requires
        modules::found_bpl(context, files, host) == Some(binary),
        context.group matches Some(group) ==> file_in(
            files,
            resolve::directory_of(context, group.dcp_output),
            context.project.name@ + ".dcp"@,
        ) is None,
        resolve::directory_of(context, context.library.package_dcp_output) == Some(dir),
        files::at(files, paths::path_join(dir, context.project.name@ + ".dcp"@)).is_file,
    ensures
        modules::package_of(context, files, host).dcp matches Some(dcp) && path_laws::stands_for(
            dcp,
            paths::normalized(paths::path_join(dir, context.project.name@ + ".dcp"@)),
        ),
{
    compiled_packages_are_looked_for_in_order(context, files, binary);
}

/// A DLL is looked for next to the executable on record, and where there is
/// none, or nothing above it, where a build goes by default.
pub proof fn libraries_are_looked_for_in_one_place(
    context: context::ContextView,
    files: Map<Seq<char>, files::FileView>,
)
    ensures
        ({
            let name = context.project.name@ + resolve::lib_suffix_of(context, files) + ".dll"@;
            let recorded = match context.project.exe {
                Some(exe) => paths::path_parent(exe@),
                None => None,
            };
            modules::found_dll(context, files) == file_in(
                files,
                or_else(recorded, Some(resolve::default_output(context))),
                name,
            )
        }),
{
    let dir = Some(modules::dll_dir(context));
    assert(artefacts::dir_list(dir) =~= seq![modules::dll_dir(context)]);
    looking_in_one(files, dir, modules::dll_name(context, files));
}

// ─── What is bound ───────────────────────────────────────────────────────────

/// Whether a module is the binary at `path` with the symbol files next to it.
pub open spec fn is_binary_at(
    module: target::ModuleView,
    path: Seq<char>,
    dcp: Option<Seq<char>>,
) -> bool {
    &&& Some(module.name) == paths::path_file_name(path) || (paths::path_file_name(path) is None
        && module.name.len() == 0)
    &&& path_laws::stands_for_if_any(module.binary, Some(path))
    &&& path_laws::stands_for_if_any(
        module.map,
        Some(paths::path_with_extension(path, "map"@)),
    )
    &&& path_laws::stands_for_if_any(
        module.rsm,
        Some(paths::path_with_extension(path, "rsm"@)),
    )
    &&& path_laws::stands_for_if_any(module.dcp, dcp)
}

/// Whether a module of the given name was not found.
pub open spec fn is_unbuilt(module: target::ModuleView, name: Seq<char>) -> bool {
    &&& module.name == name
    &&& module.binary is None
    &&& module.map is None
    &&& module.rsm is None
    &&& module.dcp is None
}

/// What a module says: where its binary is, with the symbol files next to it
/// and, for a package, the compiled package; and of one that is not there, the
/// name alone.
pub proof fn modules_say_where_their_files_are(
    context: context::ContextView,
    files: Map<Seq<char>, files::FileView>,
    host: Seq<char>,
)
    ensures
        ({
            let stem = context.project.name@ + resolve::lib_suffix_of(context, files);
            &&& match context.project.exe {
                Some(exe) => is_binary_at(modules::hosted_program(context), exe@, None),
                None => is_unbuilt(
                    modules::hosted_program(context),
                    context.project.name@ + ".exe"@,
                ),
            }
            &&& match modules::found_bpl(context, files, host) {
                Some(bpl) => is_binary_at(
                    modules::package_of(context, files, host),
                    bpl,
                    modules::found_dcp(context, files, bpl),
                ),
                None => is_unbuilt(modules::package_of(context, files, host), stem + ".bpl"@),
            }
            &&& match modules::found_dll(context, files) {
                Some(dll) => is_binary_at(modules::library_of(context, files), dll, None),
                None => is_unbuilt(modules::library_of(context, files), stem + ".dll"@),
            }
        }),
{
}

// ─── What is said ────────────────────────────────────────────────────────────

/// The words about symbol files of one kind: that they are missing and what
/// that costs, or that they are older than the binary by more than five minutes.
pub proof fn words_about_symbols(
    files: Map<Seq<char>, files::FileView>,
    binary: Seq<char>,
    what: Seq<char>,
    extension: Seq<char>,
    effect: Seq<char>,
)
    ensures
        ({
            let told = artefacts::symbol_warning(files, binary, what, extension, effect);
            let symbols = files::at(files, paths::path_with_extension(binary, extension));
            let left_over = symbols.modified matches Some(s) && files::at(files, binary).modified
                matches Some(b) && b - s > 300_000_000_000;
            &&& !symbols.present ==> told =~= seq![
                "Missing ."@ + extension + " next to "@ + what + " ("@ + effect
                    + "). Compile with debug info (Compile for Debugging)."@,
            ]
            &&& symbols.present && left_over ==> told =~= seq![
                "The ."@ + extension + " next to "@ + what
                    + " is older than the binary: stale symbols make breakpoints land on wrong lines. Recompile with debug info (Compile for Debugging)."@,
            ]
            &&& symbols.present && !left_over ==> told.len() == 0
        }),
{
}

/// What is said of the symbols of a binary is what is said of its map and then
/// of its remote-debug symbols; what is said of an executable is that it is not
/// there, or else, of the project's own, what is said of its symbols.
pub proof fn words_about_binaries(
    files: Map<Seq<char>, files::FileView>,
    binary: Seq<char>,
    what: Seq<char>,
    own_program: bool,
)
    ensures
        artefacts::symbol_warnings(files, binary, what) == artefacts::symbol_warning(
            files,
            binary,
            what,
            "map"@,
            "no source lines: breakpoints and stepping will not work"@,
        ) + artefacts::symbol_warning(
            files,
            binary,
            what,
            "rsm"@,
            "variable inspection and expression evaluation will be severely limited"@,
        ),
        ({
            let told = artefacts::executable_warnings(files, binary, own_program);
            &&& !files::at(files, binary).present ==> told =~= seq![
                "Executable not found: "@ + binary + ". Compile the project first."@,
            ]
            &&& files::at(files, binary).present && own_program ==> told
                == artefacts::symbol_warnings(files, binary, "the executable"@)
            &&& files::at(files, binary).present && !own_program ==> told.len() == 0
        }),
        artefacts::module_warnings(files, binary) == artefacts::symbol_warnings(
            files,
            binary,
            paths::name_of_file(binary),
        ),
{
}

/// What is said of the modules: of one that is there, what is said of its
/// symbols, and of a package without its compiled package, that too; of one
/// that is not there, what is missing and where it was looked for.
pub proof fn words_about_modules(
    context: context::ContextView,
    files: Map<Seq<char>, files::FileView>,
    host: Seq<char>,
)
    ensures
        ({
            let project = context.project.name@;
            let stem = project + resolve::lib_suffix_of(context, files);
            let no_dcp = "No "@ + (project + ".dcp"@) + " found for package \""@ + project
                + "\": the debugger will lack the package's rich debug information."@;
            &&& match context.project.exe {
                Some(exe) => if files::at(files, exe@).present {
                    modules::hosted_program_warnings(context, files) == artefacts::module_warnings(
                        files,
                        exe@,
                    )
                } else {
                    modules::hosted_program_warnings(context, files) =~= seq![
                        "Executable not found: "@ + exe@ + ". Compile the project first."@,
                    ]
                },
                None => modules::hosted_program_warnings(context, files) =~= seq![
                    "Program \""@ + project
                        + "\" is started by a Host Application but has no executable of its own recorded. Compile it first."@,
                ],
            }
            &&& match modules::found_bpl(context, files, host) {
                Some(bpl) => if modules::found_dcp(context, files, bpl) is Some {
                    modules::package_warnings(context, files, host) =~= artefacts::module_warnings(
                        files,
                        bpl,
                    )
                } else {
                    modules::package_warnings(context, files, host) =~= artefacts::module_warnings(
                        files,
                        bpl,
                    ).push(no_dcp)
                },
                None => modules::package_warnings(context, files, host) =~= seq![
                    "No built "@ + (stem + ".bpl"@) + " found for package \""@ + project
                        + "\" (searched: "@ + text::joined(modules::bpl_dirs(context, host), "; "@)
                        + "). Compile it first, or the debugger will treat it as a black box."@,
                ],
            }
            &&& match modules::found_dll(context, files) {
                Some(dll) => modules::library_warnings(context, files)
                    == artefacts::module_warnings(files, dll),
                None => modules::library_warnings(context, files) =~= seq![
                    "No built "@ + (stem + ".dll"@) + " found for library \""@ + project + "\" in "@
                        + modules::dll_dir(context)
                        + ". Compile it first, or the debugger will treat it as a black box."@,
                ],
            }
        }),
{
}

} // verus!
