//! The modules whose debug information the debugger should bind: the
//! project's own binary whenever it is not what is launched.

use vstd::prelude::*;
use vstd::string::*;

use crate::artefacts;
use crate::context;
use crate::context::TargetContext;
use crate::files;
use crate::files::Files;
use crate::paths;
use crate::resolve;
use crate::target;
use crate::target::DebugModule;
use crate::text;

verus! {

/// A module that was not found.
pub open spec fn unbuilt(name: Seq<char>) -> target::ModuleView {
    target::ModuleView { name, binary: None, map: None, rsm: None, dcp: None }
}

/// A module at `binary`, with the symbol files expected next to it.
pub open spec fn built(binary: Seq<char>, dcp: Option<Seq<char>>) -> target::ModuleView {
    target::ModuleView {
        name: paths::name_of_file(binary),
        binary: Some(paths::slashed(binary)),
        map: Some(paths::slashed(paths::path_with_extension(binary, "map"@))),
        rsm: Some(paths::slashed(paths::path_with_extension(binary, "rsm"@))),
        dcp: paths::slashed_opt(dcp),
    }
}

fn unbuilt_module(name: String) -> (res: DebugModule)
    ensures
        res@ == unbuilt(name@),
{
    DebugModule { name, binary: None, map: None, rsm: None, dcp: None }
}

fn built_module(binary: &str, dcp: &Option<String>) -> (res: DebugModule)
    ensures
        res@ == built(binary@, text::opt(*dcp)),
{
    proof {
        reveal_strlit("map");
        reveal_strlit("rsm");
    }
    DebugModule {
        name: paths::file_name(binary),
        binary: Some(paths::json_path(binary)),
        map: Some(paths::json_path(paths::sibling(binary, "map").as_str())),
        rsm: Some(paths::json_path(paths::sibling(binary, "rsm").as_str())),
        dcp: paths::json_path_opt(dcp),
    }
}

// ─── A program under a host ──────────────────────────────────────────────────

/// The module of a program that a Host Application starts.
pub open spec fn hosted_program(context: context::ContextView) -> target::ModuleView {
    match context.project.exe {
        Some(exe) => built(exe@, None),
        None => unbuilt(context.project.name@ + ".exe"@),
    }
}

/// What is wrong with the program that a Host Application starts.
pub open spec fn hosted_program_warnings(
    context: context::ContextView,
    files: Map<Seq<char>, files::FileView>,
) -> Seq<Seq<char>> {
    match context.project.exe {
        Some(exe) => if files::at(files, exe@).present {
            artefacts::module_warnings(files, exe@)
        } else {
            seq![artefacts::executable_not_found(exe@)]
        },
        None => seq![
            "Program \""@ + context.project.name@
                + "\" is started by a Host Application but has no executable of its own recorded. Compile it first."@,
        ],
    }
}

// ─── A package ───────────────────────────────────────────────────────────────

/// The file name of the package.
pub open spec fn bpl_name(
    context: context::ContextView,
    files: Map<Seq<char>, files::FileView>,
) -> Seq<char> {
    resolve::stem_of(context, files) + ".bpl"@
}

/// The file name of the compiled package.
pub open spec fn dcp_name(context: context::ContextView) -> Seq<char> {
    context.project.name@ + ".dcp"@
}

/// The `DCC_BplOutput` of the dproj.
pub open spec fn bpl_output(context: context::ContextView) -> Option<Seq<char>> {
    match context.group {
        Some(group) => resolve::directory_of(context, group.bpl_output),
        None => None,
    }
}

/// The `DCC_DcpOutput` of the dproj.
pub open spec fn dcp_output(context: context::ContextView) -> Option<Seq<char>> {
    match context.group {
        Some(group) => resolve::directory_of(context, group.dcp_output),
        None => None,
    }
}

/// Where a package is looked for, in order: the dproj's `DCC_BplOutput`, the
/// IDE's default package output, the hosting executable's directory,
/// `.\<Platform>\<Config>`.
pub open spec fn bpl_dirs(context: context::ContextView, host: Seq<char>) -> Seq<Seq<char>> {
    artefacts::dir_list(bpl_output(context)) + artefacts::dir_list(
        resolve::directory_of(context, context.library.package_dpl_output),
    ) + resolve::common_dirs(context, "Bpl"@) + artefacts::dir_list(paths::path_parent(host))
        + seq![resolve::default_output(context)]
}

/// Where a compiled package is looked for, in order: the dproj's
/// `DCC_DcpOutput`, the IDE's default package output, the directory of the
/// package.
pub open spec fn dcp_dirs(context: context::ContextView, binary: Seq<char>) -> Seq<Seq<char>> {
    artefacts::dir_list(dcp_output(context)) + artefacts::dir_list(
        resolve::directory_of(context, context.library.package_dcp_output),
    ) + resolve::common_dirs(context, "Dcp"@) + artefacts::dir_list(paths::path_parent(binary))
}

/// The built package.
pub open spec fn found_bpl(
    context: context::ContextView,
    files: Map<Seq<char>, files::FileView>,
    host: Seq<char>,
) -> Option<Seq<char>> {
    artefacts::built_file(files, bpl_dirs(context, host), bpl_name(context, files))
}

/// The compiled package that belongs to the package at `binary`.
pub open spec fn found_dcp(
    context: context::ContextView,
    files: Map<Seq<char>, files::FileView>,
    binary: Seq<char>,
) -> Option<Seq<char>> {
    artefacts::built_file(files, dcp_dirs(context, binary), dcp_name(context))
}

/// The module of a package that `host` loads.
pub open spec fn package_of(
    context: context::ContextView,
    files: Map<Seq<char>, files::FileView>,
    host: Seq<char>,
) -> target::ModuleView {
    match found_bpl(context, files, host) {
        Some(binary) => built(binary, found_dcp(context, files, binary)),
        None => unbuilt(bpl_name(context, files)),
    }
}

/// What is wrong with the package that `host` loads.
pub open spec fn package_warnings(
    context: context::ContextView,
    files: Map<Seq<char>, files::FileView>,
    host: Seq<char>,
) -> Seq<Seq<char>> {
    match found_bpl(context, files, host) {
        Some(binary) => artefacts::module_warnings(files, binary) + (match found_dcp(
            context,
            files,
            binary,
        ) {
            Some(_) => Seq::empty(),
            None => seq![
                "No "@ + dcp_name(context) + " found for package \""@ + context.project.name@
                    + "\": the debugger will lack the package's rich debug information."@,
            ],
        }),
        None => seq![
            "No built "@ + bpl_name(context, files) + " found for package \""@
                + context.project.name@ + "\" (searched: "@ + text::joined(
                bpl_dirs(context, host),
                "; "@,
            ) + "). Compile it first, or the debugger will treat it as a black box."@,
        ],
    }
}

/// Whether the name of the package is one component, and the places where it is
/// looked for and found are on drives or network shares.
pub open spec fn package_is_on_drive_or_share(
    context: context::ContextView,
    files: Map<Seq<char>, files::FileView>,
    host: Seq<char>,
) -> bool {
    &&& paths::is_component(bpl_name(context, files))
    &&& artefacts::are_on_drive_or_share(bpl_dirs(context, host))
    &&& found_bpl(context, files, host) matches Some(binary)
        ==> paths::is_file_on_drive_or_share(binary)
}

// ─── A library ───────────────────────────────────────────────────────────────

/// The file name of the DLL.
pub open spec fn dll_name(
    context: context::ContextView,
    files: Map<Seq<char>, files::FileView>,
) -> Seq<char> {
    resolve::stem_of(context, files) + ".dll"@
}

/// Where the DLL is: next to the executable on record, else where a build goes
/// by default.
pub open spec fn dll_dir(context: context::ContextView) -> Seq<char> {
    match context.project.exe {
        Some(exe) => match paths::path_parent(exe@) {
            Some(dir) => dir,
            None => resolve::default_output(context),
        },
        None => resolve::default_output(context),
    }
}

/// The built DLL.
pub open spec fn found_dll(
    context: context::ContextView,
    files: Map<Seq<char>, files::FileView>,
) -> Option<Seq<char>> {
    artefacts::built_file(files, seq![dll_dir(context)], dll_name(context, files))
}

/// Whether the name of the DLL is one component, and the places where it is
/// looked for and found are on drives or network shares.
pub open spec fn library_is_on_drive_or_share(
    context: context::ContextView,
    files: Map<Seq<char>, files::FileView>,
) -> bool {
    &&& paths::is_component(dll_name(context, files))
    &&& paths::is_on_drive_or_share(dll_dir(context))
    &&& found_dll(context, files) matches Some(binary)
        ==> paths::is_file_on_drive_or_share(binary)
}

/// The module of a library.
pub open spec fn library_of(
    context: context::ContextView,
    files: Map<Seq<char>, files::FileView>,
) -> target::ModuleView {
    match found_dll(context, files) {
        Some(binary) => built(binary, None),
        None => unbuilt(dll_name(context, files)),
    }
}

/// What is wrong with the DLL of a library.
pub open spec fn library_warnings(
    context: context::ContextView,
    files: Map<Seq<char>, files::FileView>,
) -> Seq<Seq<char>> {
    match found_dll(context, files) {
        Some(binary) => artefacts::module_warnings(files, binary),
        None => seq![
            "No built "@ + dll_name(context, files) + " found for library \""@
                + context.project.name@ + "\" in "@ + dll_dir(context)
                + ". Compile it first, or the debugger will treat it as a black box."@,
        ],
    }
}

impl<'a> TargetContext<'a> {
    /// A program started by a Host Application is still the module whose
    /// symbols matter; the host launches it, the project's record says where
    /// it is.
    pub fn hosted_program_module(&self, files: &Files, warnings: &mut Vec<String>) -> (res:
        DebugModule)
        ensures
            res@ == hosted_program(self@),
            text::texts(final(warnings)@) == text::texts(old(warnings)@) + hosted_program_warnings(
                self@,
                files@,
            ),
    {
        match &self.project.exe {
            Some(exe) => {
                if !files.is_present(exe.as_str()) {
                    text::push_text(
                        warnings,
                        artefacts::executable_not_found_text(exe.as_str()),
                    );
                } else {
                    artefacts::check_module_artefacts(exe.as_str(), files, warnings);
                }
                proof {
                    assert(text::texts(warnings@) =~= text::texts(old(warnings)@)
                        + hosted_program_warnings(self@, files@));
                }
                built_module(exe.as_str(), &None)
            },
            None => {
                text::push_text(
                    warnings,
                    "Program \"".to_owned().concat(self.project.name.as_str()).concat(
                        "\" is started by a Host Application but has no executable of its own recorded. Compile it first.",
                    ),
                );
                proof {
                    assert(text::texts(warnings@) =~= text::texts(old(warnings)@)
                        + hosted_program_warnings(self@, files@));
                }
                unbuilt_module(self.project.name.clone().concat(".exe"))
            },
        }
    }

    /// The file name of the package.
    pub fn bpl_name(&self, files: &Files) -> (res: String)
        ensures
            res@ == bpl_name(self@, files@),
    {
        self.binary_stem(files).concat(".bpl")
    }

    /// The file name of the compiled package.
    pub fn dcp_name(&self) -> (res: String)
        ensures
            res@ == dcp_name(self@),
    {
        self.project.name.clone().concat(".dcp")
    }

    /// The file name of the DLL.
    pub fn dll_name(&self, files: &Files) -> (res: String)
        ensures
            res@ == dll_name(self@, files@),
    {
        self.binary_stem(files).concat(".dll")
    }

    /// Where the DLL is looked for: one directory.
    pub fn dll_directories(&self) -> (res: Vec<String>)
        ensures
            text::texts(res@) == seq![dll_dir(self@)],
            res@.len() == 1,
    {
        let output_dir = match &self.project.exe {
            Some(exe) => match paths::parent(exe.as_str()) {
                Some(dir) => dir,
                None => self.default_output_dir(),
            },
            None => self.default_output_dir(),
        };
        let mut directories: Vec<String> = Vec::new();
        directories.push(output_dir);
        proof {
            assert(text::texts(directories@) =~= seq![dll_dir(self@)]);
        }
        directories
    }

    /// Where the package is looked for.
    pub fn bpl_directories(&self, host: &str) -> (res: Vec<String>)
        ensures
            text::texts(res@) == bpl_dirs(self@, host@),
    {
        let mut directories: Vec<String> = Vec::new();
        proof {
            assert(text::texts(directories@) =~= Seq::<Seq<char>>::empty());
        }
        let output = match &self.group {
            Some(group) => self.setting_dir(&group.bpl_output),
            None => None,
        };
        artefacts::push_dir(&mut directories, output);
        artefacts::push_dir(&mut directories, self.setting_dir(&self.library.package_dpl_output));
        text::append_texts(&mut directories, self.common_output_dirs("Bpl"));
        artefacts::push_dir(&mut directories, paths::parent(host));
        text::push_text(&mut directories, self.default_output_dir());
        proof {
            assert(text::texts(directories@) =~= bpl_dirs(self@, host@));
        }
        directories
    }

    /// Where the compiled package of the package at `binary` is looked for.
    pub fn dcp_directories(&self, binary: &str) -> (res: Vec<String>)
        ensures
            text::texts(res@) == dcp_dirs(self@, binary@),
    {
        let mut directories: Vec<String> = Vec::new();
        proof {
            assert(text::texts(directories@) =~= Seq::<Seq<char>>::empty());
        }
        let output = match &self.group {
            Some(group) => self.setting_dir(&group.dcp_output),
            None => None,
        };
        artefacts::push_dir(&mut directories, output);
        artefacts::push_dir(&mut directories, self.setting_dir(&self.library.package_dcp_output));
        text::append_texts(&mut directories, self.common_output_dirs("Dcp"));
        artefacts::push_dir(&mut directories, paths::parent(binary));
        proof {
            assert(text::texts(directories@) =~= dcp_dirs(self@, binary@));
        }
        directories
    }

    /// The package's own `.bpl`, searched where the IDE puts one (the
    /// dproj's `DCC_BplOutput`, the IDE's default package output, the
    /// hosting executable's directory, `.\<Platform>\<Config>`), and its
    /// `.dcp`. Without a built `.bpl` the debugger treats the package as a
    /// black box, so that is a warning, not an error.
    pub fn package_module(&self, host: &str, files: &Files, warnings: &mut Vec<String>) -> (res:
        DebugModule)
        ensures
            res@ == package_of(self@, files@, host@),
            package_is_on_drive_or_share(self@, files@, host@) ==> res.name@ == bpl_name(
                self@,
                files@,
            ),
            text::texts(final(warnings)@) == text::texts(old(warnings)@) + package_warnings(
                self@,
                files@,
                host@,
            ),
    {
        let bpl_name = self.bpl_name(files);
        let directories = self.bpl_directories(host);
        let binary = match artefacts::find_built_file(&directories, bpl_name.as_str(), files) {
            Some(binary) => binary,
            None => {
                text::push_text(
                    warnings,
                    "No built ".to_owned().concat(bpl_name.as_str()).concat(
                        " found for package \"",
                    ).concat(self.project.name.as_str()).concat("\" (searched: ").concat(
                        text::join(&directories, "; ").as_str(),
                    ).concat(
                        "). Compile it first, or the debugger will treat it as a black box.",
                    ),
                );
                proof {
                    assert(text::texts(warnings@) =~= text::texts(old(warnings)@)
                        + package_warnings(self@, files@, host@));
                }
                return unbuilt_module(bpl_name);
            },
        };
        artefacts::check_module_artefacts(binary.as_str(), files, warnings);

        let dcp_name = self.dcp_name();
        let dcp_directories = self.dcp_directories(binary.as_str());
        let dcp = artefacts::find_built_file(&dcp_directories, dcp_name.as_str(), files);
        if dcp.is_none() {
            text::push_text(
                warnings,
                "No ".to_owned().concat(dcp_name.as_str()).concat(" found for package \"").concat(
                    self.project.name.as_str(),
                ).concat("\": the debugger will lack the package's rich debug information."),
            );
        }
        proof {
            assert(text::texts(warnings@) =~= text::texts(old(warnings)@) + package_warnings(
                self@,
                files@,
                host@,
            ));
        }
        built_module(binary.as_str(), &dcp)
    }

    /// The DLL a library project builds: its output is on record as the
    /// program-style `<stem>.exe`; the DLL sits in the same directory.
    pub fn library_module(&self, files: &Files, warnings: &mut Vec<String>) -> (res: DebugModule)
        ensures
            res@ == library_of(self@, files@),
            library_is_on_drive_or_share(self@, files@) ==> res.name@ == dll_name(self@, files@),
            text::texts(final(warnings)@) == text::texts(old(warnings)@) + library_warnings(
                self@,
                files@,
            ),
    {
        let dll_name = self.dll_name(files);
        let directories = self.dll_directories();
        proof {
            assert(text::texts(directories@)[0] == directories@[0]@);
        }
        match artefacts::find_built_file(&directories, dll_name.as_str(), files) {
            Some(binary) => {
                artefacts::check_module_artefacts(binary.as_str(), files, warnings);
                built_module(binary.as_str(), &None)
            },
            None => {
                text::push_text(
                    warnings,
                    "No built ".to_owned().concat(dll_name.as_str()).concat(
                        " found for library \"",
                    ).concat(self.project.name.as_str()).concat("\" in ").concat(
                        directories[0].as_str(),
                    ).concat(". Compile it first, or the debugger will treat it as a black box."),
                );
                proof {
                    assert(text::texts(warnings@) =~= text::texts(old(warnings)@)
                        + library_warnings(self@, files@));
                }
                unbuilt_module(dll_name)
            },
        }
    }
}

} // verus!
