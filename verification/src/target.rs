//! The description of a debug target, and how it reads as text.

use vstd::prelude::*;
use vstd::string::*;

use crate::text;

verus! {

/// What kind of binary the project produces, which decides how it is
/// debugged: a program is launched itself, a package or a DLL is loaded by
/// its Host Application.
#[derive(Debug, Clone, Copy, PartialEq, Eq, Structural)]
pub enum DebugTargetKind {
    Program,
    Package,
    Library,
}

/// The symbol files a debugger reads next to the launched executable.
#[derive(Debug, Clone, PartialEq, Eq)]
pub struct SymbolFiles {
    /// The linker map (`DCC_MapFile=3`): source lines and public names.
    pub map: String,
    /// The remote-debug symbols (`DCC_RemoteDebug`): locals, types, expressions.
    pub rsm: String,
}

/// A module the target process loads at run time whose debug information the
/// debugger should bind up front: the project's own package or DLL, or the
/// project's own program when a Host Application launches it.
#[derive(Debug, Clone, PartialEq, Eq)]
pub struct DebugModule {
    /// The module's file name (`libAbout290.bpl`), how a loaded module is matched.
    pub name: String,
    /// The built module on disk, when found.
    pub binary: Option<String>,
    pub map: Option<String>,
    pub rsm: Option<String>,
    /// The compiled package (`.dcp`), the rich debug information of a BPL.
    pub dcp: Option<String>,
}

/// What debugging a project means, for any debugger.
#[derive(Debug, Clone)]
pub struct DebugTarget {
    /// The managed project's id; `None` for an ad-hoc project file.
    pub project_id: Option<usize>,
    pub project: String,
    /// The `.dproj` when there is one, else the `.dpr`/`.dpk`.
    pub project_file: String,
    /// The `.dpr`/`.dpk` main source, when known.
    pub main_source: Option<String>,
    pub kind: DebugTargetKind,
    /// The process to launch or attach to: the program's own exe, or the
    /// Host Application that loads a package, a DLL, or the program itself
    /// when one is configured for it.
    pub executable: String,
    /// The Host Application when the executable is one.
    pub host_application: Option<String>,
    /// Product name of the compiler the project builds with.
    pub compiler: String,
    pub config: String,
    pub platform: String,
    /// `32` or `64` for a Windows platform; `None` (with a warning) otherwise.
    pub bitness: Option<u8>,
    /// Symbol files expected next to `executable`.
    pub symbols: SymbolFiles,
    /// The project directory.
    pub source_root: String,
    /// Existing directories to resolve unit sources from, most specific
    /// first: the project directory, the dproj's unit search and include
    /// paths, the IDE's Library Path and Browsing Path for the platform, and
    /// the compiler's `source` tree.
    pub source_search_paths: Vec<String>,
    /// The project's own binary whenever `executable` is not it: the
    /// package or DLL a host loads, or the program a Host Application starts.
    pub modules: Vec<DebugModule>,
    /// Command-line arguments: the dproj's `Debugger_RunParams` fused with the
    /// saved Start Parameters.
    pub args: Vec<String>,
    /// Human-readable problems that will degrade or break a session:
    /// missing executable or module, missing or stale symbols, a non-Windows
    /// platform, and every input that could not be read (an unparsable dproj,
    /// a missing `rsvars.bat`), since the target is then described from less
    /// than the IDE would use.
    pub warnings: Vec<String>,
}

// ─── Plain values ────────────────────────────────────────────────────────────

/// The texts of [`SymbolFiles`].
#[verifier::ext_equal]
pub struct SymbolsView {
    pub map: Seq<char>,
    pub rsm: Seq<char>,
}

/// The texts of a [`DebugModule`].
#[verifier::ext_equal]
pub struct ModuleView {
    pub name: Seq<char>,
    pub binary: Option<Seq<char>>,
    pub map: Option<Seq<char>>,
    pub rsm: Option<Seq<char>>,
    pub dcp: Option<Seq<char>>,
}

/// The plain value of a [`DebugTarget`].
#[verifier::ext_equal]
pub struct TargetView {
    pub project_id: Option<usize>,
    pub project: Seq<char>,
    pub project_file: Seq<char>,
    pub main_source: Option<Seq<char>>,
    pub kind: DebugTargetKind,
    pub executable: Seq<char>,
    pub host_application: Option<Seq<char>>,
    pub compiler: Seq<char>,
    pub config: Seq<char>,
    pub platform: Seq<char>,
    pub bitness: Option<u8>,
    pub symbols: SymbolsView,
    pub source_root: Seq<char>,
    pub source_search_paths: Seq<Seq<char>>,
    pub modules: Seq<ModuleView>,
    pub args: Seq<Seq<char>>,
    pub warnings: Seq<Seq<char>>,
}

impl View for SymbolFiles {
    type V = SymbolsView;

    open spec fn view(&self) -> SymbolsView {
        SymbolsView { map: self.map@, rsm: self.rsm@ }
    }
}

impl Default for SymbolFiles {
    fn default() -> (res: Self)
        ensures
            res@ == (SymbolsView { map: Seq::empty(), rsm: Seq::empty() }),
    {
        let res = SymbolFiles { map: String::new(), rsm: String::new() };
        proof {
            assert(res@ =~= SymbolsView { map: Seq::empty(), rsm: Seq::empty() });
        }
        res
    }
}

impl View for DebugModule {
    type V = ModuleView;

    open spec fn view(&self) -> ModuleView {
        ModuleView {
            name: self.name@,
            binary: text::opt(self.binary),
            map: text::opt(self.map),
            rsm: text::opt(self.rsm),
            dcp: text::opt(self.dcp),
        }
    }
}

/// The plain values of a list of modules.
pub open spec fn modules_view(modules: Seq<DebugModule>) -> Seq<ModuleView> {
    modules.map_values(|m: DebugModule| m@)
}

impl View for DebugTarget {
    type V = TargetView;

    open spec fn view(&self) -> TargetView {
        TargetView {
            project_id: self.project_id,
            project: self.project@,
            project_file: self.project_file@,
            main_source: text::opt(self.main_source),
            kind: self.kind,
            executable: self.executable@,
            host_application: text::opt(self.host_application),
            compiler: self.compiler@,
            config: self.config@,
            platform: self.platform@,
            bitness: self.bitness,
            symbols: self.symbols@,
            source_root: self.source_root@,
            source_search_paths: text::texts(self.source_search_paths@),
            modules: modules_view(self.modules@),
            args: text::texts(self.args@),
            warnings: text::texts(self.warnings@),
        }
    }
}

// ─── As text ─────────────────────────────────────────────────────────────────

/// The word for a kind of target.
pub open spec fn kind_word(kind: DebugTargetKind) -> Seq<char> {
    match kind {
        DebugTargetKind::Program => "program"@,
        DebugTargetKind::Package => "package"@,
        DebugTargetKind::Library => "library"@,
    }
}

/// The line of a module.
pub open spec fn module_line(module: ModuleView) -> Seq<char> {
    "  module:       "@ + module.name + " -> "@ + (match module.binary {
        Some(binary) => binary,
        None => "(not built)"@,
    }) + "\n"@
}

/// The lines of the modules, in order.
pub open spec fn module_lines(modules: Seq<ModuleView>) -> Seq<char>
    decreases modules.len(),
{
    if modules.len() == 0 {
        Seq::empty()
    } else {
        module_lines(modules.drop_last()) + module_line(modules.last())
    }
}

/// The lines of the warnings, in order.
pub open spec fn warning_lines(warnings: Seq<Seq<char>>) -> Seq<char>
    decreases warnings.len(),
{
    if warnings.len() == 0 {
        Seq::empty()
    } else {
        warning_lines(warnings.drop_last()) + ("- "@ + warnings.last() + "\n"@)
    }
}

impl TargetView {
    /// What the target is of.
    pub open spec fn headline(self) -> Seq<char> {
        "Debug target for \""@ + self.project + "\" ("@ + kind_word(self.kind) + ", "@ + self.config
            + " "@ + self.platform + ", "@ + self.compiler + "):\n"@
    }

    /// The line of the Host Application, where there is one.
    pub open spec fn host_line(self) -> Seq<char> {
        match self.host_application {
            Some(host) => "  host app:     "@ + host + "\n"@,
            None => Seq::empty(),
        }
    }

    /// The line of the arguments, where there are any.
    pub open spec fn args_line(self) -> Seq<char> {
        if self.args.len() > 0 {
            "  args:         "@ + text::joined(self.args, " "@) + "\n"@
        } else {
            Seq::empty()
        }
    }

    /// The lines of the warnings under their heading, where there are any.
    pub open spec fn warnings_block(self) -> Seq<char> {
        if self.warnings.len() > 0 {
            "Warnings:\n"@ + warning_lines(self.warnings)
        } else {
            Seq::empty()
        }
    }

    /// The target as text.
    pub open spec fn rendered(self) -> Seq<char> {
        self.headline() + ("  project file: "@ + self.project_file + "\n"@) + (
        "  executable:   "@ + self.executable + "\n"@) + self.host_line() + ("  map / rsm:    "@
            + self.symbols.map + " / "@ + self.symbols.rsm + "\n"@) + module_lines(self.modules)
            + self.args_line() + ("  source root:  "@ + self.source_root + "\n"@) + (
        "  source paths: "@ + text::decimal(self.source_search_paths.len()) + " directories\n"@)
            + self.warnings_block()
    }
}

impl DebugTarget {
    /// The target as text, one fact to a line.
    pub fn render(&self) -> (res: String)
        ensures
            res@ == self@.rendered(),
    {
        let kind = match self.kind {
            DebugTargetKind::Program => "program",
            DebugTargetKind::Package => "package",
            DebugTargetKind::Library => "library",
        };
        let mut out = "Debug target for \"".to_owned().concat(self.project.as_str()).concat(
            "\" (",
        ).concat(kind).concat(", ").concat(self.config.as_str()).concat(" ").concat(
            self.platform.as_str(),
        ).concat(", ").concat(self.compiler.as_str()).concat("):\n");
        out.append(line("  project file: ", self.project_file.as_str()).as_str());
        out.append(line("  executable:   ", self.executable.as_str()).as_str());
        out.append(self.render_host().as_str());
        out.append(
            "  map / rsm:    ".to_owned().concat(self.symbols.map.as_str()).concat(" / ").concat(
                self.symbols.rsm.as_str(),
            ).concat("\n").as_str(),
        );
        out.append(render_modules(&self.modules).as_str());
        out.append(self.render_args().as_str());
        out.append(line("  source root:  ", self.source_root.as_str()).as_str());
        out.append(
            "  source paths: ".to_owned().concat(
                text::to_decimal(self.source_search_paths.len()).as_str(),
            ).concat(" directories\n").as_str(),
        );
        out.append(self.render_warnings().as_str());
        out
    }

    fn render_host(&self) -> (res: String)
        ensures
            res@ == self@.host_line(),
    {
        match &self.host_application {
            Some(host) => line("  host app:     ", host.as_str()),
            None => String::new(),
        }
    }

    fn render_args(&self) -> (res: String)
        ensures
            res@ == self@.args_line(),
    {
        if self.args.len() > 0 {
            line("  args:         ", text::join(&self.args, " ").as_str())
        } else {
            String::new()
        }
    }

    fn render_warnings(&self) -> (res: String)
        ensures
            res@ == self@.warnings_block(),
    {
        if self.warnings.len() > 0 {
            "Warnings:\n".to_owned().concat(bullet_list(&self.warnings).as_str())
        } else {
            String::new()
        }
    }
}

fn line(label: &str, value: &str) -> (res: String)
    ensures
        res@ == label@ + value@ + "\n"@,
{
    label.to_owned().concat(value).concat("\n")
}

fn render_modules(modules: &Vec<DebugModule>) -> (res: String)
    ensures
        res@ == module_lines(modules_view(modules@)),
{
    let ghost all = modules_view(modules@);
    let mut out = String::new();
    let mut i: usize = 0;
    while i < modules.len()
        invariant
            i <= modules@.len(),
            all == modules_view(modules@),
            out@ == module_lines(all.take(i as int)),
        decreases modules@.len() - i,
    {
        proof {
            assert(all.take(i + 1).drop_last() == all.take(i as int));
            assert(all.take(i + 1).last() == modules@[i as int]@);
        }
        let binary: &str = match &modules[i].binary {
            Some(binary) => binary.as_str(),
            None => "(not built)",
        };
        out.append(
            "  module:       ".to_owned().concat(modules[i].name.as_str()).concat(" -> ").concat(
                binary,
            ).concat("\n").as_str(),
        );
        i = i + 1;
    }
    proof {
        assert(all.take(i as int) == all);
    }
    out
}

fn bullet_list(warnings: &Vec<String>) -> (res: String)
    ensures
        res@ == warning_lines(text::texts(warnings@)),
{
    let ghost all = text::texts(warnings@);
    let mut out = String::new();
    let mut i: usize = 0;
    while i < warnings.len()
        invariant
            i <= warnings@.len(),
            all == text::texts(warnings@),
            out@ == warning_lines(all.take(i as int)),
        decreases warnings@.len() - i,
    {
        proof {
            assert(all.take(i + 1).drop_last() == all.take(i as int));
            assert(all.take(i + 1).last() == warnings@[i as int]@);
        }
        out.append(line("- ", warnings[i].as_str()).as_str());
        i = i + 1;
    }
    proof {
        assert(all.take(i as int) == all);
    }
    out
}

} // verus!
