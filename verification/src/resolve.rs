//! What a context resolves: the kind of the target, its host application, and
//! the directories that its settings name.

use vstd::prelude::*;
use vstd::string::*;

use crate::context;
use crate::context::TargetContext;
use crate::directive;
use crate::files;
use crate::files::Files;
use crate::macro_map;
use crate::paths;
use crate::project::Project;
use crate::target::DebugTargetKind;
use crate::text;

verus! {

/// The element `tag` of the dproj's group, where it has one.
pub open spec fn element(context: context::ContextView, tag: Seq<char>) -> Option<Seq<char>> {
    match context.group {
        Some(group) => if group.other.contains_key(tag) {
            Some(group.other[tag])
        } else {
            None
        },
        None => None,
    }
}

/// What a project builds: a package where it has a `.dpk`, a library where its
/// dproj generates a DLL, else a program.
pub open spec fn kind_of(context: context::ContextView) -> DebugTargetKind {
    if context.project.dpk is Some {
        DebugTargetKind::Package
    } else {
        match context.group {
            Some(group) => match group.gen_dll {
                Some(value) => if text::same_name(value, "true"@) {
                    DebugTargetKind::Library
                } else {
                    DebugTargetKind::Program
                },
                None => DebugTargetKind::Program,
            },
            None => DebugTargetKind::Program,
        }
    }
}

/// A text with its references expanded; nothing where one stays unresolved.
pub open spec fn fully_expanded(context: context::ContextView, s: Seq<char>) -> Option<Seq<char>> {
    let expanded = context.macros.expand(s);
    if macro_map::has_reference(expanded) {
        None
    } else {
        Some(expanded)
    }
}

/// The Host Application that the dproj names for the effective configuration
/// and platform.
pub open spec fn dproj_host(context: context::ContextView) -> Option<Seq<char>> {
    match element(context, "Debugger_HostApplication"@) {
        Some(raw) => match fully_expanded(context, text::trimmed(raw)) {
            Some(host) => if host.len() == 0 {
                None
            } else {
                Some(paths::absolute(host, context.project.directory@))
            },
            None => None,
        },
        None => None,
    }
}

/// The directory that a setting names, expanded and seen from the project;
/// nothing where it is blank or a macro stays unresolved.
pub open spec fn directory_of(context: context::ContextView, raw: Option<Seq<char>>) -> Option<
    Seq<char>,
> {
    match raw {
        Some(raw) => if text::blank(raw) {
            None
        } else {
            match fully_expanded(context, text::trimmed(raw)) {
                Some(dir) => Some(paths::absolute(dir, context.project.directory@)),
                None => None,
            }
        },
        None => None,
    }
}

/// `$(BDSCOMMONDIR)\<kind>\<platform>`, then `$(BDSCOMMONDIR)\<kind>`; nothing
/// where that macro is not defined.
pub open spec fn common_dirs(context: context::ContextView, kind: Seq<char>) -> Seq<Seq<char>> {
    match directory_of(context, Some("$(BDSCOMMONDIR)\\"@ + kind)) {
        Some(root) => seq![paths::path_join(root, context.platform), root],
        None => Seq::empty(),
    }
}

/// `<project>\<Platform>\<Config>`: where a build goes by default.
pub open spec fn default_output(context: context::ContextView) -> Seq<char> {
    paths::path_join(
        paths::path_join(context.project.directory@, context.platform),
        context.config,
    )
}

/// The main source that can declare a suffix: the package's, else the one of
/// the program or library.
pub open spec fn suffix_source(project: Project) -> Option<Seq<char>> {
    match project.dpk {
        Some(dpk) => Some(dpk@),
        None => text::opt(project.dpr),
    }
}

/// The suffix that the project declares for its binary: the dproj's
/// `DllSuffix` unless it is blank, else that of the main source.
pub open spec fn declared(
    context: context::ContextView,
    files: Map<Seq<char>, files::FileView>,
) -> Option<Seq<char>> {
    match element(context, "DllSuffix"@) {
        Some(suffix) if !text::blank(suffix) => Some(text::trimmed(suffix)),
        _ => match suffix_source(context.project) {
            Some(source) => directive::directive_suffix(files, source),
            None => None,
        },
    }
}

/// The `LIBSUFFIX` of the package or DLL.
pub open spec fn lib_suffix_of(
    context: context::ContextView,
    files: Map<Seq<char>, files::FileView>,
) -> Seq<char> {
    match declared(context, files) {
        None => Seq::empty(),
        Some(suffix) => if text::same_name(suffix, "auto"@) || text::same_name(
            suffix,
            "$(Auto)"@,
        ) {
            text::decimal(context.compiler.package_version as nat)
        } else {
            match fully_expanded(context, suffix) {
                Some(expanded) => expanded,
                None => Seq::empty(),
            }
        },
    }
}

/// The file name stem of the built package or DLL.
pub open spec fn stem_of(
    context: context::ContextView,
    files: Map<Seq<char>, files::FileView>,
) -> Seq<char> {
    context.project.name@ + lib_suffix_of(context, files)
}

impl<'a> TargetContext<'a> {
    /// The kind of target.
    pub fn kind(&self) -> (res: DebugTargetKind)
        ensures
            res == kind_of(self@),
    {
        if self.project.dpk.is_some() {
            return DebugTargetKind::Package;
        }
        let generates_dll: bool = match &self.group {
            Some(group) => match &group.gen_dll {
                Some(value) => text::is_same_name(value.as_str(), "true"),
                None => false,
            },
            None => false,
        };
        if generates_dll {
            return DebugTargetKind::Library;
        }
        DebugTargetKind::Program
    }

    /// The element `tag` of the dproj's group.
    fn element(&self, tag: &str) -> (res: Option<String>)
        ensures
            text::opt(res) == element(self@, tag@),
    {
        match &self.group {
            Some(group) => match group.other.get(tag) {
                Some(value) => Some(value.clone()),
                None => None,
            },
            None => None,
        }
    }

    /// `s` with its references expanded, unless one stays unresolved.
    fn expand_fully(&self, s: &str) -> (res: Option<String>)
        ensures
            text::opt(res) == fully_expanded(self@, s@),
    {
        let expanded = self.macros.expand(s);
        if macro_map::contains_reference(expanded.as_str()) {
            None
        } else {
            Some(expanded)
        }
    }

    /// The dproj's own `Debugger_HostApplication` for the effective
    /// configuration/platform, read live and macro-expanded: the fallback
    /// when the persisted project state predates host discovery or is stale.
    pub fn dproj_host_application(&self) -> (res: Option<String>)
        ensures
            text::opt(res) == dproj_host(self@),
    {
        match self.element("Debugger_HostApplication") {
            Some(raw) => match self.expand_fully(text::trim(raw.as_str()).as_str()) {
                Some(host) => if host.as_str().is_empty() {
                    None
                } else {
                    Some(paths::absolutize(host.as_str(), self.project.directory.as_str()))
                },
                None => None,
            },
            None => None,
        }
    }

    /// The file name stem of the built package/DLL: the project name plus
    /// its `LIBSUFFIX`.
    pub fn binary_stem(&self, files: &Files) -> (res: String)
        ensures
            res@ == stem_of(self@, files@),
    {
        self.project.name.clone().concat(self.lib_suffix(files).as_str())
    }

    /// The suffix declared for the binary.
    fn declared_suffix(&self, files: &Files) -> (res: Option<String>)
        ensures
            text::opt(res) == declared(self@, files@),
    {
        match self.element("DllSuffix") {
            Some(suffix) => {
                let suffix = text::trim(suffix.as_str());
                if !suffix.as_str().is_empty() {
                    return Some(suffix);
                }
            },
            None => {},
        }
        match &self.project.dpk {
            Some(dpk) => directive::lib_suffix_directive(dpk.as_str(), files),
            None => match &self.project.dpr {
                Some(dpr) => directive::lib_suffix_directive(dpr.as_str(), files),
                None => None,
            },
        }
    }

    /// The `LIBSUFFIX` of the package/DLL: the dproj's `DllSuffix` (already
    /// macro-expanded, `$(Auto)` included), else the `{$LIBSUFFIX}` directive
    /// of the main source, the only place a hand-maintained package
    /// declares it, where `AUTO` means the compiler's package version.
    pub fn lib_suffix(&self, files: &Files) -> (res: String)
        ensures
            res@ == lib_suffix_of(self@, files@),
    {
        match self.declared_suffix(files) {
            None => String::new(),
            Some(suffix) => if text::is_same_name(suffix.as_str(), "auto") || text::is_same_name(
                suffix.as_str(),
                "$(Auto)",
            ) {
                text::to_decimal(self.compiler.package_version)
            } else {
                match self.expand_fully(suffix.as_str()) {
                    Some(expanded) => expanded,
                    None => String::new(),
                }
            },
        }
    }

    /// Expands and absolutizes a directory value; `None` when a macro stays
    /// unresolved (not a usable directory).
    pub fn expanded_dir(&self, raw: Option<&str>) -> (res: Option<String>)
        ensures
            text::opt(res) == directory_of(
                self@,
                match raw {
                    Some(raw) => Some(raw@),
                    None => None,
                },
            ),
    {
        match raw {
            Some(raw) => {
                let raw = text::trim(raw);
                if raw.as_str().is_empty() {
                    return None;
                }
                match self.expand_fully(raw.as_str()) {
                    Some(dir) => Some(
                        paths::absolutize(dir.as_str(), self.project.directory.as_str()),
                    ),
                    None => None,
                }
            },
            None => None,
        }
    }

    /// [`TargetContext::expanded_dir`] of a setting.
    pub fn setting_dir(&self, raw: &Option<String>) -> (res: Option<String>)
        ensures
            text::opt(res) == directory_of(self@, text::opt(*raw)),
    {
        match raw {
            Some(raw) => self.expanded_dir(Some(raw.as_str())),
            None => None,
        }
    }

    /// `$(BDSCOMMONDIR)\<kind>\<platform>` then `$(BDSCOMMONDIR)\<kind>`: the
    /// IDE's default package output, platform subdirectory first (Win32
    /// builds land in the root).
    pub fn common_output_dirs(&self, kind: &str) -> (res: Vec<String>)
        ensures
            text::texts(res@) == common_dirs(self@, kind@),
    {
        let mut dirs: Vec<String> = Vec::new();
        let raw = "$(BDSCOMMONDIR)\\".to_owned().concat(kind);
        match self.expanded_dir(Some(raw.as_str())) {
            Some(root) => {
                dirs.push(paths::join(root.as_str(), self.platform.as_str()));
                dirs.push(root);
            },
            None => {},
        }
        proof {
            assert(text::texts(dirs@) =~= common_dirs(self@, kind@));
        }
        dirs
    }

    /// `<project>\<Platform>\<Config>`.
    pub fn default_output_dir(&self) -> (res: String)
        ensures
            res@ == default_output(self@),
    {
        paths::join(
            paths::join(self.project.directory.as_str(), self.platform.as_str()).as_str(),
            self.config.as_str(),
        )
    }
}

} // verus!
