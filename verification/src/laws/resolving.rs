//! Laws of what a context resolves.

use vstd::prelude::*;

use crate::builder;
use crate::context;
use crate::directive;
use crate::files;
use crate::macro_map;
use crate::paths;
use crate::resolve;
use crate::target::DebugTargetKind;
use crate::text;

verus! {

/// A project with a `.dpk` builds a package; of the others, those whose dproj
/// says `true` of `GenDll`, in any casing, build a library, and the rest a
/// program.
pub proof fn kind_follows_dpk_and_dproj(context: context::ContextView)
    ensures
        context.project.dpk is Some <==> resolve::kind_of(context) == DebugTargetKind::Package,
        resolve::kind_of(context) == DebugTargetKind::Library <==> context.project.dpk is None && (
        context.group matches Some(group) && group.gen_dll matches Some(value) && text::upper(value)
            == text::upper("true"@)),
{
}

/// Whether `path` is what the text `raw`, which names a file or directory, leads
/// to: every macro in it resolves, and a relative path is taken from the
/// directory of the project.
pub open spec fn leads_to(context: context::ContextView, raw: Seq<char>, path: Seq<char>) -> bool {
    let expanded = context.macros.expand(text::trimmed(raw));
    &&& !macro_map::has_reference(expanded)
    &&& path == paths::normalized(
        if paths::path_is_relative(expanded) {
            paths::path_join(context.project.directory@, expanded)
        } else {
            expanded
        },
    )
}

/// A setting names a directory exactly when it is not blank and every macro in
/// it resolves; then it is the one that the expanded text leads to.
pub proof fn settings_name_directories(context: context::ContextView, raw: Seq<char>)
    ensures
        resolve::directory_of(context, None) is None,
        resolve::directory_of(context, Some(raw)) is Some <==> !text::blank(raw)
            && !macro_map::has_reference(context.macros.expand(text::trimmed(raw))),
        resolve::directory_of(context, Some(raw)) matches Some(dir) ==> leads_to(context, raw, dir),
{
}

/// White space around a setting does not matter.
pub proof fn space_around_settings_does_not_matter(
    context: context::ContextView,
    raw: Seq<char>,
    other: Seq<char>,
)
    requires
        text::trimmed(raw) == text::trimmed(other),
    ensures
        resolve::directory_of(context, Some(raw)) == resolve::directory_of(context, Some(other)),
{
}

/// The Host Application of the dproj is there exactly when its element names
/// something once every macro is resolved; then it is the file that the text
/// leads to.
pub proof fn dproj_names_the_host(context: context::ContextView)
    ensures
        context.group is None ==> resolve::dproj_host(context) is None,
        context.group matches Some(group) ==> {
            let tag = "Debugger_HostApplication"@;
            let raw = group.other[tag];
            let expanded = context.macros.expand(text::trimmed(raw));
            &&& resolve::dproj_host(context) is Some <==> group.other.contains_key(tag)
                && !macro_map::has_reference(expanded) && expanded.len() > 0
            &&& resolve::dproj_host(context) matches Some(host) ==> leads_to(context, raw, host)
        },
{
}

/// The Host Application is the one chosen for the project, where it can be
/// launched; else the one of the dproj; and where that could not be evaluated,
/// the one on record, where it can be launched.
pub proof fn hosts_come_in_order(context: context::ContextView)
    ensures
        ({
            let host = builder::host_of(context);
            let chosen = text::opt(context.project.host_application);
            let recorded = text::opt(context.project.dproj_host_application);
            if can_be_launched(chosen) {
                host == chosen
            } else if resolve::dproj_host(context) is Some {
                host == resolve::dproj_host(context)
            } else if context.group is None && can_be_launched(recorded) {
                host == recorded
            } else {
                host is None
            }
        }),
{
}

/// Whether a Host Application on record is more than white space, and no `$(`
/// is left in it.
pub open spec fn can_be_launched(host: Option<Seq<char>>) -> bool {
    host matches Some(path) && !text::blank(path) && !macro_map::has_reference(path)
}

// ─── The suffix ──────────────────────────────────────────────────────────────

/// A suffix that the dproj gives wins, whatever the main source says: it is
/// that text without the white space around it.
pub proof fn suffix_of_the_dproj_wins(
    context: context::ContextView,
    files: Map<Seq<char>, files::FileView>,
    suffix: Seq<char>,
)
    requires
        context.group matches Some(g) && g.other.contains_key("DllSuffix"@)
            && g.other["DllSuffix"@] == suffix,
        !text::blank(suffix),
    ensures
        resolve::declared(context, files) == Some(text::trimmed(suffix)),
{
}

/// The main source matters for the suffix only where the dproj gives none: on
/// any two disks the same suffix is declared where it does.
pub proof fn main_source_is_the_fallback(
    context: context::ContextView,
    one: Map<Seq<char>, files::FileView>,
    other: Map<Seq<char>, files::FileView>,
)
    requires
        context.group matches Some(g) && g.other.contains_key("DllSuffix"@) && !text::blank(
            g.other["DllSuffix"@],
        ),
    ensures
        resolve::declared(context, one) == resolve::declared(context, other),
        resolve::stem_of(context, one) == resolve::stem_of(context, other),
{
}

/// What is declared becomes the suffix: a word for automatic, in any casing,
/// the package version of the compiler; any other text its expansion, and
/// nothing where a macro in it stays unresolved; nothing where nothing is
/// declared. The stem is the name of the project and then the suffix.
pub proof fn declared_suffix_is_used(
    context: context::ContextView,
    files: Map<Seq<char>, files::FileView>,
)
    ensures
        ({
            let suffix = resolve::lib_suffix_of(context, files);
            &&& resolve::stem_of(context, files) == context.project.name@ + suffix
            &&& resolve::declared(context, files) is None ==> suffix.len() == 0
            &&& resolve::declared(context, files) matches Some(declared) ==> {
                let expanded = context.macros.expand(declared);
                let automatic = text::upper(declared) == text::upper("auto"@) || text::upper(
                    declared,
                ) == text::upper("$(Auto)"@);
                &&& automatic ==> suffix == text::decimal(context.compiler.package_version as nat)
                &&& !automatic && macro_map::has_reference(expanded) ==> suffix.len() == 0
                &&& !automatic && !macro_map::has_reference(expanded) ==> suffix == expanded
            }
        }),
{
}

/// The directive is looked for by one pattern in the whole text of the main
/// source: its word for automatic counts first, else what stands between the
/// quotes, without the white space around it. A source that cannot be read
/// declares nothing.
pub proof fn directives_are_looked_for_in_the_whole_source(
    files: Map<Seq<char>, files::FileView>,
    path: Seq<char>,
)
    ensures
        ({
            let pattern = "(?i)\\{\\$LIBSUFFIX\\s+(?:'(?P<quoted>[^']*)'|(?P<auto>AUTO))\\s*\\}"@;
            let suffix = directive::directive_suffix(files, path);
            match files::at(files, path).contents {
                Ok(source) => {
                    let auto = directive::regex_group(pattern, source, "auto"@);
                    let quoted = directive::regex_group(pattern, source, "quoted"@);
                    &&& auto is Some ==> suffix == Some("AUTO"@)
                    &&& auto is None && quoted is Some ==> suffix == Some(text::trimmed(quoted->0))
                    &&& auto is None && quoted is None ==> suffix is None
                },
                Err(_) => suffix is None,
            }
        }),
{
}

// ─── Default directories ─────────────────────────────────────────────────────

/// The IDE's default package output is a folder of the common directory, that
/// of the platform below it first; where that directory is unknown there is
/// none.
pub proof fn common_directories_come_with_the_platform_first(
    context: context::ContextView,
    kind: Seq<char>,
)
    ensures
        ({
            let dirs = resolve::common_dirs(context, kind);
            match resolve::directory_of(context, Some("$(BDSCOMMONDIR)\\"@ + kind)) {
                Some(root) => {
                    &&& dirs.len() == 2
                    &&& dirs[0] == paths::path_join(root, context.platform)
                    &&& dirs[1] == root
                },
                None => dirs.len() == 0,
            }
        }),
{
}

/// A build goes by default to the folder of the configuration in that of the
/// platform, below the project.
pub proof fn default_output_is_by_platform_and_configuration(context: context::ContextView)
    ensures
        resolve::default_output(context) == paths::path_join(
            paths::path_join(context.project.directory@, context.platform),
            context.config,
        ),
{
}

} // verus!
