//! What a target is described in: the effective configuration and platform,
//! the dproj evaluated for them, the macros and the IDE's library settings.

use vstd::prelude::*;
use vstd::string::*;

use crate::dproj;
use crate::dproj::PropertyGroup;
use crate::environment;
use crate::environment::IdeEnvironment;
use crate::files;
use crate::files::Files;
use crate::ide;
use crate::macro_map;
use crate::macro_map::MacroMap;
use crate::project;
use crate::project::{CompilerConfiguration, Project};
use crate::registry;
use crate::registry::{IdeLibrarySettings, IdeRegistryRoot};
use crate::text;

verus! {

/// Everything the builder needs, resolved once: the effective configuration
/// and platform, the dproj evaluated for them, the macro map that expands
/// `$(NAME)` the way the IDE would, and the IDE's library settings. Every
/// input that fails to load is reported in the warnings and replaced by the
/// best available fallback, never silently.
pub struct TargetContext<'a> {
    pub project: &'a Project,
    pub compiler: &'a CompilerConfiguration,
    pub config: String,
    pub platform: String,
    /// The dproj's merged property group for config/platform, `$(…)` expanded.
    pub group: Option<PropertyGroup>,
    pub macros: MacroMap,
    pub library: IdeLibrarySettings,
}

/// The plain value of a [`TargetContext`].
#[verifier::ext_equal]
pub struct ContextView {
    pub project: Project,
    pub compiler: CompilerConfiguration,
    pub config: Seq<char>,
    pub platform: Seq<char>,
    pub group: Option<dproj::GroupView>,
    pub macros: macro_map::MacroView,
    pub library: registry::LibraryView,
}

impl View for TargetContext<'_> {
    type V = ContextView;

    open spec fn view(&self) -> ContextView {
        ContextView {
            project: *self.project,
            compiler: *self.compiler,
            config: self.config@,
            platform: self.platform@,
            group: dproj::group_opt(self.group),
            macros: self.macros@,
            library: self.library@,
        }
    }
}

// ─── The environment ─────────────────────────────────────────────────────────

/// The macros of the installation; none where its environment could not be
/// read: without it no `$(BDS)`-relative path resolves.
pub open spec fn environment_macros(
    compiler: CompilerConfiguration,
    environment: Result<environment::EnvironmentView, Seq<char>>,
) -> macro_map::MacroView {
    match environment {
        Ok(environment) => environment.macros(compiler.installation_path@),
        Err(_) => macro_map::MacroView::empty(),
    }
}

/// That the environment could not be read, if so.
pub open spec fn environment_warnings(
    compiler: CompilerConfiguration,
    environment: Result<environment::EnvironmentView, Seq<char>>,
) -> Seq<Seq<char>> {
    match environment {
        Ok(_) => Seq::empty(),
        Err(error) => seq![
            "The IDE environment of "@ + compiler.product_name@ + " could not be read ("@ + error
                + "); $(BDS)-relative paths will stay unresolved."@,
        ],
    }
}

/// The macros that the dproj is evaluated with. `<DllSuffix>$(Auto)</DllSuffix>`:
/// the IDE's automatic LIBSUFFIX is the package version (`290` for Delphi 12).
pub open spec fn project_macros(
    project: Project,
    compiler: CompilerConfiguration,
    environment: Result<environment::EnvironmentView, Seq<char>>,
) -> macro_map::MacroView {
    environment_macros(compiler, environment).set("ProjectDir"@, project.directory@).set(
        "ProjectName"@,
        project.name@,
    ).set("Auto"@, text::decimal(compiler.package_version as nat))
}

// ─── The dproj ───────────────────────────────────────────────────────────────

/// The XML of the project's dproj, or why it cannot be evaluated; nothing
/// where the project has none.
pub open spec fn dproj_source(
    project: Project,
    files: Map<Seq<char>, files::FileView>,
) -> Option<Result<Seq<char>, Seq<char>>> {
    match project.dproj {
        Some(path) => Some(
            match files::at(files, path@).contents {
                Ok(source) => match dproj::dproj_parse_error(source) {
                    Some(error) => Err(error),
                    None => Ok(source),
                },
                Err(error) => Err(error),
            },
        ),
        None => None,
    }
}

/// The XML of the project's dproj, where it can be evaluated.
pub open spec fn usable_source(
    project: Project,
    files: Map<Seq<char>, files::FileView>,
) -> Option<Seq<char>> {
    match dproj_source(project, files) {
        Some(Ok(source)) => Some(source),
        _ => None,
    }
}

/// That the dproj could not be evaluated, if so.
pub open spec fn dproj_warnings(
    project: Project,
    files: Map<Seq<char>, files::FileView>,
) -> Seq<Seq<char>> {
    match (project.dproj, dproj_source(project, files)) {
        (Some(path), Some(Err(error))) => seq![
            "Could not evaluate "@ + path@ + " ("@ + error
                + "); the target is described from DevKit's recorded project state alone, so config/platform, host application and search paths may be incomplete."@,
        ],
        _ => Seq::empty(),
    }
}

/// The value of a result, if there is one.
pub open spec fn value_if_ok(r: Result<Seq<char>, Seq<char>>) -> Option<Seq<char>> {
    match r {
        Ok(value) => Some(value),
        Err(_) => None,
    }
}

/// The effective configuration.
pub open spec fn effective_config(
    project: Project,
    files: Map<Seq<char>, files::FileView>,
) -> Seq<char> {
    project::config_of(
        project,
        match usable_source(project, files) {
            Some(source) => value_if_ok(dproj::dproj_configuration(source)),
            None => None,
        },
    )
}

/// The effective platform.
pub open spec fn effective_platform(
    project: Project,
    files: Map<Seq<char>, files::FileView>,
) -> Seq<char> {
    project::platform_of(
        project,
        match usable_source(project, files) {
            Some(source) => value_if_ok(dproj::dproj_platform(source)),
            None => None,
        },
    )
}

/// The property group of the dproj for the effective configuration and
/// platform, or why there is none; nothing where no dproj can be evaluated.
pub open spec fn evaluated_group(
    project: Project,
    compiler: CompilerConfiguration,
    environment: Result<environment::EnvironmentView, Seq<char>>,
    files: Map<Seq<char>, files::FileView>,
) -> Option<Result<dproj::GroupView, Seq<char>>> {
    match usable_source(project, files) {
        Some(source) => Some(
            dproj::dproj_group(
                source,
                project_macros(project, compiler, environment).as_env(),
                effective_config(project, files),
                effective_platform(project, files),
            ),
        ),
        None => None,
    }
}

/// That the dproj has no group for the configuration and platform, if so.
pub open spec fn group_warnings(
    group: Option<Result<dproj::GroupView, Seq<char>>>,
    config: Seq<char>,
    platform: Seq<char>,
) -> Seq<Seq<char>> {
    match group {
        Some(Err(error)) => seq![
            "The dproj defines no property group for "@ + config + "/"@ + platform + " ("@ + error
                + "); output directories, host application and search paths from the dproj are unavailable."@,
        ],
        _ => Seq::empty(),
    }
}

/// That the IDE has no library path for the platform, if so.
pub open spec fn library_warnings(
    library: registry::LibraryView,
    platform: Seq<char>,
    compiler: CompilerConfiguration,
) -> Seq<Seq<char>> {
    if library.search_path is None && library.browsing_path is None {
        seq![
            "No IDE Library Path found for "@ + platform + " under "@ + ide::default_key_path(
                compiler,
            )
                + "; only the project's own paths and the compiler's source tree are searched for sources."@,
        ]
    } else {
        Seq::empty()
    }
}

// ─── All of it ───────────────────────────────────────────────────────────────

/// The context of a target.
pub open spec fn context_of(
    project: Project,
    compiler: CompilerConfiguration,
    environment: Result<environment::EnvironmentView, Seq<char>>,
    library: registry::LibraryView,
    files: Map<Seq<char>, files::FileView>,
) -> ContextView {
    let config = effective_config(project, files);
    let platform = effective_platform(project, files);
    ContextView {
        project,
        compiler,
        config,
        platform,
        group: match evaluated_group(project, compiler, environment, files) {
            Some(Ok(group)) => Some(group),
            _ => None,
        },
        macros: project_macros(project, compiler, environment).set("Config"@, config).set(
            "Configuration"@,
            config,
        ).set("Platform"@, platform),
        library,
    }
}

/// Which of the inputs of a context could not be read, in words.
pub open spec fn context_warnings(
    project: Project,
    compiler: CompilerConfiguration,
    environment: Result<environment::EnvironmentView, Seq<char>>,
    library: registry::LibraryView,
    files: Map<Seq<char>, files::FileView>,
) -> Seq<Seq<char>> {
    environment_warnings(compiler, environment) + dproj_warnings(project, files) + group_warnings(
        evaluated_group(project, compiler, environment, files),
        effective_config(project, files),
        effective_platform(project, files),
    ) + library_warnings(library, effective_platform(project, files), compiler)
}

// ─── What the dproj decides first ────────────────────────────────────────────

/// The dproj of a project, and the configuration and platform that it is
/// evaluated for.
pub struct Selection {
    /// The dproj's XML where it can be evaluated, or why it cannot; nothing
    /// where the project has none.
    pub dproj: Option<Result<String, String>>,
    pub config: String,
    pub platform: String,
}

impl Selection {
    /// Whether this is what the record of `project` and its dproj select.
    pub open spec fn is_of(
        self,
        project: Project,
        files: Map<Seq<char>, files::FileView>,
    ) -> bool {
        &&& dproj_source(project, files) == (match self.dproj {
            Some(source) => Some(text::outcome(source)),
            None => None,
        })
        &&& self.config@ == effective_config(project, files)
        &&& self.platform@ == effective_platform(project, files)
    }

    /// What the record of `project` and its dproj select.
    pub fn of(project: &Project, files: &Files) -> (res: Self)
        ensures
            res.is_of(*project, files@),
    {
        let dproj: Option<Result<String, String>> = match &project.dproj {
            Some(path) => Some(
                match files.read(path.as_str()) {
                    Ok(source) => match dproj::parse_error(source.as_str()) {
                        Some(error) => Err(error),
                        None => Ok(source),
                    },
                    Err(error) => Err(error),
                },
            ),
            None => None,
        };
        let (config, platform) = match &dproj {
            Some(Ok(source)) => {
                let config = match dproj::active_configuration(source.as_str()) {
                    Ok(config) => Some(config),
                    Err(_) => None,
                };
                let platform = match dproj::active_platform(source.as_str()) {
                    Ok(platform) => Some(platform),
                    Err(_) => None,
                };
                project::effective_config_platform(project, config, platform)
            },
            _ => project::effective_config_platform(project, None, None),
        };
        Selection { dproj, config, platform }
    }
}

/// The macros of the installation; a warning and none where its environment
/// could not be read.
fn macros_to_use(
    compiler: &CompilerConfiguration,
    environment: Result<IdeEnvironment, String>,
    warnings: &mut Vec<String>,
) -> (res: MacroMap)
    ensures
        res@ == environment_macros(*compiler, ide::environment_outcome(environment)),
        text::texts(final(warnings)@) == text::texts(old(warnings)@) + environment_warnings(
            *compiler,
            ide::environment_outcome(environment),
        ),
{
    let ghost told = ide::environment_outcome(environment);
    let macros = match environment {
        Ok(environment) => environment.macros(compiler.installation_path.as_str()),
        Err(error) => {
            text::push_text(
                warnings,
                "The IDE environment of ".to_owned().concat(compiler.product_name.as_str()).concat(
                    " could not be read (",
                ).concat(error.as_str()).concat("); $(BDS)-relative paths will stay unresolved."),
            );
            MacroMap::new()
        },
    };
    proof {
        assert(text::texts(warnings@) =~= text::texts(old(warnings)@) + environment_warnings(
            *compiler,
            told,
        ));
    }
    macros
}

/// A warning where the project has a dproj that cannot be evaluated.
fn check_dproj(
    project: &Project,
    selection: &Selection,
    Ghost(files): Ghost<Map<Seq<char>, files::FileView>>,
    warnings: &mut Vec<String>,
)
    requires
        selection.is_of(*project, files),
    ensures
        text::texts(final(warnings)@) == text::texts(old(warnings)@) + dproj_warnings(
            *project,
            files,
        ),
{
    match (&project.dproj, &selection.dproj) {
        (Some(path), Some(Err(error))) => {
            text::push_text(
                warnings,
                "Could not evaluate ".to_owned().concat(path.as_str()).concat(" (").concat(
                    error.as_str(),
                ).concat(
                    "); the target is described from DevKit's recorded project state alone, so config/platform, host application and search paths may be incomplete.",
                ),
            );
        },
        _ => {},
    }
    proof {
        assert(text::texts(warnings@) =~= text::texts(old(warnings)@) + dproj_warnings(
            *project,
            files,
        ));
    }
}

impl<'a> TargetContext<'a> {
    /// The context in which the target of `project` is described, for what its
    /// record and its dproj select.
    pub(crate) fn new(
        project: &'a Project,
        compiler: &'a CompilerConfiguration,
        environment: Result<IdeEnvironment, String>,
        selection: Selection,
        library: IdeLibrarySettings,
        files: &Files,
        warnings: &mut Vec<String>,
    ) -> (res: Self)
        requires
            selection.is_of(*project, files@),
        ensures
            res@ == context_of(
                *project,
                *compiler,
                ide::environment_outcome(environment),
                library@,
                files@,
            ),
            text::texts(final(warnings)@) == text::texts(old(warnings)@) + context_warnings(
                *project,
                *compiler,
                ide::environment_outcome(environment),
                library@,
                files@,
            ),
    {
        let ghost before = text::texts(warnings@);
        let ghost told = ide::environment_outcome(environment);
        let mut macros = macros_to_use(compiler, environment, warnings);
        macros.set("ProjectDir", project.directory.clone());
        macros.set("ProjectName", project.name.clone());
        macros.set("Auto", text::to_decimal(compiler.package_version));

        check_dproj(project, &selection, Ghost(files@), warnings);
        let config = selection.config;
        let platform = selection.platform;
        let group = match &selection.dproj {
            Some(Ok(source)) => {
                match dproj::property_group(
                    source.as_str(),
                    macros.as_env(),
                    config.as_str(),
                    platform.as_str(),
                ) {
                    Ok(group) => Some(group),
                    Err(error) => {
                        text::push_text(
                            warnings,
                            "The dproj defines no property group for ".to_owned().concat(
                                config.as_str(),
                            ).concat("/").concat(platform.as_str()).concat(" (").concat(
                                error.as_str(),
                            ).concat(
                                "); output directories, host application and search paths from the dproj are unavailable.",
                            ),
                        );
                        None
                    },
                }
            },
            _ => None,
        };
        proof {
            assert(text::texts(warnings@) =~= before + environment_warnings(*compiler, told)
                + dproj_warnings(*project, files@) + group_warnings(
                evaluated_group(*project, *compiler, told, files@),
                config@,
                platform@,
            ));
        }
        macros.set("Config", config.clone());
        macros.set("Configuration", config.clone());
        macros.set("Platform", platform.clone());

        if library.search_path.is_none() && library.browsing_path.is_none() {
            let root = IdeRegistryRoot::for_bds_version(compiler.product_version);
            text::push_text(
                warnings,
                "No IDE Library Path found for ".to_owned().concat(platform.as_str()).concat(
                    " under ",
                ).concat(root.key_path().as_str()).concat(
                    "; only the project's own paths and the compiler's source tree are searched for sources.",
                ),
            );
        }
        proof {
            assert(text::texts(warnings@) =~= before + context_warnings(
                *project,
                *compiler,
                told,
                library@,
                files@,
            ));
        }
        TargetContext { project, compiler, config, platform, group, macros, library }
    }
}

} // verus!
