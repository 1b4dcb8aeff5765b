//! The projects and compilers that a debug target is described from.

use vstd::prelude::*;

use crate::text;

verus! {

/// A Delphi project as it is on record: where its files are, and what was
/// found or chosen for it.
pub struct Project {
    pub id: usize,
    pub name: String,
    pub directory: String,
    /// The program's main source.
    pub dpr: Option<String>,
    /// The package's main source.
    pub dpk: Option<String>,
    pub dproj: Option<String>,
    /// The built executable.
    pub exe: Option<String>,
    /// The Host Application chosen for the project.
    pub host_application: Option<String>,
    /// The Host Application that the dproj named when it was last looked at.
    pub dproj_host_application: Option<String>,
    /// The run parameters that the dproj named when it was last looked at.
    pub dproj_run_params: Option<String>,
    /// The saved start parameters.
    pub start_parameters: Option<String>,
    pub active_configuration: Option<String>,
    pub active_platform: Option<String>,
}

impl Default for Project {
    fn default() -> (res: Self)
        ensures
            res.id == 0,
            res.name@ == Seq::<char>::empty(),
            res.directory@ == Seq::<char>::empty(),
            res.dpr is None,
            res.dpk is None,
            res.dproj is None,
            res.exe is None,
            res.host_application is None,
            res.dproj_host_application is None,
            res.dproj_run_params is None,
            res.start_parameters is None,
            res.active_configuration is None,
            res.active_platform is None,
    {
        Project {
            id: 0,
            name: String::new(),
            directory: String::new(),
            dpr: None,
            dpk: None,
            dproj: None,
            exe: None,
            host_application: None,
            dproj_host_application: None,
            dproj_run_params: None,
            start_parameters: None,
            active_configuration: None,
            active_platform: None,
        }
    }
}

/// The compiler that a project builds with.
pub struct CompilerConfiguration {
    pub condition: String,
    pub product_name: String,
    /// The BDS major version (`23` for Delphi 12).
    pub product_version: usize,
    /// The version suffix of packages (`290` for Delphi 12).
    pub package_version: usize,
    pub compiler_version: usize,
    pub installation_path: String,
    pub build_arguments: Vec<String>,
}

/// The first of `chosen` and `found` that there is, else `fallback`.
pub open spec fn first_of(
    chosen: Option<Seq<char>>,
    found: Option<Seq<char>>,
    fallback: Seq<char>,
) -> Seq<char> {
    match chosen {
        Some(c) => c,
        None => match found {
            Some(f) => f,
            None => fallback,
        },
    }
}

/// The configuration that counts for `project` when its dproj defaults to
/// `found`.
pub open spec fn config_of(project: Project, found: Option<Seq<char>>) -> Seq<char> {
    first_of(text::opt(project.active_configuration), found, "Debug"@)
}

/// The platform that counts for `project` when its dproj defaults to `found`.
pub open spec fn platform_of(project: Project, found: Option<Seq<char>>) -> Seq<char> {
    first_of(text::opt(project.active_platform), found, "Win32"@)
}

/// The configuration and the platform that count for `project`: those chosen
/// for it, else the defaults of its dproj, else `Debug` and `Win32`.
pub fn effective_config_platform(
    project: &Project,
    found_config: Option<String>,
    found_platform: Option<String>,
) -> (res: (String, String))
    ensures
        res.0@ == config_of(*project, text::opt(found_config)),
        res.1@ == platform_of(*project, text::opt(found_platform)),
{
    let config = match &project.active_configuration {
        Some(config) => config.clone(),
        None => match found_config {
            Some(config) => config,
            None => "Debug".to_owned(),
        },
    };
    let platform = match &project.active_platform {
        Some(platform) => platform.clone(),
        None => match found_platform {
            Some(platform) => platform,
            None => "Win32".to_owned(),
        },
    };
    (config, platform)
}

} // verus!
