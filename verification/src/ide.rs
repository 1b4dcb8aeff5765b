//! The inputs that come from the Delphi installation rather than from the
//! project.

use vstd::prelude::*;
use vstd::string::*;

use crate::environment;
use crate::environment::{IdeEnvironment, Installation};
use crate::project::CompilerConfiguration;
use crate::registry;
use crate::registry::{IdeLibrarySettings, IdeRegistryRoot};
use crate::text;

verus! {

/// The texts of an environment, or of the error that there is none.
pub open spec fn environment_outcome(environment: Result<IdeEnvironment, String>) -> Result<
    environment::EnvironmentView,
    Seq<char>,
> {
    match environment {
        Ok(environment) => Ok(environment@),
        Err(error) => Err(error@),
    }
}

/// The inputs that come from the Delphi installation rather than from the
/// project: its macro environment and the IDE's per-platform library
/// settings. [`InstalledIde`] has those of an installation; a test supplies
/// values.
pub trait IdeSettings {
    /// The installation's macro environment (`rsvars.bat`, the IDE's
    /// environment-variable overrides, derived data directories), or why there
    /// is none.
    fn environment(&self) -> Result<IdeEnvironment, String>;

    /// The IDE's Library Path, Browsing Path and package output defaults
    /// for `platform`.
    fn library_settings(&self, platform: &str) -> IdeLibrarySettings;
}

/// The installation a compiler configuration describes: its `rsvars.bat`, and
/// the IDE settings under the version's registry root.
pub struct InstalledIde<'a> {
    pub compiler: &'a CompilerConfiguration,
    pub installation: &'a Installation,
}

/// The registry and Documents segment of a compiler's version.
pub open spec fn version_segment(compiler: CompilerConfiguration) -> Seq<char> {
    registry::version_of(compiler.product_version as nat)
}

/// The path of a compiler's default registry root.
pub open spec fn default_key_path(compiler: CompilerConfiguration) -> Seq<char> {
    registry::key_path_of(
        registry::vendor_of(compiler.product_version as nat),
        "BDS"@,
        version_segment(compiler),
    )
}

/// `"23.0"` for Delphi 12: the registry and Documents segment of the version.
pub fn bds_version(compiler: &CompilerConfiguration) -> (res: String)
    ensures
        res@ == version_segment(*compiler),
{
    text::to_decimal(compiler.product_version).concat(".0")
}

/// The environment of the installation that a compiler configuration
/// describes, or the words of the error that there is none.
pub open spec fn installed_environment(
    compiler: CompilerConfiguration,
    installation: Installation,
) -> Result<environment::EnvironmentView, Seq<char>> {
    environment::environment_of(
        compiler.installation_path@,
        version_segment(compiler),
        installation,
    )
}

/// The library settings of the installation that a compiler configuration
/// describes, for one platform.
pub open spec fn installed_library(
    compiler: CompilerConfiguration,
    installation: Installation,
    platform: Seq<char>,
) -> registry::LibraryView {
    registry::library_of(
        registry::keys_texts(installation.registry.keys@),
        default_key_path(compiler) + "\\Library\\"@ + platform,
    )
}

impl IdeSettings for InstalledIde<'_> {
    fn environment(&self) -> (res: Result<IdeEnvironment, String>)
        ensures
            environment_outcome(res) == installed_environment(*self.compiler, *self.installation),
    {
        let read = IdeEnvironment::read(
            self.compiler.installation_path.as_str(),
            bds_version(self.compiler).as_str(),
            self.installation,
        );
        match read {
            Ok(environment) => Ok(environment),
            Err(error) => Err(error.message()),
        }
    }

    fn library_settings(&self, platform: &str) -> (res: IdeLibrarySettings)
        ensures
            res@ == installed_library(*self.compiler, *self.installation, platform@),
    {
        IdeRegistryRoot::for_bds_version(self.compiler.product_version).library_settings(
            platform,
            &self.installation.registry,
        )
    }
}

} // verus!
