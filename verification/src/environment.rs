//! What seeds the macro map of one Delphi installation.

use vstd::prelude::*;
use vstd::string::*;

use crate::macro_map;
use crate::macro_map::MacroMap;
use crate::paths;
use crate::registry;
use crate::registry::Registry;
use crate::text;

verus! {

// ─── What was read ───────────────────────────────────────────────────────────

/// What was found of an installation's `bin\rsvars.bat`.
pub enum Rsvars {
    /// There is no such file.
    Missing,
    /// The file could not be read, for the reason given.
    Unreadable(String),
    /// The variables it sets, in some order.
    Parsed(Vec<(String, String)>),
}

/// Everything that was read of one Delphi installation and of its user's
/// profile.
pub struct Installation {
    /// The installation's `rsvars.bat`.
    pub rsvars: Rsvars,
    /// The IDE's settings in the registry.
    pub registry: Registry,
    /// The user's Documents directory.
    pub documents: Option<String>,
    /// The directory of the public profile (`%PUBLIC%`).
    pub public_profile: Option<String>,
}

/// Why an installation has no macro environment.
pub enum EnvironmentError {
    /// `rsvars.bat` is not where it belongs.
    RsvarsMissing {
        path: String,
    },
    /// `rsvars.bat` could not be parsed.
    RsvarsUnreadable {
        path: String,
        cause: String,
    },
}

impl EnvironmentError {
    /// The error in words.
    pub open spec fn words(self) -> Seq<char> {
        match self {
            EnvironmentError::RsvarsMissing { path } =>
                "rsvars.bat not found in compiler installation: "@ + path@,
            EnvironmentError::RsvarsUnreadable { path, cause } => "Failed to parse "@ + path@,
        }
    }

    /// The error in words, without its cause.
    pub fn message(&self) -> (res: String)
        ensures
            res@ == self.words(),
    {
        match self {
            EnvironmentError::RsvarsMissing { path } =>
                "rsvars.bat not found in compiler installation: ".to_owned().concat(path.as_str()),
            EnvironmentError::RsvarsUnreadable { path, cause: _ } => {
                "Failed to parse ".to_owned().concat(path.as_str())
            },
        }
    }
}

// ─── The environment ─────────────────────────────────────────────────────────

/// What seeds the macro map of one Delphi installation: the variables its
/// `rsvars.bat` sets, the IDE's own *Environment Variables* overrides, and the
/// per-user data directories the IDE derives (`$(BDSUSERDIR)`,
/// `$(BDSCOMMONDIR)`). A value, so that everything downstream works from one.
#[derive(Debug, Clone)]
pub struct IdeEnvironment {
    /// The variables `bin\rsvars.bat` exports (`BDS`, `BDSLIB`, `BDSCOMMONDIR`, …).
    pub rsvars: Vec<(String, String)>,
    /// The IDE's *Environment Variables* overrides (Tools > Options), which the
    /// IDE injects into its own process and thus into IDE-run MSBuild.
    pub ide_variables: Vec<(String, String)>,
    /// `<Documents>\Embarcadero\Studio\<version>`, the IDE's `$(BDSUSERDIR)`.
    pub user_dir: Option<String>,
    /// The Public Documents counterpart, the IDE's `$(BDSCOMMONDIR)`; only a
    /// fallback, since `rsvars.bat` normally defines it.
    pub common_dir: Option<String>,
}

/// The texts of an [`IdeEnvironment`].
#[verifier::ext_equal]
pub struct EnvironmentView {
    pub rsvars: Seq<(Seq<char>, Seq<char>)>,
    pub ide_variables: Seq<(Seq<char>, Seq<char>)>,
    pub user_dir: Option<Seq<char>>,
    pub common_dir: Option<Seq<char>>,
}

impl View for IdeEnvironment {
    type V = EnvironmentView;

    open spec fn view(&self) -> EnvironmentView {
        EnvironmentView {
            rsvars: macro_map::pair_texts(self.rsvars@),
            ide_variables: macro_map::pair_texts(self.ide_variables@),
            user_dir: text::opt(self.user_dir),
            common_dir: text::opt(self.common_dir),
        }
    }
}

impl EnvironmentView {
    /// Nothing set.
    pub open spec fn empty() -> EnvironmentView {
        EnvironmentView {
            rsvars: Seq::empty(),
            ide_variables: Seq::empty(),
            user_dir: None,
            common_dir: None,
        }
    }

    /// What `rsvars.bat` leaves to start from: its variables without
    /// `PLATFORM`, which it deliberately blanks.
    pub open spec fn from_rsvars(self) -> macro_map::MacroView {
        macro_map::MacroView::empty().extend(self.rsvars).remove("PLATFORM"@)
    }

    /// The installation directory: the `BDS` of `rsvars.bat`, else
    /// `installation`.
    pub open spec fn bds(self, installation: Seq<char>) -> Seq<char> {
        match self.from_rsvars().get("BDS"@) {
            Some(bds) => bds,
            None => installation,
        }
    }

    /// The macros before the IDE's own overrides: those of `rsvars.bat`, and
    /// the derived `$(BDS…)` ones where it defines none.
    pub open spec fn with_defaults(self, installation: Seq<char>) -> macro_map::MacroView {
        let bds = self.bds(installation);
        let derived = self.from_rsvars().set_default("BDS"@, bds).set_default(
            "BDSLIB"@,
            bds + "\\lib"@,
        ).set_default("BDSINCLUDE"@, bds + "\\include"@).set_default("BDSBIN"@, bds + "\\bin"@);
        let with_user = match self.user_dir {
            Some(user_dir) => derived.set_default("BDSUSERDIR"@, user_dir),
            None => derived,
        };
        match self.common_dir {
            Some(common_dir) => with_user.set_default("BDSCOMMONDIR"@, common_dir),
            None => with_user,
        }
    }

    /// The macros an IDE-launched build sees.
    pub open spec fn macros(self, installation: Seq<char>) -> macro_map::MacroView {
        self.with_defaults(installation).extend(self.ide_variables)
    }
}

/// Where an installation keeps its `rsvars.bat`.
pub open spec fn rsvars_path(installation: Seq<char>) -> Seq<char> {
    paths::path_join(paths::path_join(installation, "bin"@), "rsvars.bat"@)
}

/// The environment that was read of an installation, or the words of the error
/// that there is none.
pub open spec fn environment_of(
    path: Seq<char>,
    bds_version: Seq<char>,
    installation: Installation,
) -> Result<EnvironmentView, Seq<char>> {
    match installation.rsvars {
        Rsvars::Missing => Err(
            "rsvars.bat not found in compiler installation: "@ + rsvars_path(path),
        ),
        Rsvars::Unreadable(_) => Err("Failed to parse "@ + rsvars_path(path)),
        Rsvars::Parsed(rsvars) => Ok(
            EnvironmentView {
                rsvars: macro_map::pair_texts(rsvars@),
                ide_variables: registry::overrides_of(
                    installation.registry.overrides@,
                    registry::major_of(bds_version),
                ),
                user_dir: user_dir_of(text::opt(installation.documents), bds_version),
                common_dir: common_dir_of(text::opt(installation.public_profile), bds_version),
            },
        ),
    }
}

impl Default for IdeEnvironment {
    /// An environment in which nothing is set.
    fn default() -> (res: Self)
        ensures
            res@ == EnvironmentView::empty(),
    {
        let res = IdeEnvironment {
            rsvars: Vec::new(),
            ide_variables: Vec::new(),
            user_dir: None,
            common_dir: None,
        };
        proof {
            assert(res@ =~= EnvironmentView::empty());
        }
        res
    }
}

impl IdeEnvironment {
    /// The environment of the installation at `path` for the BDS version
    /// `bds_version` (`"23.0"`), from what was read of it. Fails when
    /// `rsvars.bat` is missing or unparsable: without it no `$(BDS)`-relative
    /// path resolves.
    pub fn read(path: &str, bds_version: &str, installation: &Installation) -> (res: Result<
        Self,
        EnvironmentError,
    >)
        ensures
            match res {
                Ok(environment) => environment_of(path@, bds_version@, *installation) == Ok::<
                    EnvironmentView,
                    Seq<char>,
                >(environment@),
                Err(error) => environment_of(path@, bds_version@, *installation) == Err::<
                    EnvironmentView,
                    Seq<char>,
                >(error.words()),
            },
            installation.rsvars is Parsed <==> res is Ok,
            installation.rsvars is Missing ==> (res matches Err(
                EnvironmentError::RsvarsMissing { path: at },
            ) && at@ == rsvars_path(path@)),
            installation.rsvars matches Rsvars::Unreadable(reason) ==> (res matches Err(
                EnvironmentError::RsvarsUnreadable { path: at, cause },
            ) && at@ == rsvars_path(path@) && cause@ == reason@),
    {
        let rsvars_path = paths::join(paths::join(path, "bin").as_str(), "rsvars.bat");
        match &installation.rsvars {
            Rsvars::Missing => Err(EnvironmentError::RsvarsMissing { path: rsvars_path }),
            Rsvars::Unreadable(cause) => Err(
                EnvironmentError::RsvarsUnreadable { path: rsvars_path, cause: cause.clone() },
            ),
            Rsvars::Parsed(rsvars) => Ok(
                IdeEnvironment {
                    rsvars: macro_map::clone_pairs(rsvars),
                    ide_variables: registry::read_ide_environment_variables(
                        bds_version,
                        &installation.registry,
                    ),
                    user_dir: bds_user_dir(&installation.documents, bds_version),
                    common_dir: bds_common_dir(&installation.public_profile, bds_version),
                },
            ),
        }
    }

    /// The macro map an IDE-launched build effectively sees, in the IDE's
    /// order of precedence: `rsvars.bat` first, the derived `$(BDS…)`
    /// defaults only where nothing defined them, the IDE's own overrides
    /// last (they win over `rsvars.bat`). `PLATFORM` is dropped because
    /// `rsvars.bat` deliberately blanks it while the IDE's library paths use
    /// it; the caller sets `Platform` together with `Config` once it knows
    /// them.
    pub fn macros(&self, installation: &str) -> (res: MacroMap)
        ensures
            res@ == self@.macros(installation@),
            res@.well_formed(),
    {
        let mut macros = MacroMap::new();
        macros.extend(&self.rsvars);
        macros.remove("PLATFORM");
        let bds = match macros.get("BDS") {
            Some(bds) => bds.clone(),
            None => installation.to_owned(),
        };
        macros.set_default("BDS", bds.clone());
        macros.set_default("BDSLIB", bds.clone().concat("\\lib"));
        macros.set_default("BDSINCLUDE", bds.clone().concat("\\include"));
        macros.set_default("BDSBIN", bds.concat("\\bin"));
        match &self.user_dir {
            Some(user_dir) => macros.set_default("BDSUSERDIR", user_dir.clone()),
            None => {},
        }
        match &self.common_dir {
            Some(common_dir) => macros.set_default("BDSCOMMONDIR", common_dir.clone()),
            None => {},
        }
        macros.extend(&self.ide_variables);
        macros
    }
}

// ─── Data directories ────────────────────────────────────────────────────────

/// The IDE data folder under a Documents root.
pub open spec fn documents_subpath(bds_version: Seq<char>) -> Seq<char> {
    if registry::major_of(bds_version) <= 7 {
        "RAD Studio"@
    } else {
        paths::path_join("Embarcadero"@, "Studio"@)
    }
}

/// The IDE data folder name under a Documents root: `RAD Studio` for the
/// D2007–D2010 era (BDS 5.0–7.0), `Embarcadero\Studio` from XE (8.0) on.
pub fn bds_documents_subpath(bds_version: &str) -> (res: String)
    ensures
        res@ == documents_subpath(bds_version@),
{
    if registry::bds_major(bds_version) <= 7 {
        "RAD Studio".to_owned()
    } else {
        paths::join("Embarcadero", "Studio")
    }
}

/// The `$(BDSUSERDIR)` of a version below a Documents directory.
pub open spec fn user_dir_of(documents: Option<Seq<char>>, bds_version: Seq<char>) -> Option<
    Seq<char>,
> {
    match documents {
        Some(documents) => Some(
            paths::path_join(
                paths::path_join(documents, documents_subpath(bds_version)),
                bds_version,
            ),
        ),
        None => None,
    }
}

/// `<Documents>\Embarcadero\Studio\<version>` (or `<Documents>\RAD
/// Studio\<version>` for pre-XE versions): the IDE's `$(BDSUSERDIR)`.
pub fn bds_user_dir(documents: &Option<String>, bds_version: &str) -> (res: Option<String>)
    ensures
        text::opt(res) == user_dir_of(text::opt(*documents), bds_version@),
{
    match documents {
        Some(documents) => Some(
            paths::join(
                paths::join(documents.as_str(), bds_documents_subpath(bds_version).as_str()).as_str(),
                bds_version,
            ),
        ),
        None => None,
    }
}

/// The `$(BDSCOMMONDIR)` of a version below a public profile.
pub open spec fn common_dir_of(public_profile: Option<Seq<char>>, bds_version: Seq<char>) -> Option<
    Seq<char>,
> {
    match public_profile {
        Some(profile) => user_dir_of(Some(paths::path_join(profile, "Documents"@)), bds_version),
        None => None,
    }
}

/// The Public Documents counterpart of [`bds_user_dir`]: the IDE's
/// `$(BDSCOMMONDIR)`.
pub fn bds_common_dir(public_profile: &Option<String>, bds_version: &str) -> (res: Option<String>)
    ensures
        text::opt(res) == common_dir_of(text::opt(*public_profile), bds_version@),
{
    match public_profile {
        Some(profile) => bds_user_dir(
            &Some(paths::join(profile.as_str(), "Documents")),
            bds_version,
        ),
        None => None,
    }
}

} // verus!
