//! The RAD Studio IDE's per-user settings that a `.dproj` alone cannot
//! provide: the **global Library Path** (with the Browsing Path and the
//! default package output directories) and the user-defined **environment
//! variable** overrides (`$(VEGADIR)`, `$(DXVCL)`, …).
//!
//! Both live under `HKCU\SOFTWARE\<vendor>\BDS\<version>`. That root is
//! modelled explicitly ([`IdeRegistryRoot`]) because it is not a constant:
//! the vendor segment changed with the product's owner, and RAD Studio can
//! run against an alternative key (`bds.exe -r<Key>`) so that one
//! installation serves several component sets. What the registry holds comes
//! in as a value ([`Registry`]); a missing key yields empty data.

use vstd::prelude::*;
use vstd::string::*;

use crate::macro_map;
use crate::table;
use crate::text;

verus! {

// ─── What was read ───────────────────────────────────────────────────────────

/// What was read of `HKEY_CURRENT_USER`: the string values of each key that is
/// there, and the IDE's environment-variable overrides of each BDS version.
pub struct Registry {
    /// The string values by name, for each key path. As in the registry, the
    /// casing of paths and names does not matter.
    pub keys: Vec<(String, Vec<(String, String)>)>,
    /// The overrides read for a BDS major version; the first entry of a
    /// version counts.
    pub overrides: Vec<(usize, Vec<(String, String)>)>,
}

/// The texts of the keys, by their paths.
pub open spec fn keys_texts(keys: Seq<(String, Vec<(String, String)>)>) -> Seq<
    (Seq<char>, Seq<(Seq<char>, Seq<char>)>),
> {
    keys.map_values(
        |k: (String, Vec<(String, String)>)| (k.0@, macro_map::pair_texts(k.1@)),
    )
}

/// The overrides of the first entry for `major`; none where there is no entry.
pub open spec fn overrides_of(
    overrides: Seq<(usize, Vec<(String, String)>)>,
    major: nat,
) -> Seq<(Seq<char>, Seq<char>)>
    decreases overrides.len(),
{
    if overrides.len() == 0 {
        Seq::empty()
    } else if overrides[0].0 == major {
        macro_map::pair_texts(overrides[0].1@)
    } else {
        overrides_of(overrides.skip(1), major)
    }
}

// ─── The root ────────────────────────────────────────────────────────────────

/// Where one Delphi installation keeps its IDE settings in `HKCU`.
#[derive(Debug, Clone, PartialEq, Eq)]
pub struct IdeRegistryRoot {
    /// `Borland` up to BDS 5.0 (Delphi 2007), `CodeGear` for 6.0/7.0
    /// (2009/2010), `Embarcadero` from 8.0 (XE) onwards.
    pub vendor: &'static str,
    /// The key under the vendor: `BDS` by default. This is the segment an
    /// IDE started with `-r<Key>` replaces.
    pub key: String,
    /// The BDS version segment, e.g. `23.0` for Delphi 12 Athens.
    pub version: String,
}

/// The owner of the product at BDS version `major`.
pub open spec fn vendor_of(major: nat) -> Seq<char> {
    if major <= 5 {
        "Borland"@
    } else if major <= 7 {
        "CodeGear"@
    } else {
        "Embarcadero"@
    }
}

/// The version segment of BDS version `major`.
pub open spec fn version_of(major: nat) -> Seq<char> {
    text::decimal(major) + ".0"@
}

/// The major number of a BDS version text: the number before the first dot,
/// `0` where that is none.
pub open spec fn major_of(bds_version: Seq<char>) -> nat {
    match text::parsed_usize(text::split_at(bds_version, '.')[0]) {
        Some(major) => major,
        None => 0,
    }
}

/// A key path from its segments.
pub open spec fn key_path_of(vendor: Seq<char>, key: Seq<char>, version: Seq<char>) -> Seq<char> {
    "SOFTWARE\\"@ + vendor + "\\"@ + key + "\\"@ + version
}

impl IdeRegistryRoot {
    /// Whether this is the default root of BDS version `major`.
    pub open spec fn is_default_root(self, major: nat) -> bool {
        &&& self.vendor@ == vendor_of(major)
        &&& self.key@ == "BDS"@
        &&& self.version@ == version_of(major)
    }

    /// The path below `HKEY_CURRENT_USER`.
    pub open spec fn path(self) -> Seq<char> {
        key_path_of(self.vendor@, self.key@, self.version@)
    }

    /// The path of the library settings for `platform`.
    pub open spec fn library_path(self, platform: Seq<char>) -> Seq<char> {
        self.path() + "\\Library\\"@ + platform
    }

    /// The default root of a BDS major version (`23` for Delphi 12 Athens, the
    /// same number as `CompilerConfiguration::product_version`).
    pub fn for_bds_version(major: usize) -> (res: Self)
        ensures
            res.is_default_root(major as nat),
    {
        let vendor: &'static str = if major <= 5 {
            "Borland"
        } else if major <= 7 {
            "CodeGear"
        } else {
            "Embarcadero"
        };
        IdeRegistryRoot {
            vendor,
            key: "BDS".to_owned(),
            version: text::to_decimal(major).concat(".0"),
        }
    }

    /// The default root for a `"<major>.0"` version string.
    pub fn for_version_string(bds_version: &str) -> (res: Self)
        ensures
            res.is_default_root(major_of(bds_version@)),
    {
        Self::for_bds_version(bds_major(bds_version))
    }

    /// The path below `HKEY_CURRENT_USER`, e.g. `SOFTWARE\Embarcadero\BDS\23.0`.
    pub fn key_path(&self) -> (res: String)
        ensures
            res@ == self.path(),
    {
        "SOFTWARE\\".to_owned().concat(self.vendor).concat("\\").concat(self.key.as_str()).concat(
            "\\",
        ).concat(self.version.as_str())
    }

    /// The path of the key with the library settings for `platform`.
    pub fn library_key_path(&self, platform: &str) -> (res: String)
        ensures
            res@ == self.library_path(platform@),
    {
        self.key_path().concat("\\Library\\").concat(platform)
    }

    /// The `Library\<platform>` settings of this installation.
    pub fn library_settings(&self, platform: &str, registry: &Registry) -> (res: IdeLibrarySettings)
        ensures
            res@ == library_of(keys_texts(registry.keys@), self.library_path(platform@)),
    {
        read_library_settings(self, platform, registry)
    }
}

/// The major number of a `"23.0"` BDS version string (`0` when unparsable).
pub fn bds_major(bds_version: &str) -> (res: usize)
    ensures
        res == major_of(bds_version@),
{
    let pieces = text::split(bds_version, '.');
    proof {
        assert(text::texts(pieces@)[0] == pieces@[0]@);
    }
    match text::parse_usize(pieces[0].as_str()) {
        Some(major) => major,
        None => 0,
    }
}

// ─── Library settings ────────────────────────────────────────────────────────

/// The IDE's library settings for one target platform, `;`-separated and
/// still containing `$(NAME)` macros exactly as the registry holds them.
#[derive(Debug, Clone, PartialEq, Eq)]
pub struct IdeLibrarySettings {
    /// `Search Path`: the global Library Path (compiled units, mostly).
    pub search_path: Option<String>,
    /// `Browsing Path`: where the IDE looks for the sources behind the
    /// library path: what DelphiLSP navigates into and a debugger's most
    /// valuable source roots.
    pub browsing_path: Option<String>,
    /// `Debug DCU Path`: prepended to `-I`/`-U` for debug configurations.
    pub debug_dcu_path: Option<String>,
    /// `Package DPL Output`: the default `-LE` target, where packages are
    /// written when the project does not say otherwise.
    pub package_dpl_output: Option<String>,
    /// `Package DCP Output`: the default `-LN` target.
    pub package_dcp_output: Option<String>,
}

/// The texts of [`IdeLibrarySettings`].
#[verifier::ext_equal]
pub struct LibraryView {
    pub search_path: Option<Seq<char>>,
    pub browsing_path: Option<Seq<char>>,
    pub debug_dcu_path: Option<Seq<char>>,
    pub package_dpl_output: Option<Seq<char>>,
    pub package_dcp_output: Option<Seq<char>>,
}

impl LibraryView {
    /// No settings.
    pub open spec fn empty() -> LibraryView {
        LibraryView {
            search_path: None,
            browsing_path: None,
            debug_dcu_path: None,
            package_dpl_output: None,
            package_dcp_output: None,
        }
    }
}

impl View for IdeLibrarySettings {
    type V = LibraryView;

    open spec fn view(&self) -> LibraryView {
        LibraryView {
            search_path: text::opt(self.search_path),
            browsing_path: text::opt(self.browsing_path),
            debug_dcu_path: text::opt(self.debug_dcu_path),
            package_dpl_output: text::opt(self.package_dpl_output),
            package_dcp_output: text::opt(self.package_dcp_output),
        }
    }
}

impl Default for IdeLibrarySettings {
    fn default() -> (res: Self)
        ensures
            res@ == LibraryView::empty(),
    {
        IdeLibrarySettings {
            search_path: None,
            browsing_path: None,
            debug_dcu_path: None,
            package_dpl_output: None,
            package_dcp_output: None,
        }
    }
}

/// The string value `name` of a key, in whatever casing, without the white
/// space around it; none where that leaves nothing.
pub open spec fn value_of(key: Seq<(Seq<char>, Seq<char>)>, name: Seq<char>) -> Option<Seq<char>> {
    match table::named(key, name) {
        Some(value) if !text::blank(value) => Some(text::trimmed(value)),
        _ => None,
    }
}

/// The library settings that the key at `path`, in whatever casing, holds; none
/// without that key.
pub open spec fn library_of(
    keys: Seq<(Seq<char>, Seq<(Seq<char>, Seq<char>)>)>,
    path: Seq<char>,
) -> LibraryView {
    match table::named(keys, path) {
        Some(key) => LibraryView {
            search_path: value_of(key, "Search Path"@),
            browsing_path: value_of(key, "Browsing Path"@),
            debug_dcu_path: value_of(key, "Debug DCU Path"@),
            package_dpl_output: value_of(key, "Package DPL Output"@),
            package_dcp_output: value_of(key, "Package DCP Output"@),
        },
        None => LibraryView::empty(),
    }
}

/// The value `name` of a key, trimmed, unless it is blank.
fn string_value(key: &Vec<(String, String)>, name: &str) -> (res: Option<String>)
    ensures
        text::opt(res) == value_of(macro_map::pair_texts(key@), name@),
{
    let ghost pairs = macro_map::pair_texts(key@);
    proof {
        assert(forall|j: int| 0 <= j < pairs.len() ==> (#[trigger] pairs[j]).0 == key@[j].0@);
    }
    match table::last_spelled(key, name) {
        Some(i) => {
            proof {
                table::last_spelled_counts(pairs, name@, i as int);
            }
            let value = text::trim(key[i].1.as_str());
            if value.as_str().is_empty() {
                None
            } else {
                Some(value)
            }
        },
        None => {
            proof {
                table::unspelled_is_absent(pairs, name@);
            }
            None
        },
    }
}

/// The library settings for `platform` that the registry holds under `root`.
pub fn read_library_settings(root: &IdeRegistryRoot, platform: &str, registry: &Registry) -> (res:
    IdeLibrarySettings)
    ensures
        res@ == library_of(keys_texts(registry.keys@), root.library_path(platform@)),
{
    let path = root.library_key_path(platform);
    let ghost keys = keys_texts(registry.keys@);
    proof {
        assert(forall|j: int|
            0 <= j < keys.len() ==> (#[trigger] keys[j]).0 == registry.keys@[j].0@);
    }
    match table::last_spelled(&registry.keys, path.as_str()) {
        Some(i) => {
            proof {
                table::last_spelled_counts(keys, path@, i as int);
            }
            let key = &registry.keys[i].1;
            IdeLibrarySettings {
                search_path: string_value(key, "Search Path"),
                browsing_path: string_value(key, "Browsing Path"),
                debug_dcu_path: string_value(key, "Debug DCU Path"),
                package_dpl_output: string_value(key, "Package DPL Output"),
                package_dcp_output: string_value(key, "Package DCP Output"),
            }
        },
        None => {
            proof {
                table::unspelled_is_absent(keys, path@);
            }
            IdeLibrarySettings::default()
        },
    }
}

/// The IDE library settings of a BDS version (`"23.0"`) for one platform,
/// from the version's default registry root.
pub fn read_ide_library_settings(bds_version: &str, platform: &str, registry: &Registry) -> (res:
    IdeLibrarySettings)
    ensures
        res@ == library_of(
            keys_texts(registry.keys@),
            key_path_of(
                vendor_of(major_of(bds_version@)),
                "BDS"@,
                version_of(major_of(bds_version@)),
            ) + "\\Library\\"@ + platform@,
        ),
{
    IdeRegistryRoot::for_version_string(bds_version).library_settings(platform, registry)
}

/// The user-defined environment-variable overrides of one BDS version
/// (`"23.0"`).
pub fn read_ide_environment_variables(bds_version: &str, registry: &Registry) -> (res: Vec<
    (String, String),
>)
    ensures
        macro_map::pair_texts(res@) == overrides_of(
            registry.overrides@,
            major_of(bds_version@),
        ),
{
    let major: usize = bds_major(bds_version);
    let mut i: usize = 0;
    proof {
        assert(registry.overrides@.skip(0) == registry.overrides@);
    }
    while i < registry.overrides.len()
        invariant
            i <= registry.overrides@.len(),
            overrides_of(registry.overrides@, major as nat) == overrides_of(
                registry.overrides@.skip(i as int),
                major as nat,
            ),
            major == major_of(bds_version@),
        decreases registry.overrides@.len() - i,
    {
        let ghost rest = registry.overrides@.skip(i as int);
        proof {
            assert(rest[0] == registry.overrides@[i as int]);
            assert(rest.skip(1) == registry.overrides@.skip(i + 1));
        }
        if registry.overrides[i].0 == major {
            return macro_map::clone_pairs(&registry.overrides[i].1);
        }
        i = i + 1;
    }
    let none: Vec<(String, String)> = Vec::new();
    proof {
        assert(macro_map::pair_texts(none@) == Seq::<(Seq<char>, Seq<char>)>::empty());
    }
    none
}

// ─── Laws ────────────────────────────────────────────────────────────────────

proof fn split_of_plain_prefix(s: Seq<char>, t: Seq<char>, separator: char)
    requires
        !s.contains(separator),
        t.len() > 0,
        t[0] == separator,
    ensures
        text::split_at(s + t, separator).len() >= 2,
        text::split_at(s + t, separator)[0] == s,
    decreases t.len(),
{
    assert((s + t).drop_last() == s + t.drop_last());
    assert((s + t).last() == t.last());
    if t.len() == 1 {
        assert(s + t.drop_last() == s);
        split_of_unseparated(s, separator);
    } else {
        assert(t.drop_last()[0] == separator);
        split_of_plain_prefix(s, t.drop_last(), separator);
    }
}

proof fn split_of_unseparated(s: Seq<char>, separator: char)
    requires
        !s.contains(separator),
    ensures
        text::split_at(s, separator) == seq![s],
    decreases s.len(),
{
    if s.len() > 0 {
        assert forall|c: char| s.drop_last().contains(c) implies s.contains(c) by {
            let i = choose|i: int| 0 <= i < s.drop_last().len() && s.drop_last()[i] == c;
            assert(s[i] == c);
        }
        split_of_unseparated(s.drop_last(), separator);
        assert(s.contains(s.last()));
        assert(s.drop_last().push(s.last()) == s);
        assert(text::split_at(s, separator) =~= seq![s]);
    } else {
        assert(s =~= Seq::<char>::empty());
        assert(text::split_at(s, separator) =~= seq![s]);
    }
}

/// The first piece of a text is what stands in front of its first separator.
pub proof fn first_piece(s: Seq<char>, t: Seq<char>, separator: char)
    requires
        !s.contains(separator),
        t.len() > 0,
        t[0] == separator,
    ensures
        text::split_at(s + t, separator)[0] == s,
        text::split_at(s, separator)[0] == s,
{
    split_of_plain_prefix(s, t, separator);
    split_of_unseparated(s, separator);
}

/// The version segment of a default root reads back as the version it is the
/// root of, so the root for that text is the root for that number.
pub proof fn default_root_reads_back(root: IdeRegistryRoot, major: nat)
    requires
        major <= usize::MAX,
        root.is_default_root(major),
    ensures
        major_of(root.version@) == major,
{
    text::decimal_reads_back(major);
    text::decimal_is_digits(major);
    reveal_strlit(".0");
    let digits = text::decimal(major);
    assert(!digits.contains('.')) by {
        if digits.contains('.') {
            let i = choose|i: int| 0 <= i < digits.len() && digits[i] == '.';
            assert(text::is_digit(digits[i]));
        }
    }
    split_of_plain_prefix(digits, ".0"@, '.');
}

/// The vendor segment follows the product's owner: Borland up to 5, CodeGear
/// for 6 and 7, Embarcadero from 8 on; nothing else of a default root's path
/// depends on the owner.
pub proof fn default_root_follows_the_vendor(root: IdeRegistryRoot, major: nat)
    requires
        root.is_default_root(major),
    ensures
        major <= 5 ==> root.path() == "SOFTWARE\\"@ + "Borland"@ + "\\"@ + "BDS"@ + "\\"@
            + version_of(major),
        6 <= major <= 7 ==> root.path() == "SOFTWARE\\"@ + "CodeGear"@ + "\\"@ + "BDS"@ + "\\"@
            + version_of(major),
        major >= 8 ==> root.path() == "SOFTWARE\\"@ + "Embarcadero"@ + "\\"@ + "BDS"@ + "\\"@
            + version_of(major),
{
}

proof fn naming_ignores_casing<A>(pairs: Seq<(Seq<char>, A)>, a: Seq<char>, b: Seq<char>)
    requires
        text::same_name(a, b),
    ensures
        table::named(pairs, a) == table::named(pairs, b),
    decreases pairs.len(),
{
    if pairs.len() > 0 {
        naming_ignores_casing(pairs.drop_last(), a, b);
    }
}

/// Neither the casing of a key's path nor that of a value's name matters.
pub proof fn settings_ignore_casing(
    keys: Seq<(Seq<char>, Seq<(Seq<char>, Seq<char>)>)>,
    key: Seq<(Seq<char>, Seq<char>)>,
    a: Seq<char>,
    b: Seq<char>,
)
    requires
        text::same_name(a, b),
    ensures
        library_of(keys, a) == library_of(keys, b),
        value_of(key, a) == value_of(key, b),
{
    naming_ignores_casing(keys, a, b);
    naming_ignores_casing(key, a, b);
}

/// A key in place of `BDS` changes that segment of the path and nothing else.
pub proof fn custom_key_replaces_one_segment(root: IdeRegistryRoot, custom: IdeRegistryRoot)
    requires
        custom.vendor@ == root.vendor@,
        custom.version@ == root.version@,
    ensures
        root.path() == "SOFTWARE\\"@ + root.vendor@ + "\\"@ + root.key@ + "\\"@ + root.version@,
        custom.path() == "SOFTWARE\\"@ + root.vendor@ + "\\"@ + custom.key@ + "\\"@
            + root.version@,
{
}

} // verus!
