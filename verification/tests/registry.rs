use debug_target::registry::{read_ide_environment_variables, read_ide_library_settings};
use debug_target::{bds_major, IdeLibrarySettings, IdeRegistryRoot, Registry};

fn registry(path: &str, values: &[(&str, &str)]) -> Registry {
    let values = values.iter().map(|(k, v)| (k.to_string(), v.to_string())).collect();
    Registry { keys: vec![(path.to_string(), values)], overrides: Vec::new() }
}

#[test]
fn root_follows_the_vendor_history() {
    assert_eq!(IdeRegistryRoot::for_bds_version(5).key_path(), r"SOFTWARE\Borland\BDS\5.0");
    assert_eq!(IdeRegistryRoot::for_bds_version(7).key_path(), r"SOFTWARE\CodeGear\BDS\7.0");
    assert_eq!(
        IdeRegistryRoot::for_version_string("23.0").key_path(),
        r"SOFTWARE\Embarcadero\BDS\23.0"
    );
}

#[test]
fn a_custom_key_replaces_the_bds_segment() {
    let mut root = IdeRegistryRoot::for_bds_version(23);
    root.key = "VegaBranchX".to_string();
    assert_eq!(root.key_path(), r"SOFTWARE\Embarcadero\VegaBranchX\23.0");
}

#[test]
fn the_vendor_changes_at_six_and_at_eight() {
    assert_eq!(IdeRegistryRoot::for_bds_version(0).vendor, "Borland");
    assert_eq!(IdeRegistryRoot::for_bds_version(6).vendor, "CodeGear");
    assert_eq!(IdeRegistryRoot::for_bds_version(8).vendor, "Embarcadero");
    assert_eq!(
        IdeRegistryRoot::for_bds_version(8),
        IdeRegistryRoot { vendor: "Embarcadero", key: "BDS".into(), version: "8.0".into() }
    );
}

#[test]
fn the_major_number_stands_before_the_first_dot() {
    assert_eq!(bds_major("23.0"), 23);
    assert_eq!(bds_major("7"), 7);
    assert_eq!(bds_major("+7.1.2"), 7);
    assert_eq!(bds_major(""), 0);
    assert_eq!(bds_major(".5"), 0);
    assert_eq!(bds_major(" 5.0"), 0);
    assert_eq!(bds_major("-5.0"), 0);
    assert_eq!(bds_major("+"), 0);
    assert_eq!(bds_major("99999999999999999999999.0"), 0);
}

#[test]
fn a_default_root_reads_back_its_version() {
    for major in [0, 7, 10, 23, 104, usize::MAX] {
        let root = IdeRegistryRoot::for_bds_version(major);
        assert_eq!(bds_major(&root.version), major);
        assert_eq!(IdeRegistryRoot::for_version_string(&root.version), root);
    }
}

#[test]
fn library_settings_are_trimmed_and_blank_ones_dropped() {
    let registry = registry(
        r"SOFTWARE\Embarcadero\BDS\23.0\Library\Win64",
        &[
            ("Search Path", "  $(BDSLIB)\\x;C:\\y \t"),
            ("Browsing Path", " \t "),
            ("Debug DCU Path", "d"),
            ("Package DPL Output", "e"),
            ("Unrelated", "z"),
        ],
    );
    let expected = IdeLibrarySettings {
        search_path: Some("$(BDSLIB)\\x;C:\\y".into()),
        browsing_path: None,
        debug_dcu_path: Some("d".into()),
        package_dpl_output: Some("e".into()),
        package_dcp_output: None,
    };
    let root = IdeRegistryRoot::for_bds_version(23);
    assert_eq!(root.library_settings("Win64", &registry), expected);
    assert_eq!(read_ide_library_settings("23.0", "Win64", &registry), expected);
}

#[test]
fn a_missing_key_yields_no_settings() {
    let registry = registry(
        r"SOFTWARE\Embarcadero\BDS\23.0\Library\Win64",
        &[("Search Path", "x")],
    );
    let none = IdeLibrarySettings::default();
    assert_eq!(read_ide_library_settings("23.0", "Win32", &registry), none);
    assert_eq!(read_ide_library_settings("22.0", "Win64", &registry), none);
    assert_eq!(none.search_path, None);
}

#[test]
fn overrides_are_those_of_the_version() {
    let pair = |name: &str, value: &str| (name.to_string(), value.to_string());
    let registry = Registry {
        keys: Vec::new(),
        overrides: vec![
            (22, vec![pair("A", "1")]),
            (23, vec![pair("VEGADIR", "x"), pair("DXVCL", "y")]),
            (23, vec![pair("LATER", "z")]),
        ],
    };
    assert_eq!(
        read_ide_environment_variables("23.0", &registry),
        vec![pair("VEGADIR", "x"), pair("DXVCL", "y")]
    );
    assert_eq!(read_ide_environment_variables("22.0", &registry), vec![pair("A", "1")]);
    assert!(read_ide_environment_variables("21.0", &registry).is_empty());
}

#[test]
fn the_casing_of_registry_names_does_not_matter() {
    let registry = registry(
        r"Software\Embarcadero\BDS\23.0\library\win64",
        &[("Search path", "/lib"), ("BROWSING PATH", "/browse")],
    );
    let settings = read_ide_library_settings("23.0", "Win64", &registry);
    assert_eq!(settings.search_path.as_deref(), Some("/lib"));
    assert_eq!(settings.browsing_path.as_deref(), Some("/browse"));
    assert_eq!(settings.debug_dcu_path, None);
}
