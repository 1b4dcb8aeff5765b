use debug_target::{
    EnvironmentError, IdeEnvironment, Installation, MacroMap, Registry, Rsvars,
};

fn environment(rsvars: &[(&str, &str)], ide_variables: &[(&str, &str)]) -> IdeEnvironment {
    IdeEnvironment {
        rsvars: rsvars.iter().map(|(k, v)| (k.to_string(), v.to_string())).collect(),
        ide_variables: ide_variables.iter().map(|(k, v)| (k.to_string(), v.to_string())).collect(),
        user_dir: Some(r"C:\Users\me\Documents\Embarcadero\Studio\23.0".into()),
        common_dir: Some(r"C:\Users\Public\Documents\Embarcadero\Studio\23.0".into()),
    }
}

#[test]
fn derives_bds_defaults_from_the_installation_when_rsvars_is_silent() {
    let macros = environment(&[], &[]).macros(r"C:\Delphi\23.0");
    assert_eq!(macros.expand(r"$(BDS)\bin"), r"C:\Delphi\23.0\bin");
    assert_eq!(macros.expand("$(BDSLIB)"), r"C:\Delphi\23.0\lib");
    assert_eq!(macros.expand("$(BDSINCLUDE)"), r"C:\Delphi\23.0\include");
    assert_eq!(macros.expand("$(BDSBIN)"), r"C:\Delphi\23.0\bin");
    assert_eq!(macros.expand("$(BDSUSERDIR)"), r"C:\Users\me\Documents\Embarcadero\Studio\23.0");
    assert_eq!(
        macros.expand("$(BDSCOMMONDIR)"),
        r"C:\Users\Public\Documents\Embarcadero\Studio\23.0"
    );
}

#[test]
fn rsvars_wins_over_derived_defaults_and_ide_variables_win_over_rsvars() {
    let macros = environment(
        &[("BDS", r"D:\RAD\23.0"), ("BDSLIB", r"D:\custom\lib"), ("VEGADIR", r"C:\from-rsvars")],
        &[("VEGADIR", r"C:\Athens\hydra_2"), ("VEGA-DIR", r"C:\dashed")],
    )
    .macros(r"C:\Delphi\23.0");
    assert_eq!(macros.expand("$(BDS)"), r"D:\RAD\23.0");
    assert_eq!(macros.expand("$(bdslib)"), r"D:\custom\lib");
    assert_eq!(macros.expand("$(VEGADIR)"), r"C:\Athens\hydra_2");
    // A name with a dash is a valid IDE variable and must expand too.
    assert_eq!(macros.expand(r"$(VEGA-DIR)\x"), r"C:\dashed\x");
}

#[test]
fn drops_the_blank_platform_rsvars_exports() {
    let macros = environment(&[("PLATFORM", "")], &[]).macros(r"C:\Delphi\23.0");
    assert_eq!(macros.get("Platform"), None);
    assert_eq!(macros.expand("$(Platform)"), "$(Platform)");
}

#[test]
fn lookups_ignore_the_casing_of_ascii_letters() {
    let mut macros = MacroMap::new();
    macros.set("VegaDir", "a".to_string());
    macros.set("\u{e4}", "b".to_string());
    assert_eq!(macros.get("VEGADIR"), Some(&"a".to_string()));
    assert_eq!(macros.get("vegadir"), Some(&"a".to_string()));
    assert_eq!(macros.get("\u{c4}"), None);
    macros.set("VEGADIR", "c".to_string());
    assert_eq!(macros.get("VegaDir"), Some(&"c".to_string()));
}

#[test]
fn a_default_does_not_replace_a_value() {
    let mut macros = MacroMap::default();
    macros.set_default("A", "1".to_string());
    macros.set_default("a", "2".to_string());
    assert_eq!(macros.get("A"), Some(&"1".to_string()));
}

#[test]
fn a_removed_variable_is_gone_in_every_spelling() {
    let mut macros = MacroMap::new();
    macros.set("Name", "1".to_string());
    macros.set("NAME", "2".to_string());
    macros.set("Other", "3".to_string());
    macros.remove("nAmE");
    assert_eq!(macros.get("NAME"), None);
    let env = macros.as_env();
    assert_eq!(env.get("Name"), None);
    assert_eq!(env.get("NAME"), None);
    assert_eq!(env.get("Other"), Some(&"3".to_string()));
    assert_eq!(env.get("OTHER"), Some(&"3".to_string()));
}

#[test]
fn the_environment_has_both_spellings() {
    let mut macros = MacroMap::new();
    macros.set("DCC_UnitSearchPath", "x".to_string());
    let env = macros.as_env();
    assert_eq!(env.get("DCC_UnitSearchPath"), Some(&"x".to_string()));
    assert_eq!(env.get("DCC_UNITSEARCHPATH"), Some(&"x".to_string()));
    assert_eq!(env.get("dcc_unitsearchpath"), None);
}

#[test]
fn setting_overwrites_every_spelling_of_the_name() {
    let mut macros = MacroMap::new();
    macros.set("FOO", "1".to_string());
    macros.set("fOO", "x".to_string());
    macros.set("Foo", "2".to_string());
    let env = macros.as_env();
    assert_eq!(macros.get("FOO"), Some(&"2".to_string()));
    assert_eq!(env.get("Foo"), Some(&"2".to_string()));
    assert_eq!(env.get("FOO"), Some(&"2".to_string()));
    assert_eq!(env.get("fOO"), None);
}

#[test]
fn the_last_pair_of_a_name_counts() {
    let mut macros = MacroMap::new();
    let pair = |name: &str, value: &str| (name.to_string(), value.to_string());
    macros.extend(&vec![pair("a", "1"), pair("B", "2"), pair("A", "3")]);
    assert_eq!(macros.expand("$(a)$(b)"), "32");
}

#[test]
fn references_expand_in_place() {
    let mut macros = MacroMap::new();
    macros.set("A", "x$(B)y".to_string());
    macros.set("B", "b".to_string());
    macros.set("EMPTY", String::new());
    assert_eq!(macros.expand("no reference"), "no reference");
    assert_eq!(macros.expand("<$(a)|$(EMPTY)|$(B)>"), "<xby||b>");
    assert_eq!(macros.expand_once("<$(a)>"), "<x$(B)y>");
    assert_eq!(macros.expand("$(A"), "$(A");
    assert_eq!(macros.expand("$()"), "$()");
    assert_eq!(macros.expand("a$b(c)$"), "a$b(c)$");
    assert_eq!(macros.expand("$$(B))"), "$b)");
}

#[test]
fn unknown_references_stay_verbatim() {
    let mut macros = MacroMap::new();
    macros.set("B", "b".to_string());
    assert_eq!(macros.expand(r"$(Nope)\x $(nope)"), r"$(Nope)\x $(nope)");
    assert_eq!(macros.expand("$(Nope)$(B)"), "$(Nope)b");
}

#[test]
fn a_self_referential_definition_comes_to_an_end() {
    let mut macros = MacroMap::new();
    macros.set("A", "<$(A)>".to_string());
    assert_eq!(macros.expand("$(A)"), "<<<<<<<<$(A)>>>>>>>>");
    macros.set("S", "$(S)".to_string());
    assert_eq!(macros.expand("$(S)"), "$(S)");
}

#[test]
fn an_override_of_platform_is_the_only_one_kept() {
    let macros = environment(&[("Platform", "x")], &[("PLATFORM", "Win64")]).macros("C:");
    assert_eq!(macros.get("platform"), Some(&"Win64".to_string()));
}

#[test]
fn an_empty_environment_derives_from_the_installation_alone() {
    let macros = IdeEnvironment::default().macros(r"C:\Delphi");
    assert_eq!(macros.expand("$(BDSBIN)"), r"C:\Delphi\bin");
    assert_eq!(macros.expand("$(BDSUSERDIR)"), "$(BDSUSERDIR)");
    assert_eq!(macros.expand("$(BDSCOMMONDIR)"), "$(BDSCOMMONDIR)");
}

fn installation(rsvars: Rsvars) -> Installation {
    Installation {
        rsvars,
        registry: Registry {
            keys: Vec::new(),
            overrides: vec![(23, vec![("VEGADIR".to_string(), "/vega".to_string())])],
        },
        documents: Some("/home/me/Documents".to_string()),
        public_profile: Some("/public".to_string()),
    }
}

#[test]
fn an_environment_is_read_of_the_installation() {
    let variables = vec![("BDS".to_string(), "/delphi".to_string())];
    let read = IdeEnvironment::read("/delphi", "23.0", &installation(Rsvars::Parsed(variables)));
    let environment = match read {
        Ok(environment) => environment,
        Err(error) => panic!("{}", error.message()),
    };
    assert_eq!(environment.rsvars, vec![("BDS".to_string(), "/delphi".to_string())]);
    assert_eq!(environment.ide_variables, vec![("VEGADIR".to_string(), "/vega".to_string())]);
    assert_eq!(
        environment.user_dir.as_deref(),
        Some("/home/me/Documents/Embarcadero/Studio/23.0")
    );
    assert_eq!(
        environment.common_dir.as_deref(),
        Some("/public/Documents/Embarcadero/Studio/23.0")
    );
}

#[test]
fn older_versions_keep_their_data_in_another_folder() {
    let read = IdeEnvironment::read("/d", "7.0", &installation(Rsvars::Parsed(Vec::new())));
    let environment = match read {
        Ok(environment) => environment,
        Err(error) => panic!("{}", error.message()),
    };
    assert_eq!(environment.user_dir.as_deref(), Some("/home/me/Documents/RAD Studio/7.0"));
    assert_eq!(environment.common_dir.as_deref(), Some("/public/Documents/RAD Studio/7.0"));
    assert!(environment.ide_variables.is_empty());
}

#[test]
fn a_missing_rsvars_is_an_error_with_its_path() {
    match IdeEnvironment::read("/delphi", "23.0", &installation(Rsvars::Missing)) {
        Err(error) => {
            assert_eq!(
                error.message(),
                "rsvars.bat not found in compiler installation: /delphi/bin/rsvars.bat"
            );
            assert!(matches!(error, EnvironmentError::RsvarsMissing { .. }));
        }
        Ok(_) => panic!("read without rsvars.bat"),
    }
}

#[test]
fn an_unreadable_rsvars_is_an_error_with_its_cause() {
    let found = installation(Rsvars::Unreadable("denied".to_string()));
    match IdeEnvironment::read("/delphi", "23.0", &found) {
        Err(EnvironmentError::RsvarsUnreadable { path, cause }) => {
            assert_eq!(path, "/delphi/bin/rsvars.bat");
            assert_eq!(cause, "denied");
            let error = EnvironmentError::RsvarsUnreadable { path, cause };
            assert_eq!(error.message(), "Failed to parse /delphi/bin/rsvars.bat");
        }
        _ => panic!("read an unreadable rsvars.bat"),
    }
}

#[test]
fn an_override_reaches_dproj_in_another_casing() {
    let macros = environment(&[("VEGADIR", "old")], &[("VegaDir", "new")]).macros("C:");
    let env = macros.as_env();
    assert_eq!(env.get("VEGADIR"), Some(&"new".to_string()));
    assert_eq!(env.get("VegaDir"), Some(&"new".to_string()));
}

#[test]
fn extensions_and_passes_split() {
    let pair = |name: &str, value: &str| (name.to_string(), value.to_string());
    let mut at_once = MacroMap::new();
    at_once.extend(&vec![pair("A", "1"), pair("b", "2"), pair("a", "3")]);
    let mut in_turn = MacroMap::new();
    in_turn.extend(&vec![pair("A", "1"), pair("b", "2")]);
    in_turn.extend(&vec![pair("a", "3")]);
    for name in ["A", "B", "c"] {
        assert_eq!(at_once.get(name), in_turn.get(name));
    }
    let whole = at_once.expand_once("x$(a)$(no)y$(b)$(");
    let parts = at_once.expand_once("x$(a)$(no)") + &at_once.expand_once("y$(b)$(");
    assert_eq!(whole, parts);
    assert_eq!(whole, "x3$(no)y2$(");
    assert_eq!(at_once.expand("$(no)$("), "$(no)$(");
}
