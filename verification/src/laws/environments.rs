//! Laws of the macros that an installation's environment gives.

use vstd::prelude::*;

use crate::context;
use crate::environment;
use crate::files;
use crate::laws::macros;
use crate::macro_map;
use crate::project::{CompilerConfiguration, Project};
use crate::registry;
use crate::resolve;
use crate::table;
use crate::text;

verus! {

/// The names that the environment derives are told apart by their letters.
proof fn derived_names_differ()
    ensures
        !text::same_name("BDS"@, "BDSLIB"@),
        !text::same_name("BDS"@, "BDSINCLUDE"@),
        !text::same_name("BDS"@, "BDSBIN"@),
        !text::same_name("BDS"@, "BDSUSERDIR"@),
        !text::same_name("BDS"@, "BDSCOMMONDIR"@),
        !text::same_name("BDSLIB"@, "BDSINCLUDE"@),
        !text::same_name("BDSLIB"@, "BDSBIN"@),
        !text::same_name("BDSLIB"@, "BDSUSERDIR"@),
        !text::same_name("BDSLIB"@, "BDSCOMMONDIR"@),
        !text::same_name("BDSINCLUDE"@, "BDSBIN"@),
        !text::same_name("BDSINCLUDE"@, "BDSUSERDIR"@),
        !text::same_name("BDSINCLUDE"@, "BDSCOMMONDIR"@),
        !text::same_name("BDSBIN"@, "BDSUSERDIR"@),
        !text::same_name("BDSBIN"@, "BDSCOMMONDIR"@),
        !text::same_name("BDSUSERDIR"@, "BDSCOMMONDIR"@),
        !text::same_name("PLATFORM"@, "BDS"@),
        !text::same_name("PLATFORM"@, "BDSLIB"@),
        !text::same_name("PLATFORM"@, "BDSINCLUDE"@),
        !text::same_name("PLATFORM"@, "BDSBIN"@),
        !text::same_name("PLATFORM"@, "BDSUSERDIR"@),
        !text::same_name("PLATFORM"@, "BDSCOMMONDIR"@),
{
    reveal_strlit("BDS");
    reveal_strlit("BDSLIB");
    reveal_strlit("BDSINCLUDE");
    reveal_strlit("BDSBIN");
    reveal_strlit("BDSUSERDIR");
    reveal_strlit("BDSCOMMONDIR");
    reveal_strlit("PLATFORM");
    assert(text::upper("BDSLIB"@)[3] == 'L');
    assert(text::upper("BDSBIN"@)[3] == 'B');
    assert(text::upper("BDSINCLUDE"@)[3] == 'I');
    assert(text::upper("BDSUSERDIR"@)[3] == 'U');
    assert(text::upper("BDS"@).len() == 3);
    assert(text::upper("BDSLIB"@).len() == 6);
    assert(text::upper("BDSINCLUDE"@).len() == 10);
    assert(text::upper("BDSBIN"@).len() == 6);
    assert(text::upper("BDSUSERDIR"@).len() == 10);
    assert(text::upper("BDSCOMMONDIR"@).len() == 12);
    assert(text::upper("PLATFORM"@).len() == 8);
}

/// The value that `rsvars.bat` gives a name, or what is derived where it gives
/// none.
pub open spec fn rsvars_or(
    environment: environment::EnvironmentView,
    name: Seq<char>,
    derived: Option<Seq<char>>,
) -> Option<Seq<char>> {
    match environment.from_rsvars().get(name) {
        Some(value) => Some(value),
        None => derived,
    }
}

/// What `rsvars.bat` defines wins over what is derived; where it is silent,
/// the installation and the data directories are derived from.
pub proof fn rsvars_win_over_derived(
    environment: environment::EnvironmentView,
    installation: Seq<char>,
)
    ensures
        ({
            let macros = environment.with_defaults(installation);
            let bds = environment.bds(installation);
            &&& macros.get("BDS"@) == Some(bds)
            &&& macros.get("BDSLIB"@) == rsvars_or(environment, "BDSLIB"@, Some(bds + "\\lib"@))
            &&& macros.get("BDSINCLUDE"@) == rsvars_or(
                environment,
                "BDSINCLUDE"@,
                Some(bds + "\\include"@),
            )
            &&& macros.get("BDSBIN"@) == rsvars_or(environment, "BDSBIN"@, Some(bds + "\\bin"@))
            &&& macros.get("BDSUSERDIR"@) == rsvars_or(
                environment,
                "BDSUSERDIR"@,
                environment.user_dir,
            )
            &&& macros.get("BDSCOMMONDIR"@) == rsvars_or(
                environment,
                "BDSCOMMONDIR"@,
                environment.common_dir,
            )
        }),
{
    derived_names_differ();
}

/// A name that `rsvars.bat` defines has that value, unless the IDE overrides it
/// or the name is `PLATFORM`.
pub proof fn rsvars_are_kept(
    environment: environment::EnvironmentView,
    installation: Seq<char>,
    name: Seq<char>,
)
    requires
        !text::same_name(name, "PLATFORM"@),
        table::named(environment.rsvars, name) is Some,
        table::named(environment.ide_variables, name) is None,
    ensures
        environment.macros(installation).get(name) == table::named(environment.rsvars, name),
{
    macros::last_pair_counts(macro_map::MacroView::empty(), environment.rsvars, name);
    macros::last_pair_counts(
        environment.with_defaults(installation),
        environment.ide_variables,
        name,
    );
}

/// The IDE's own overrides win over everything else.
pub proof fn ide_variables_win(
    environment: environment::EnvironmentView,
    installation: Seq<char>,
    name: Seq<char>,
)
    ensures
        environment.macros(installation).get(name) == (match table::named(
            environment.ide_variables,
            name,
        ) {
            Some(value) => Some(value),
            None => environment.with_defaults(installation).get(name),
        }),
{
    macros::last_pair_counts(
        environment.with_defaults(installation),
        environment.ide_variables,
        name,
    );
}

/// `PLATFORM` has no value but one that the IDE overrides give it.
pub proof fn platform_is_dropped(
    environment: environment::EnvironmentView,
    installation: Seq<char>,
    name: Seq<char>,
)
    requires
        text::same_name(name, "PLATFORM"@),
    ensures
        environment.macros(installation).get(name) == table::named(
            environment.ide_variables,
            name,
        ),
{
    derived_names_differ();
    ide_variables_win(environment, installation, name);
}

proof fn defaulting_keeps_well_formed(
    map: macro_map::MacroView,
    key: Seq<char>,
    value: Seq<char>,
)
    requires
        map.well_formed(),
    ensures
        map.set_default(key, value).well_formed(),
{
    macro_map::setting_keeps_well_formed(map, key, value);
}

/// The macros of an environment are well formed.
pub proof fn macros_are_well_formed(
    environment: environment::EnvironmentView,
    installation: Seq<char>,
)
    ensures
        environment.macros(installation).well_formed(),
{
    let empty = macro_map::MacroView::empty();
    let bds = environment.bds(installation);
    macro_map::extending_keeps_well_formed(empty, environment.rsvars);
    macro_map::removing_keeps_well_formed(empty.extend(environment.rsvars), "PLATFORM"@);
    let a = environment.from_rsvars();
    defaulting_keeps_well_formed(a, "BDS"@, bds);
    let b = a.set_default("BDS"@, bds);
    defaulting_keeps_well_formed(b, "BDSLIB"@, bds + "\\lib"@);
    let c = b.set_default("BDSLIB"@, bds + "\\lib"@);
    defaulting_keeps_well_formed(c, "BDSINCLUDE"@, bds + "\\include"@);
    let d = c.set_default("BDSINCLUDE"@, bds + "\\include"@);
    defaulting_keeps_well_formed(d, "BDSBIN"@, bds + "\\bin"@);
    let f = d.set_default("BDSBIN"@, bds + "\\bin"@);
    let g = match environment.user_dir {
        Some(user_dir) => f.set_default("BDSUSERDIR"@, user_dir),
        None => f,
    };
    match environment.user_dir {
        Some(user_dir) => {
            defaulting_keeps_well_formed(f, "BDSUSERDIR"@, user_dir);
        },
        None => {},
    }
    match environment.common_dir {
        Some(common_dir) => {
            defaulting_keeps_well_formed(g, "BDSCOMMONDIR"@, common_dir);
        },
        None => {},
    }
    macro_map::extending_keeps_well_formed(
        environment.with_defaults(installation),
        environment.ide_variables,
    );
}

/// An override of the IDE wins for `dproj-rs` too, whatever casing `rsvars.bat`
/// and the override use: wherever the name is there, it has the override's
/// value, and it is there in upper case.
pub proof fn ide_variables_reach_dproj(
    environment: environment::EnvironmentView,
    installation: Seq<char>,
    name: Seq<char>,
    spelling: Seq<char>,
)
    requires
        table::named(environment.ide_variables, name) is Some,
        text::same_name(spelling, name),
    ensures
        ({
            let env = environment.macros(installation).as_env();
            let value = table::named(environment.ide_variables, name)->0;
            &&& env.contains_key(text::upper(name)) && env[text::upper(name)] == value
            &&& env.contains_key(spelling) ==> env[spelling] == value
        }),
{
    let map = environment.macros(installation);
    macros_are_well_formed(environment, installation);
    ide_variables_win(environment, installation, name);
    macros::environment_has_every_variable(map, text::upper(name));
    macros::environment_has_every_variable(map, spelling);
    text::upper_twice(name);
}

/// Without a readable environment no `$(BDS)`-relative path resolves: the
/// reference stays as it is.
pub proof fn unreadable_environment_leaves_bds_unresolved(
    project: Project,
    compiler: CompilerConfiguration,
    error: Seq<char>,
    library: registry::LibraryView,
    files: Map<Seq<char>, files::FileView>,
    tail: Seq<char>,
)
    requires
        !macro_map::has_reference(tail),
    ensures
        ({
            let context = context::context_of(project, compiler, Err(error), library, files);
            &&& context.macros.get("BDS"@) is None
            &&& context.macros.expand("$(BDS)"@ + tail) == "$(BDS)"@ + tail
            &&& resolve::directory_of(context, Some("$(BDS)\\source"@)) is None
        }),
{
    let context = context::context_of(project, compiler, Err(error), library, files);
    reveal_strlit("BDS");
    reveal_strlit("ProjectDir");
    reveal_strlit("ProjectName");
    reveal_strlit("Auto");
    reveal_strlit("Config");
    reveal_strlit("Configuration");
    reveal_strlit("Platform");
    assert(text::upper("BDS"@).len() == 3);
    assert(text::upper("ProjectDir"@).len() == 10);
    assert(text::upper("ProjectName"@).len() == 11);
    assert(text::upper("Auto"@).len() == 4);
    assert(text::upper("Config"@).len() == 6);
    assert(text::upper("Configuration"@).len() == 13);
    assert(text::upper("Platform"@).len() == 8);
    bds_stays(context.macros, tail);
    reveal_strlit("$(BDS)");
    reveal_strlit("$(BDS)\\source");
    reveal_strlit("\\source");
    let plain = "\\source"@;
    assert(!macro_map::has_reference(plain)) by {
        assert forall|i: int| !macro_map::opens_at(plain, i) by {
            if 0 <= i < plain.len() {
                assert(plain[i] != '$');
            }
        }
    }
    bds_stays(context.macros, plain);
    let path = "$(BDS)\\source"@;
    assert(path =~= "$(BDS)"@ + plain);
    assert(path[0] == '$' && path.last() == 'e');
    assert(text::trimmed(path) == path);
    assert(macro_map::opens_at(path, 0));
}

proof fn bds_stays(map: macro_map::MacroView, tail: Seq<char>)
    requires
        map.get("BDS"@) is None,
        !macro_map::has_reference(tail),
    ensures
        map.expand("$(BDS)"@ + tail) == "$(BDS)"@ + tail,
{
    reveal_strlit("BDS");
    reveal_strlit("$(BDS)");
    reveal_strlit("$(");
    reveal_strlit(")");
    let none = Seq::<char>::empty();
    let s = "$(BDS)"@ + tail;
    assert(s =~= none + "$("@ + "BDS"@ + ")"@ + tail);
    assert(!"BDS"@.contains(')'));
    macros::first_reference_is_resolved(map.vars, none, "BDS"@, tail);
    macros::plain_text_stays(map, tail);
    assert(macro_map::expanded_once(map.vars, s) =~= s);
}

/// The value that is derived for a name where nothing defines it.
pub open spec fn derived_value(
    environment: environment::EnvironmentView,
    bds: Seq<char>,
    name: Seq<char>,
) -> Option<Seq<char>> {
    let key = text::upper(name);
    if key == text::upper("BDS"@) {
        Some(bds)
    } else if key == text::upper("BDSLIB"@) {
        Some(bds + "\\lib"@)
    } else if key == text::upper("BDSINCLUDE"@) {
        Some(bds + "\\include"@)
    } else if key == text::upper("BDSBIN"@) {
        Some(bds + "\\bin"@)
    } else if key == text::upper("BDSUSERDIR"@) {
        environment.user_dir
    } else if key == text::upper("BDSCOMMONDIR"@) {
        environment.common_dir
    } else {
        None
    }
}

/// The precedence of the macros of an installation, for every name: the last
/// override of the IDE; else, but for `PLATFORM`, the last value of
/// `rsvars.bat`; else what is derived from the installation, where its own `BDS`
/// counts before the directory it was found in.
pub proof fn macros_come_in_order(
    environment: environment::EnvironmentView,
    installation: Seq<char>,
    name: Seq<char>,
)
    ensures
        ({
            let overridden = table::named(environment.ide_variables, name);
            let exported = table::named(environment.rsvars, name);
            let bds = match table::named(environment.rsvars, "BDS"@) {
                Some(bds) => bds,
                None => installation,
            };
            environment.macros(installation).get(name) == (if overridden is Some {
                overridden
            } else if text::upper(name) == text::upper("PLATFORM"@) {
                None
            } else if exported is Some {
                exported
            } else {
                derived_value(environment, bds, name)
            })
        }),
{
    let empty = macro_map::MacroView::empty();
    derived_names_differ();
    ide_variables_win(environment, installation, name);
    macros::last_pair_counts(empty, environment.rsvars, name);
    macros::last_pair_counts(empty, environment.rsvars, "BDS"@);
    macros::removed_elsewhere(empty.extend(environment.rsvars), "PLATFORM"@, name);
    macros::removed_elsewhere(empty.extend(environment.rsvars), "PLATFORM"@, "BDS"@);
}

} // verus!
