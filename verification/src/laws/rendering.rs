//! Laws of how a target reads as text.

use vstd::prelude::*;

use crate::target;
use crate::target::{DebugModule, DebugTarget, DebugTargetKind};
use crate::text;

verus! {

/// The plain value of a target has all of it.
pub proof fn plain_targets_hide_nothing(target: DebugTarget, module: DebugModule)
    ensures
        target@.project_id == target.project_id,
        target@.project == target.project@,
        target@.project_file == target.project_file@,
        target@.main_source == text::opt(target.main_source),
        target@.kind == target.kind,
        target@.executable == target.executable@,
        target@.host_application == text::opt(target.host_application),
        target@.compiler == target.compiler@,
        target@.config == target.config@,
        target@.platform == target.platform@,
        target@.bitness == target.bitness,
        target@.symbols.map == target.symbols.map@,
        target@.symbols.rsm == target.symbols.rsm@,
        target@.source_root == target.source_root@,
        target@.source_search_paths == text::texts(target.source_search_paths@),
        target@.args == text::texts(target.args@),
        target@.warnings == text::texts(target.warnings@),
        target@.modules.len() == target.modules@.len(),
        forall|i: int|
            0 <= i < target.modules@.len() ==> #[trigger] target@.modules[i] == target.modules@[i]@,
        module@.name == module.name@,
        module@.binary == text::opt(module.binary),
        module@.map == text::opt(module.map),
        module@.rsm == text::opt(module.rsm),
        module@.dcp == text::opt(module.dcp),
{
}

/// The text of a target without modules and warnings, in two parts: what stands
/// above the modules, and what stands below them.
pub open spec fn above_modules(t: target::TargetView) -> Seq<char> {
    let kind = match t.kind {
        DebugTargetKind::Program => "program"@,
        DebugTargetKind::Package => "package"@,
        DebugTargetKind::Library => "library"@,
    };
    let host = match t.host_application {
        Some(host) => "  host app:     "@ + host + "\n"@,
        None => Seq::empty(),
    };
    ("Debug target for \""@ + t.project + "\" ("@ + kind + ", "@ + t.config + " "@ + t.platform
        + ", "@ + t.compiler + "):\n"@) + ("  project file: "@ + t.project_file + "\n"@) + (
    "  executable:   "@ + t.executable + "\n"@) + host + ("  map / rsm:    "@ + t.symbols.map
        + " / "@ + t.symbols.rsm + "\n"@)
}

/// What stands below the modules and above the warnings.
pub open spec fn below_modules(t: target::TargetView) -> Seq<char> {
    let args = if t.args.len() == 0 {
        Seq::empty()
    } else {
        "  args:         "@ + text::joined(t.args, " "@) + "\n"@
    };
    args + ("  source root:  "@ + t.source_root + "\n"@) + ("  source paths: "@ + text::decimal(
        t.source_search_paths.len(),
    ) + " directories\n"@)
}

/// A target reads as its facts, then a line for each module, then further
/// facts, then a line for each warning below a heading.
pub proof fn targets_read_in_order(t: target::TargetView)
    ensures
        t.warnings.len() == 0 ==> t.rendered() == above_modules(t) + target::module_lines(t.modules)
            + below_modules(t),
        t.warnings.len() > 0 ==> t.rendered() == above_modules(t) + target::module_lines(t.modules)
            + below_modules(t) + "Warnings:\n"@ + target::warning_lines(t.warnings),
{
    let front = above_modules(t) + target::module_lines(t.modules) + below_modules(t);
    if t.warnings.len() == 0 {
        assert(t.rendered() =~= front);
    } else {
        assert(t.rendered() =~= front + "Warnings:\n"@ + target::warning_lines(t.warnings));
    }
}

/// Every module has its line, in order, however many there are: a name, and
/// where its binary is or that it was not built.
pub proof fn every_module_has_its_line(
    a: Seq<target::ModuleView>,
    b: Seq<target::ModuleView>,
)
    ensures
        target::module_lines(a + b) == target::module_lines(a) + target::module_lines(b),
        a.len() == 1 ==> target::module_lines(a) == "  module:       "@ + a[0].name + " -> "@ + (
        match a[0].binary {
            Some(binary) => binary,
            None => "(not built)"@,
        }) + "\n"@,
        a.len() == 0 ==> target::module_lines(a).len() == 0,
    decreases b.len(),
{
    reveal_with_fuel(target::module_lines, 2);
    if a.len() == 1 {
        assert(a.drop_last() =~= Seq::<target::ModuleView>::empty());
        assert(target::module_lines(a) =~= target::module_line(a[0]));
    }
    if b.len() == 0 {
        assert(a + b =~= a);
        assert(target::module_lines(a) + target::module_lines(b) =~= target::module_lines(a));
    } else {
        every_module_has_its_line(a, b.drop_last());
        assert((a + b).drop_last() =~= a + b.drop_last());
        assert((a + b).last() == b.last());
        assert(target::module_lines(a + b) =~= target::module_lines(a) + target::module_lines(b));
    }
}

/// Every warning has its line, in order, however many there are.
pub proof fn every_warning_has_its_line(a: Seq<Seq<char>>, b: Seq<Seq<char>>)
    ensures
        target::warning_lines(a + b) == target::warning_lines(a) + target::warning_lines(b),
        a.len() == 1 ==> target::warning_lines(a) == "- "@ + a[0] + "\n"@,
        a.len() == 0 ==> target::warning_lines(a).len() == 0,
    decreases b.len(),
{
    reveal_with_fuel(target::warning_lines, 2);
    if a.len() == 1 {
        assert(a.drop_last() =~= Seq::<Seq<char>>::empty());
        assert(target::warning_lines(a) =~= "- "@ + a[0] + "\n"@);
    }
    if b.len() == 0 {
        assert(a + b =~= a);
        assert(target::warning_lines(a) + target::warning_lines(b) =~= target::warning_lines(a));
    } else {
        every_warning_has_its_line(a, b.drop_last());
        assert((a + b).drop_last() =~= a + b.drop_last());
        assert((a + b).last() == b.last());
        assert(target::warning_lines(a + b) =~= target::warning_lines(a) + target::warning_lines(
            b,
        ));
    }
}

} // verus!
