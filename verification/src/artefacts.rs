//! The built files of a project: where they are looked for, and what is wrong
//! with the ones found.

use vstd::prelude::*;
use vstd::string::*;

use crate::files;
use crate::files::Files;
use crate::paths;
use crate::text;

verus! {

// ─── Symbols ─────────────────────────────────────────────────────────────────

/// How much older than its binary a symbol file may be before it counts as
/// stale, in nanoseconds: five minutes. Within one build the linker writes the
/// `.map` and `.rsm` *before* it finishes the executable, and a large link
/// takes its time, so only a gap that cannot belong to the same build is
/// reported.
pub const STALE_SYMBOLS_TOLERANCE: i128 = 300_000_000_000;

/// Whether symbols modified at `symbols` are left over from an earlier build
/// than that of a binary modified at `binary`.
pub open spec fn stale(binary: Option<int>, symbols: Option<int>) -> bool {
    match (binary, symbols) {
        (Some(b), Some(s)) => s < b - STALE_SYMBOLS_TOLERANCE,
        _ => false,
    }
}

/// What is wrong with the symbols of one extension next to `binary`, if
/// anything: they are missing, or stale.
pub open spec fn symbol_warning(
    files: Map<Seq<char>, files::FileView>,
    binary: Seq<char>,
    what: Seq<char>,
    extension: Seq<char>,
    effect: Seq<char>,
) -> Seq<Seq<char>> {
    let symbols = files::at(files, paths::path_with_extension(binary, extension));
    if !symbols.present {
        seq![
            "Missing ."@ + extension + " next to "@ + what + " ("@ + effect
                + "). Compile with debug info (Compile for Debugging)."@,
        ]
    } else if stale(files::at(files, binary).modified, symbols.modified) {
        seq![
            "The ."@ + extension + " next to "@ + what
                + " is older than the binary: stale symbols make breakpoints land on wrong lines. Recompile with debug info (Compile for Debugging)."@,
        ]
    } else {
        Seq::empty()
    }
}

/// What is wrong with the symbol files next to `binary`, which the warnings
/// call `what`.
pub open spec fn symbol_warnings(
    files: Map<Seq<char>, files::FileView>,
    binary: Seq<char>,
    what: Seq<char>,
) -> Seq<Seq<char>> {
    symbol_warning(
        files,
        binary,
        what,
        "map"@,
        "no source lines: breakpoints and stepping will not work"@,
    ) + symbol_warning(
        files,
        binary,
        what,
        "rsm"@,
        "variable inspection and expression evaluation will be severely limited"@,
    )
}

/// Whether symbols modified at `symbols` are stale for a binary modified at
/// `binary`.
fn is_stale(binary: Option<i128>, symbols: Option<i128>) -> (res: bool)
    ensures
        res == stale(
            match binary {
                Some(b) => Some(b as int),
                None => None,
            },
            match symbols {
                Some(s) => Some(s as int),
                None => None,
            },
        ),
{
    match (binary, symbols) {
        (Some(b), Some(s)) => if b < i128::MIN + STALE_SYMBOLS_TOLERANCE {
            false
        } else {
            s < b - STALE_SYMBOLS_TOLERANCE
        },
        _ => false,
    }
}

fn check_symbol_file(
    binary: &str,
    what: &str,
    extension: &str,
    effect: &str,
    files: &Files,
    warnings: &mut Vec<String>,
)
    requires
        !extension@.contains('/'),
        !extension@.contains('\\'),
    ensures
        text::texts(final(warnings)@) == text::texts(old(warnings)@) + symbol_warning(
            files@,
            binary@,
            what@,
            extension@,
            effect@,
        ),
{
    let symbols = paths::sibling(binary, extension);
    if !files.is_present(symbols.as_str()) {
        text::push_text(
            warnings,
            "Missing .".to_owned().concat(extension).concat(" next to ").concat(what).concat(
                " (",
            ).concat(effect).concat("). Compile with debug info (Compile for Debugging)."),
        );
    } else if is_stale(files.modified_time(binary), files.modified_time(symbols.as_str())) {
        text::push_text(
            warnings,
            "The .".to_owned().concat(extension).concat(" next to ").concat(what).concat(
                " is older than the binary: stale symbols make breakpoints land on wrong lines. Recompile with debug info (Compile for Debugging).",
            ),
        );
    }
    proof {
        assert(text::texts(warnings@) =~= text::texts(old(warnings)@) + symbol_warning(
            files@,
            binary@,
            what@,
            extension@,
            effect@,
        ));
    }
}

/// Missing symbols cost features; symbols left over from an earlier build are
/// worse: breakpoints land on wrong lines and locals read as garbage.
pub fn check_symbols_next_to(
    binary: &str,
    what: &str,
    files: &Files,
    warnings: &mut Vec<String>,
)
    ensures
        text::texts(final(warnings)@) == text::texts(old(warnings)@) + symbol_warnings(
            files@,
            binary@,
            what@,
        ),
{
    proof {
        reveal_strlit("map");
        reveal_strlit("rsm");
    }
    check_symbol_file(
        binary,
        what,
        "map",
        "no source lines: breakpoints and stepping will not work",
        files,
        warnings,
    );
    check_symbol_file(
        binary,
        what,
        "rsm",
        "variable inspection and expression evaluation will be severely limited",
        files,
        warnings,
    );
    proof {
        assert(text::texts(warnings@) =~= text::texts(old(warnings)@) + symbol_warnings(
            files@,
            binary@,
            what@,
        ));
    }
}

/// That an executable was not found, in words.
pub open spec fn executable_not_found(executable: Seq<char>) -> Seq<char> {
    "Executable not found: "@ + executable + ". Compile the project first."@
}

pub(crate) fn executable_not_found_text(executable: &str) -> (res: String)
    ensures
        res@ == executable_not_found(executable@),
{
    "Executable not found: ".to_owned().concat(executable).concat(". Compile the project first.")
}

/// What is wrong with the executable to launch.
pub open spec fn executable_warnings(
    files: Map<Seq<char>, files::FileView>,
    executable: Seq<char>,
    own_program: bool,
) -> Seq<Seq<char>> {
    if !files::at(files, executable).present {
        seq![executable_not_found(executable)]
    } else if own_program {
        symbol_warnings(files, executable, "the executable"@)
    } else {
        Seq::empty()
    }
}

/// Flags a missing executable and, when it is the project's own program,
/// missing or stale `.map`/`.rsm` next to it. A host application's symbols
/// are optional: it is the loaded module that matters then.
pub fn check_executable_artefacts(
    executable: &str,
    own_program: bool,
    files: &Files,
    warnings: &mut Vec<String>,
)
    ensures
        text::texts(final(warnings)@) == text::texts(old(warnings)@) + executable_warnings(
            files@,
            executable@,
            own_program,
        ),
{
    if !files.is_present(executable) {
        text::push_text(warnings, executable_not_found_text(executable));
    } else if own_program {
        check_symbols_next_to(executable, "the executable", files, warnings);
    }
    proof {
        assert(text::texts(warnings@) =~= text::texts(old(warnings)@) + executable_warnings(
            files@,
            executable@,
            own_program,
        ));
    }
}

/// What is wrong with the symbols of a module.
pub open spec fn module_warnings(
    files: Map<Seq<char>, files::FileView>,
    binary: Seq<char>,
) -> Seq<Seq<char>> {
    symbol_warnings(files, binary, paths::name_of_file(binary))
}

/// Flags missing or stale `.map`/`.rsm` next to a module.
pub fn check_module_artefacts(binary: &str, files: &Files, warnings: &mut Vec<String>)
    ensures
        text::texts(final(warnings)@) == text::texts(old(warnings)@) + module_warnings(
            files@,
            binary@,
        ),
{
    let name = paths::file_name(binary);
    check_symbols_next_to(binary, name.as_str(), files, warnings);
}

// ─── Directories ─────────────────────────────────────────────────────────────

/// The first of the candidates `<dir>\<file_name>` that is a file, in normal
/// form.
pub open spec fn built_file(
    files: Map<Seq<char>, files::FileView>,
    directories: Seq<Seq<char>>,
    file_name: Seq<char>,
) -> Option<Seq<char>>
    decreases directories.len(),
{
    if directories.len() == 0 {
        None
    } else if files::at(files, paths::path_join(directories[0], file_name)).is_file {
        Some(paths::normalized(paths::path_join(directories[0], file_name)))
    } else {
        built_file(files, directories.skip(1), file_name)
    }
}

/// Whether each of the directories is on a drive or on a network share, or is
/// relative.
pub open spec fn are_on_drive_or_share(list: Seq<Seq<char>>) -> bool {
    forall|i: int| 0 <= i < list.len() ==> paths::is_on_drive_or_share(#[trigger] list[i])
}

/// The first directory holding exactly `file_name`. An exact name only: the
/// stem already carries the `LIBSUFFIX`, and a looser match in a shared
/// output directory would pick up another package's binary.
pub fn find_built_file(directories: &Vec<String>, file_name: &str, files: &Files) -> (res: Option<
    String,
>)
    ensures
        text::opt(res) == built_file(files@, text::texts(directories@), file_name@),
        res matches Some(found) ==> paths::is_component(file_name@) && are_on_drive_or_share(
            text::texts(directories@),
        ) && paths::is_file_on_drive_or_share(found@) ==> paths::name_of_file(found@) == file_name@,
{
    let ghost all = text::texts(directories@);
    let mut i: usize = 0;
    proof {
        assert(all.skip(0) == all);
    }
    while i < directories.len()
        invariant
            i <= directories@.len(),
            all == text::texts(directories@),
            built_file(files@, all, file_name@) == built_file(
                files@,
                all.skip(i as int),
                file_name@,
            ),
        decreases directories@.len() - i,
    {
        let candidate = paths::join(directories[i].as_str(), file_name);
        proof {
            assert(all.skip(i as int)[0] == directories@[i as int]@);
            assert(all.skip(i as int).skip(1) == all.skip(i + 1));
        }
        if files.is_file(candidate.as_str()) {
            return Some(paths::normalize_path(candidate.as_str()));
        }
        i = i + 1;
    }
    None
}

/// A directory that there may be, as a list.
pub open spec fn dir_list(dir: Option<Seq<char>>) -> Seq<Seq<char>> {
    match dir {
        Some(dir) => seq![dir],
        None => Seq::empty(),
    }
}

/// Adds a directory where there is one.
pub fn push_dir(directories: &mut Vec<String>, dir: Option<String>)
    ensures
        text::texts(final(directories)@) == text::texts(old(directories)@) + dir_list(
            text::opt(dir),
        ),
{
    match dir {
        Some(dir) => text::push_text(directories, dir),
        None => {},
    }
    proof {
        assert(text::texts(directories@) =~= text::texts(old(directories)@) + dir_list(
            text::opt(dir),
        ));
    }
}

/// Whether `path` is in the list up to the casing of ASCII letters.
pub open spec fn listed(list: Seq<Seq<char>>, path: Seq<char>) -> bool {
    exists|i: int| 0 <= i < list.len() && text::same_name(#[trigger] list[i], path)
}

/// The list with the normal form of `candidate`, unless it is there already.
pub open spec fn with_unique(list: Seq<Seq<char>>, candidate: Seq<char>) -> Seq<Seq<char>> {
    if listed(list, paths::normalized(candidate)) {
        list
    } else {
        list.push(paths::normalized(candidate))
    }
}

/// Adds the normal form of `candidate`, unless it is listed already.
pub fn push_unique(list: &mut Vec<String>, candidate: &str)
    ensures
        text::texts(final(list)@) == with_unique(text::texts(old(list)@), candidate@),
{
    let normal = paths::normalize_path(candidate);
    let ghost all = text::texts(list@);
    let mut i: usize = 0;
    while i < list.len()
        invariant
            i <= list@.len(),
            list@ == old(list)@,
            all == text::texts(list@),
            forall|j: int| 0 <= j < i ==> !text::same_name(#[trigger] all[j], normal@),
            normal@ == paths::normalized(candidate@),
        decreases list@.len() - i,
    {
        proof {
            assert(all[i as int] == list@[i as int]@);
        }
        if text::is_same_name(list[i].as_str(), normal.as_str()) {
            return;
        }
        i = i + 1;
    }
    text::push_text(list, normal);
}

} // verus!
