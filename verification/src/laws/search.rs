//! Laws of looking for files and directories.

use vstd::prelude::*;

use crate::artefacts;
use crate::context;
use crate::files;
use crate::laws::paths as path_laws;
use crate::laws::texts as text_laws;
use crate::paths;
use crate::resolve;
use crate::sources;
use crate::text;

verus! {

// ─── Built files ─────────────────────────────────────────────────────────────

/// The file found is the one in the first directory that holds it under
/// exactly that name; none is found where no directory does.
pub proof fn first_directory_counts(
    files: Map<Seq<char>, files::FileView>,
    directories: Seq<Seq<char>>,
    file_name: Seq<char>,
    i: int,
)
    requires
        0 <= i < directories.len(),
        files::at(files, paths::path_join(directories[i], file_name)).is_file,
        forall|j: int|
            0 <= j < i ==> !files::at(
                files,
                paths::path_join(#[trigger] directories[j], file_name),
            ).is_file,
    ensures
        artefacts::built_file(files, directories, file_name) == Some(
            paths::normalized(paths::path_join(directories[i], file_name)),
        ),
    decreases i,
{
    if i > 0 {
        let rest = directories.skip(1);
        assert(!files::at(files, paths::path_join(directories[0], file_name)).is_file);
        assert(rest[i - 1] == directories[i]);
        assert forall|j: int| 0 <= j < i - 1 implies !files::at(
            files,
            paths::path_join(#[trigger] rest[j], file_name),
        ).is_file by {
            assert(rest[j] == directories[j + 1]);
        }
        first_directory_counts(files, rest, file_name, i - 1);
    }
}

/// No file is found where no directory holds one of that name.
pub proof fn nothing_is_made_up(
    files: Map<Seq<char>, files::FileView>,
    directories: Seq<Seq<char>>,
    file_name: Seq<char>,
)
    requires
        forall|j: int|
            0 <= j < directories.len() ==> !files::at(
                files,
                paths::path_join(#[trigger] directories[j], file_name),
            ).is_file,
    ensures
        artefacts::built_file(files, directories, file_name) is None,
    decreases directories.len(),
{
    if directories.len() > 0 {
        let rest = directories.skip(1);
        assert(!files::at(files, paths::path_join(directories[0], file_name)).is_file);
        assert forall|j: int| 0 <= j < rest.len() implies !files::at(
            files,
            paths::path_join(#[trigger] rest[j], file_name),
        ).is_file by {
            assert(rest[j] == directories[j + 1]);
        }
        nothing_is_made_up(files, rest, file_name);
    }
}

/// Whether `found` is the normal form of the file in directory `i`, which is
/// there and in no directory before.
pub open spec fn is_first_found(
    files: Map<Seq<char>, files::FileView>,
    directories: Seq<Seq<char>>,
    file_name: Seq<char>,
    found: Seq<char>,
    i: int,
) -> bool {
    &&& 0 <= i < directories.len()
    &&& files::at(files, paths::path_join(directories[i], file_name)).is_file
    &&& forall|j: int|
        0 <= j < i ==> !files::at(
            files,
            paths::path_join(#[trigger] directories[j], file_name),
        ).is_file
    &&& found == paths::normalized(paths::path_join(directories[i], file_name))
}

/// A file that is found is in one of the directories, under exactly the name
/// looked for, and in none before.
pub proof fn found_file_is_in_a_directory(
    files: Map<Seq<char>, files::FileView>,
    directories: Seq<Seq<char>>,
    file_name: Seq<char>,
    found: Seq<char>,
)
    requires
        artefacts::built_file(files, directories, file_name) == Some(found),
    ensures
        exists|i: int| is_first_found(files, directories, file_name, found, i),
    decreases directories.len(),
{
    if files::at(files, paths::path_join(directories[0], file_name)).is_file {
        assert(is_first_found(files, directories, file_name, found, 0));
    } else {
        let rest = directories.skip(1);
        found_file_is_in_a_directory(files, rest, file_name, found);
        let i = choose|i: int| is_first_found(files, rest, file_name, found, i);
        assert(rest[i] == directories[i + 1]);
        assert forall|j: int| 0 <= j < i + 1 implies !files::at(
            files,
            paths::path_join(#[trigger] directories[j], file_name),
        ).is_file by {
            if j > 0 {
                assert(rest[j - 1] == directories[j]);
            }
        }
        assert(is_first_found(files, directories, file_name, found, i + 1));
    }
}

/// Symbols no older than the binary, or older by five minutes at most, are not
/// stale; symbols older than that are.
pub proof fn one_build_is_not_stale(binary: int, symbols: int)
    ensures
        artefacts::stale(Some(binary), Some(symbols)) <==> binary - symbols > 5 * 60
            * 1_000_000_000,
{
}

/// Whether there is a file of symbols of each kind next to `binary`, and none
/// of them is left over from an earlier build.
pub open spec fn has_fresh_symbols(
    files: Map<Seq<char>, files::FileView>,
    binary: Seq<char>,
) -> bool {
    let map = files::at(files, paths::path_with_extension(binary, "map"@));
    let rsm = files::at(files, paths::path_with_extension(binary, "rsm"@));
    let time = files::at(files, binary).modified;
    &&& map.present && !artefacts::stale(time, map.modified)
    &&& rsm.present && !artefacts::stale(time, rsm.modified)
}

/// There is nothing to say of symbols that are both there and not stale, and
/// something of any others.
pub proof fn fresh_symbols_pass(
    files: Map<Seq<char>, files::FileView>,
    binary: Seq<char>,
    what: Seq<char>,
)
    ensures
        artefacts::symbol_warnings(files, binary, what).len() == 0 <==> has_fresh_symbols(
            files,
            binary,
        ),
{
}

// ─── Source paths ────────────────────────────────────────────────────────────

/// No path is listed twice, not even in another casing.
pub proof fn distinct_paths_differ(candidates: Seq<Seq<char>>, i: int, j: int)
    requires
        0 <= i < j < sources::distinct(candidates).len(),
    ensures
        !text::same_name(sources::distinct(candidates)[i], sources::distinct(candidates)[j]),
    decreases candidates.len(),
{
    if candidates.len() > 0 {
        let before = sources::distinct(candidates.drop_last());
        if j < before.len() {
            distinct_paths_differ(candidates.drop_last(), i, j);
        } else {
            assert(!text::same_name(before[i], paths::normalized(candidates.last())));
        }
    }
}

/// Every candidate is listed in its normal form, up to casing; and every path
/// listed is the normal form of a candidate.
pub proof fn distinct_paths_are_the_candidates(candidates: Seq<Seq<char>>)
    ensures
        forall|i: int|
            0 <= i < candidates.len() ==> artefacts::listed(
                sources::distinct(candidates),
                paths::normalized(#[trigger] candidates[i]),
            ),
        forall|i: int|
            0 <= i < sources::distinct(candidates).len() ==> is_normal_form_in(
                candidates,
                #[trigger] sources::distinct(candidates)[i],
            ),
    decreases candidates.len(),
{
    if candidates.len() > 0 {
        let shorter = candidates.drop_last();
        let before = sources::distinct(shorter);
        let all = sources::distinct(candidates);
        distinct_paths_are_the_candidates(shorter);
        assert forall|i: int| 0 <= i < candidates.len() implies artefacts::listed(
            all,
            paths::normalized(#[trigger] candidates[i]),
        ) by {
            let normal = paths::normalized(candidates[i]);
            if i < shorter.len() {
                assert(shorter[i] == candidates[i]);
                assert(artefacts::listed(before, normal));
                let k = choose|k: int|
                    0 <= k < before.len() && text::same_name(#[trigger] before[k], normal);
                assert(all[k] == before[k]);
            } else if !artefacts::listed(before, normal) {
                assert(all[before.len() as int] == normal);
            }
        }
        assert forall|i: int| 0 <= i < all.len() implies is_normal_form_in(
            candidates,
            #[trigger] all[i],
        ) by {
            if i < before.len() {
                assert(all[i] == before[i]);
                assert(is_normal_form_in(shorter, before[i]));
                let k = choose|k: int|
                    0 <= k < shorter.len() && paths::normalized(#[trigger] shorter[k]) == before[i];
                assert(candidates[k] == shorter[k]);
            } else {
                assert(candidates[candidates.len() - 1] == candidates.last());
            }
        }
    }
}

/// Whether `path` is the normal form of one of the candidates.
pub open spec fn is_normal_form_in(candidates: Seq<Seq<char>>, path: Seq<char>) -> bool {
    exists|k: int|
        0 <= k < candidates.len() && paths::normalized(#[trigger] candidates[k]) == path
}

/// The more specific comes first: what further candidates add stands behind
/// what is listed without them.
pub proof fn later_candidates_come_later(first: Seq<Seq<char>>, further: Seq<Seq<char>>)
    ensures
        sources::distinct(first).is_prefix_of(sources::distinct(first + further)),
    decreases further.len(),
{
    if further.len() == 0 {
        assert(first + further =~= first);
    } else {
        later_candidates_come_later(first, further.drop_last());
        assert((first + further).drop_last() =~= first + further.drop_last());
        assert((first + further).last() == further.last());
        let before = sources::distinct(first + further.drop_last());
        let all = sources::distinct(first + further);
        assert(before.is_prefix_of(all)) by {
            assert(all =~= before || all.drop_last() =~= before);
        }
        assert(sources::distinct(first) =~= all.subrange(
            0,
            sources::distinct(first).len() as int,
        ));
    }
}

/// Whether `path` is one of the directories, for JSON, and exists.
pub open spec fn is_existing_in(
    files: Map<Seq<char>, files::FileView>,
    dirs: Seq<Seq<char>>,
    path: Seq<char>,
) -> bool {
    exists|k: int|
        0 <= k < dirs.len() && files::at(files, #[trigger] dirs[k]).is_dir && paths::slashed(
            dirs[k],
        ) == path
}

/// Only existing directories are kept, and all of them.
pub proof fn existing_directories_are_kept(
    files: Map<Seq<char>, files::FileView>,
    dirs: Seq<Seq<char>>,
)
    ensures
        forall|i: int|
            0 <= i < sources::existing(files, dirs).len() ==> is_existing_in(
                files,
                dirs,
                #[trigger] sources::existing(files, dirs)[i],
            ),
        forall|k: int|
            0 <= k < dirs.len() && files::at(files, #[trigger] dirs[k]).is_dir
                ==> sources::existing(files, dirs).contains(paths::slashed(dirs[k])),
    decreases dirs.len(),
{
    if dirs.len() > 0 {
        let shorter = dirs.drop_last();
        let before = sources::existing(files, shorter);
        let all = sources::existing(files, dirs);
        existing_directories_are_kept(files, shorter);
        assert forall|i: int| 0 <= i < all.len() implies is_existing_in(
            files,
            dirs,
            #[trigger] all[i],
        ) by {
            if i < before.len() {
                assert(all[i] == before[i]);
                assert(is_existing_in(files, shorter, before[i]));
                let k = choose|k: int|
                    0 <= k < shorter.len() && files::at(files, #[trigger] shorter[k]).is_dir
                        && paths::slashed(shorter[k]) == before[i];
                assert(dirs[k] == shorter[k]);
            } else {
                assert(dirs[dirs.len() - 1] == dirs.last());
            }
        }
        assert forall|k: int|
            0 <= k < dirs.len() && files::at(files, #[trigger] dirs[k]).is_dir implies all.contains(
            paths::slashed(dirs[k]),
        ) by {
            if k < shorter.len() {
                assert(shorter[k] == dirs[k]);
                assert(before.contains(paths::slashed(dirs[k])));
                let i = choose|i: int|
                    0 <= i < before.len() && before[i] == paths::slashed(dirs[k]);
                assert(all[i] == before[i]);
            } else {
                assert(all[before.len() as int] == paths::slashed(dirs[k]));
            }
        }
    }
}

proof fn first_existing_stays_first(
    files: Map<Seq<char>, files::FileView>,
    dirs: Seq<Seq<char>>,
)
    requires
        dirs.len() > 0,
        files::at(files, dirs[0]).is_dir,
    ensures
        sources::existing(files, dirs).len() > 0,
        sources::existing(files, dirs)[0] == paths::slashed(dirs[0]),
    decreases dirs.len(),
{
    if dirs.len() > 1 {
        first_existing_stays_first(files, dirs.drop_last());
    } else {
        assert(sources::existing(files, dirs.drop_last()).len() == 0);
    }
}

/// The project directory comes first of the search paths, where it exists.
pub proof fn project_directory_comes_first(
    context: context::ContextView,
    files: Map<Seq<char>, files::FileView>,
)
    requires
        files::at(files, paths::normalized(context.project.directory@)).is_dir,
    ensures
        sources::search_paths(context, files).len() > 0,
        sources::search_paths(context, files)[0] == paths::slashed(
            paths::normalized(context.project.directory@),
        ),
{
    let first = seq![context.project.directory@];
    let all = sources::source_candidates(context);
    let further = all.skip(1);
    assert(all[0] == context.project.directory@);
    assert(first + further =~= all);
    later_candidates_come_later(first, further);
    assert(first.drop_last() =~= Seq::<Seq<char>>::empty());
    assert(sources::distinct(first.drop_last()).len() == 0);
    assert(sources::distinct(first) =~= seq![paths::normalized(context.project.directory@)]);
    assert(sources::distinct(all)[0] == sources::distinct(first)[0]);
    first_existing_stays_first(files, sources::distinct(all));
}

// ─── Path lists ──────────────────────────────────────────────────────────────

proof fn entries_in_a_row(context: context::ContextView, a: Seq<Seq<char>>, b: Seq<Seq<char>>)
    ensures
        sources::dirs_of(context, a + b) == sources::dirs_of(context, a) + sources::dirs_of(
            context,
            b,
        ),
    decreases b.len(),
{
    if b.len() == 0 {
        assert(a + b =~= a);
        assert(sources::dirs_of(context, a) + sources::dirs_of(context, b) =~= sources::dirs_of(
            context,
            a,
        ));
    } else {
        entries_in_a_row(context, a, b.drop_last());
        assert((a + b).drop_last() =~= a + b.drop_last());
        assert((a + b).last() == b.last());
        assert(sources::dirs_of(context, a + b) =~= sources::dirs_of(context, a)
            + sources::dirs_of(context, b));
    }
}

/// A path list of two lists with a `;` between them names the directories of
/// the one and then those of the other, however long they are; a list of one
/// entry names the directory that the entry names, if any.
pub proof fn path_lists_chain(context: context::ContextView, a: Seq<char>, b: Seq<char>)
    ensures
        sources::dirs_in(context, Some(a + seq![';'] + b)) == sources::dirs_in(context, Some(a))
            + sources::dirs_in(context, Some(b)),
        !a.contains(';') ==> match resolve::directory_of(context, Some(a)) {
            Some(dir) => sources::dirs_in(context, Some(a)) =~= seq![dir],
            None => sources::dirs_in(context, Some(a)).len() == 0,
        },
        sources::dirs_in(context, None).len() == 0,
{
    let pieces_a = text::split_at(a, ';');
    let pieces_b = text::split_at(b, ';');
    text_laws::pieces_join_to_the_text(a, ';');
    text_laws::pieces_join_to_the_text(b, ';');
    text_laws::joining_lists_in_a_row(pieces_a, pieces_b, seq![';']);
    let all = pieces_a + pieces_b;
    assert forall|i: int, k: int| 0 <= i < all.len() && 0 <= k < all[i].len() implies #[trigger]
    all[i][k] != ';' by {
        if i < pieces_a.len() {
            assert(pieces_a[i][k] != ';');
        } else {
            assert(pieces_b[i - pieces_a.len()][k] != ';');
        }
    }
    text_laws::splitting_undoes_joining(all, ';');
    entries_in_a_row(context, pieces_a, pieces_b);
    if !a.contains(';') {
        let one = seq![a];
        assert forall|i: int, k: int| 0 <= i < one.len() && 0 <= k < one[i].len() implies #[trigger]
        one[i][k] != ';' by {
            assert(a.contains(a[k]));
        }
        text_laws::joining_lists_in_a_row(one, one, seq![';']);
        text_laws::splitting_undoes_joining(one, ';');
        reveal_with_fuel(sources::dirs_of, 2);
        assert(one.drop_last() =~= Seq::<Seq<char>>::empty());
        assert(one.last() == a);
    }
}

/// An entry of a path list that names a directory, at whatever place between
/// others, is among the directories of the list.
pub proof fn every_entry_counts(
    context: context::ContextView,
    list: Seq<char>,
    before: Seq<Seq<char>>,
    entry: Seq<char>,
    after: Seq<Seq<char>>,
    dir: Seq<char>,
)
    requires
        text_laws::none_holds(before.push(entry) + after, ';'),
        list == text::joined(before.push(entry) + after, seq![';']),
        resolve::directory_of(context, Some(entry)) == Some(dir),
    ensures
        sources::dirs_in(context, Some(list)).contains(dir),
{
    let all = before.push(entry) + after;
    text_laws::splitting_undoes_joining(all, ';');
    entries_in_a_row(context, before.push(entry), after);
    let front = sources::dirs_of(context, before.push(entry));
    assert(before.push(entry).drop_last() =~= before);
    assert(front.last() == dir);
    let named = sources::dirs_in(context, Some(list));
    assert(named[front.len() - 1] == dir);
}

/// The candidates are the project directory, then what the dproj's unit search
/// path and its path of `.inc` files name, then what the IDE's Library
/// Path and Browsing Path name, then the compiler's `source` tree, if known.
pub proof fn candidates_come_in_order(context: context::ContextView)
    ensures
        ({
            let (units, inc) = match context.group {
                Some(group) => (group.unit_search_path, group.include_path),
                None => (None, None),
            };
            let front = seq![context.project.directory@] + sources::dirs_in(context, units)
                + sources::dirs_in(context, inc) + sources::dirs_in(
                context,
                context.library.search_path,
            ) + sources::dirs_in(context, context.library.browsing_path);
            match resolve::directory_of(context, Some("$(BDS)\\source"@)) {
                Some(tree) => sources::source_candidates(context) =~= front.push(tree),
                None => sources::source_candidates(context) =~= front,
            }
        }),
{
}

/// Whether a directory is one that a target's sources are looked for in: the
/// project directory, one that an entry of a path list names, or the compiler's
/// `source` tree.
pub open spec fn is_source_directory(context: context::ContextView, dir: Seq<char>) -> bool {
    ||| dir == context.project.directory@
    ||| context.group matches Some(group) && sources::dirs_in(
        context,
        group.unit_search_path,
    ).contains(dir)
    ||| context.group matches Some(group) && sources::dirs_in(
        context,
        group.include_path,
    ).contains(dir)
    ||| sources::dirs_in(context, context.library.search_path).contains(dir)
    ||| sources::dirs_in(context, context.library.browsing_path).contains(dir)
    ||| resolve::directory_of(context, Some("$(BDS)\\source"@)) == Some(dir)
}

proof fn contained_in_a_row(a: Seq<Seq<char>>, b: Seq<Seq<char>>, x: Seq<char>)
    ensures
        (a + b).contains(x) <==> a.contains(x) || b.contains(x),
{
    if a.contains(x) {
        let i = choose|i: int| 0 <= i < a.len() && a[i] == x;
        assert((a + b)[i] == x);
    }
    if b.contains(x) {
        let i = choose|i: int| 0 <= i < b.len() && b[i] == x;
        assert((a + b)[a.len() + i] == x);
    }
    if (a + b).contains(x) {
        let i = choose|i: int| 0 <= i < (a + b).len() && (a + b)[i] == x;
        if i < a.len() {
            assert(a[i] == x);
        } else {
            assert(b[i - a.len()] == x);
        }
    }
}

/// The source directories are the candidates, all of them.
pub proof fn source_directories_are_the_candidates(context: context::ContextView, dir: Seq<char>)
    ensures
        sources::source_candidates(context).contains(dir) <==> is_source_directory(context, dir),
{
    let (units, inc) = match context.group {
        Some(group) => (group.unit_search_path, group.include_path),
        None => (None, None),
    };
    let a = seq![context.project.directory@];
    let b = sources::dirs_in(context, units);
    let c = sources::dirs_in(context, inc);
    let d = sources::dirs_in(context, context.library.search_path);
    let e = sources::dirs_in(context, context.library.browsing_path);
    let tree = resolve::directory_of(context, Some("$(BDS)\\source"@));
    let f = artefacts::dir_list(tree);
    contained_in_a_row(a, b, dir);
    contained_in_a_row(a + b, c, dir);
    contained_in_a_row(a + b + c, d, dir);
    contained_in_a_row(a + b + c + d, e, dir);
    contained_in_a_row(a + b + c + d + e, f, dir);
    assert(a[0] == context.project.directory@);
    if tree is Some {
        assert(f[0] == tree->0);
    }
}

/// Every source directory that exists is among the search paths in its normal
/// form, up to casing, where every spelling that it is listed under exists.
pub proof fn existing_source_directories_are_searched(
    context: context::ContextView,
    files: Map<Seq<char>, files::FileView>,
    dir: Seq<char>,
)
    requires
        is_source_directory(context, dir),
        forall|other: Seq<char>| #[trigger]
            is_source_directory(context, other) && text::same_name(
                paths::normalized(other),
                paths::normalized(dir),
            ) ==> files::at(files, paths::normalized(other)).is_dir,
    ensures
        exists|i: int, listed: Seq<char>|
            0 <= i < sources::search_paths(context, files).len() && text::same_name(
                listed,
                paths::normalized(dir),
            ) && #[trigger] path_laws::stands_for(
                #[trigger] sources::search_paths(context, files)[i],
                listed,
            ),
{
    source_directories_are_the_candidates(context, dir);
    let candidates = sources::source_candidates(context);
    let k = choose|k: int| 0 <= k < candidates.len() && candidates[k] == dir;
    let listed = sources::distinct(candidates);
    distinct_paths_are_the_candidates(candidates);
    assert(artefacts::listed(listed, paths::normalized(candidates[k])));
    let j = choose|j: int|
        0 <= j < listed.len() && text::same_name(#[trigger] listed[j], paths::normalized(dir));
    assert(is_normal_form_in(candidates, listed[j]));
    let m = choose|m: int|
        0 <= m < candidates.len() && paths::normalized(#[trigger] candidates[m]) == listed[j];
    source_directories_are_the_candidates(context, candidates[m]);
    assert(candidates.contains(candidates[m]));
    assert(files::at(files, listed[j]).is_dir);
    existing_directories_are_kept(files, listed);
    let found = sources::search_paths(context, files);
    assert(found.contains(paths::slashed(listed[j])));
    let i = choose|i: int| 0 <= i < found.len() && found[i] == paths::slashed(listed[j]);
    path_laws::json_paths_stand_for_their_paths(listed[j], None);
    assert(path_laws::stands_for(found[i], listed[j]));
}

/// Every search path stands for the normal form of a source directory, and that
/// is a directory.
pub proof fn search_paths_are_source_directories(
    context: context::ContextView,
    files: Map<Seq<char>, files::FileView>,
    i: int,
)
    requires
        0 <= i < sources::search_paths(context, files).len(),
    ensures
        exists|dir: Seq<char>| #[trigger]
            is_source_directory(context, dir) && files::at(files, paths::normalized(dir)).is_dir
                && path_laws::stands_for(
                sources::search_paths(context, files)[i],
                paths::normalized(dir),
            ),
{
    let candidates = sources::source_candidates(context);
    let listed = sources::distinct(candidates);
    let path = sources::existing(files, listed)[i];
    existing_directories_are_kept(files, listed);
    distinct_paths_are_the_candidates(candidates);
    assert(is_existing_in(files, listed, path));
    let k = choose|k: int|
        0 <= k < listed.len() && files::at(files, #[trigger] listed[k]).is_dir && paths::slashed(
            listed[k],
        ) == path;
    assert(is_normal_form_in(candidates, listed[k]));
    let m = choose|m: int|
        0 <= m < candidates.len() && paths::normalized(#[trigger] candidates[m]) == listed[k];
    assert(candidates.contains(candidates[m]));
    source_directories_are_the_candidates(context, candidates[m]);
    path_laws::json_paths_stand_for_their_paths(listed[k], None);
    assert(is_source_directory(context, candidates[m]));
}

/// What exists of two lists in a row is what exists of the one and then of the
/// other: the order stays.
pub proof fn existing_directories_keep_their_order(
    files: Map<Seq<char>, files::FileView>,
    a: Seq<Seq<char>>,
    b: Seq<Seq<char>>,
)
    ensures
        sources::existing(files, a + b) == sources::existing(files, a) + sources::existing(
            files,
            b,
        ),
        a.len() == 1 && files::at(files, a[0]).is_dir ==> sources::existing(files, a).len() == 1,
        a.len() == 1 && !files::at(files, a[0]).is_dir ==> sources::existing(files, a).len() == 0,
    decreases b.len(),
{
    reveal_with_fuel(sources::existing, 2);
    if b.len() == 0 {
        assert(a + b =~= a);
        assert(sources::existing(files, a) + sources::existing(files, b) =~= sources::existing(
            files,
            a,
        ));
    } else {
        existing_directories_keep_their_order(files, a, b.drop_last());
        assert((a + b).drop_last() =~= a + b.drop_last());
        assert((a + b).last() == b.last());
        assert(sources::existing(files, a + b) =~= sources::existing(files, a)
            + sources::existing(files, b));
    }
}

/// One more candidate is added in its normal form exactly when that is not
/// listed yet in any casing; nothing that is listed moves.
pub proof fn one_more_candidate(candidates: Seq<Seq<char>>, candidate: Seq<char>)
    ensures
        ({
            let before = sources::distinct(candidates);
            let after = sources::distinct(candidates.push(candidate));
            let normal = paths::normalized(candidate);
            if exists|i: int|
                0 <= i < before.len() && text::upper(#[trigger] before[i]) == text::upper(normal) {
                after == before
            } else {
                after == before.push(normal)
            }
        }),
{
    assert(candidates.push(candidate).drop_last() =~= candidates);
    let before = sources::distinct(candidates);
    let normal = paths::normalized(candidate);
    if artefacts::listed(before, normal) {
        let i = choose|i: int|
            0 <= i < before.len() && text::same_name(#[trigger] before[i], normal);
        assert(text::upper(before[i]) == text::upper(normal));
    } else {
        assert forall|i: int| 0 <= i < before.len() implies text::upper(#[trigger] before[i])
            != text::upper(normal) by {
            assert(!text::same_name(before[i], normal));
        }
    }
}

} // verus!
