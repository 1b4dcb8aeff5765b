//! Laws of paths.

use vstd::prelude::*;

use crate::paths;

verus! {

/// Whether `json` is `path` with a forward slash for each backslash, and with
/// every other character as it is.
pub open spec fn stands_for(json: Seq<char>, path: Seq<char>) -> bool {
    &&& json.len() == path.len()
    &&& forall|i: int| 0 <= i < path.len() && path[i] == '\\' ==> #[trigger] json[i] == '/'
    &&& forall|i: int| 0 <= i < path.len() && path[i] != '\\' ==> #[trigger] json[i] == path[i]
}

/// Whether a JSON path that there may be stands for a path that there may be.
pub open spec fn stands_for_if_any(json: Option<Seq<char>>, path: Option<Seq<char>>) -> bool {
    match (json, path) {
        (Some(json), Some(path)) => stands_for(json, path),
        (None, None) => true,
        _ => false,
    }
}

/// A JSON path differs from its path in the direction of slashes alone.
pub proof fn json_paths_stand_for_their_paths(path: Seq<char>, maybe: Option<Seq<char>>)
    ensures
        stands_for(paths::slashed(path), path),
        stands_for_if_any(paths::slashed_opt(maybe), maybe),
{
}

/// A path without backslashes is its own JSON path.
pub proof fn forward_slashes_stay(path: Seq<char>)
    requires
        !path.contains('\\'),
    ensures
        paths::slashed(path) == path,
{
    assert forall|i: int| 0 <= i < path.len() implies paths::slashed(path)[i] == path[i] by {
        assert(path.contains(path[i]));
    }
    assert(paths::slashed(path) =~= path);
}

/// The names of the components of a path, from the first to the last, where a
/// `..` that is left is none; it ends where nothing is above.
pub open spec fn has_steps(path: Seq<char>, root: Seq<char>, steps: Seq<Option<Seq<char>>>) -> bool
    decreases steps.len(),
{
    if steps.len() == 0 {
        path == root && paths::path_parent(path) is None
    } else {
        match paths::path_parent(path) {
            Some(above) => {
                &&& above.len() < path.len()
                &&& paths::path_file_name(path) == steps.last()
                &&& has_steps(above, root, steps.drop_last())
            },
            None => false,
        }
    }
}

/// Where steps lead from `from`: a named step goes down by `Path::join`, any
/// other goes up by `Path::parent` where there is anything above.
pub open spec fn walked(from: Seq<char>, steps: Seq<Option<Seq<char>>>) -> Seq<char>
    decreases steps.len(),
{
    if steps.len() == 0 {
        from
    } else {
        let here = walked(from, steps.drop_last());
        match steps.last() {
            Some(name) => paths::path_join(here, name),
            None => match paths::path_parent(here) {
                Some(above) => above,
                None => here,
            },
        }
    }
}

/// The normal form of a path is where its steps lead from its root, however
/// many they are.
pub proof fn normal_form_walks_the_steps(
    path: Seq<char>,
    root: Seq<char>,
    steps: Seq<Option<Seq<char>>>,
)
    requires
        has_steps(path, root, steps),
    ensures
        paths::normalized(path) == walked(root, steps),
    decreases steps.len(),
{
    if steps.len() > 0 {
        let above = paths::path_parent(path)->0;
        normal_form_walks_the_steps(above, root, steps.drop_last());
    }
}

/// A relative directory is seen from the base, an absolute one is itself; both
/// in normal form.
pub proof fn relative_paths_are_seen_from_the_base(dir: Seq<char>, base: Seq<char>)
    ensures
        paths::path_is_relative(dir) ==> paths::absolute(dir, base) == paths::normalized(
            paths::path_join(base, dir),
        ),
        !paths::path_is_relative(dir) ==> paths::absolute(dir, base) == paths::normalized(dir),
{
}

/// The name of a file is the final component of its path.
pub proof fn file_names_are_final_components(path: Seq<char>)
    ensures
        paths::path_file_name(path) matches Some(name) ==> paths::name_of_file(path) == name,
        paths::path_file_name(path) is None ==> paths::name_of_file(path).len() == 0,
{
}

} // verus!
