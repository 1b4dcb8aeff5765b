//! File paths as texts. How a path is taken apart follows the conventions of
//! the platform that the library is compiled for, as `std::path` knows them.

use vstd::prelude::*;

use crate::text;

verus! {

// ─── What std::path answers ──────────────────────────────────────────────────

/// What `Path::join` makes of two paths.
pub uninterp spec fn path_join(base: Seq<char>, tail: Seq<char>) -> Seq<char>;

/// What `Path::parent` gives for a path.
pub uninterp spec fn path_parent(path: Seq<char>) -> Option<Seq<char>>;

/// What `Path::file_name` gives for a path.
pub uninterp spec fn path_file_name(path: Seq<char>) -> Option<Seq<char>>;

/// What `Path::with_extension` makes of a path.
pub uninterp spec fn path_with_extension(path: Seq<char>, extension: Seq<char>) -> Seq<char>;

/// What `Path::is_relative` says of a path.
pub uninterp spec fn path_is_relative(path: Seq<char>) -> bool;

/// Whether `s` is the name of one file or directory on every platform: not
/// empty, without a separator or the colon of a drive, and not `.` or `..`.
pub open spec fn is_component(s: Seq<char>) -> bool {
    &&& s.len() > 0
    &&& !s.contains('/')
    &&& !s.contains('\\')
    &&& !s.contains(':')
    &&& s != "."@
    &&& s != ".."@
}

/// Whether `c` separates the components of a path on some platform.
pub open spec fn is_separator(c: char) -> bool {
    c == '/' || c == '\\'
}

/// Whether `path` begins with two separators, as the path of a network share
/// or of a device does.
pub open spec fn is_network(path: Seq<char>) -> bool {
    path.len() >= 2 && is_separator(path[0]) && is_separator(path[1])
}

/// Whether `path` begins with two separators and the name of a server, with a
/// separator at `i` and the name of a share behind it. The `?` and `.` of
/// verbatim and device paths are no servers.
pub open spec fn share_follows(path: Seq<char>, i: int) -> bool {
    &&& is_network(path)
    &&& 2 < i
    &&& i + 1 < path.len()
    &&& forall|k: int| 2 <= k < i ==> !is_separator(#[trigger] path[k])
    &&& is_separator(path[i])
    &&& !is_separator(path[i + 1])
    &&& path.subrange(2, i) != "?"@
    &&& path.subrange(2, i) != "."@
}

/// Whether `path` is that of a network share, or leads below one.
pub open spec fn is_on_share(path: Seq<char>) -> bool {
    exists|i: int| share_follows(path, i)
}

/// Whether `path` leads below a network share: behind the share stands a
/// separator and something more.
pub open spec fn is_below_share(path: Seq<char>) -> bool {
    exists|i: int, j: int| #[trigger]
        share_follows(path, i) && i + 1 < j && j + 1 < path.len() && is_separator(
            #[trigger] path[j],
        )
}

/// Whether a directory is on a drive or on a network share, or is relative; no
/// path of a device, no verbatim path, and no server without a share.
pub open spec fn is_on_drive_or_share(dir: Seq<char>) -> bool {
    !is_network(dir) || is_on_share(dir)
}

/// Whether a file is on a drive or below a network share, or its path is
/// relative.
pub open spec fn is_file_on_drive_or_share(path: Seq<char>) -> bool {
    !is_network(path) || is_below_share(path)
}

/// `Path::join`: `tail` below `base`, or `tail` alone where it is absolute.
/// A `tail` that is one component is then the final component, which is what
/// `Path::file_name` gives. That is claimed where `base` is on a drive or on a
/// network share, and where the result leads below one. It is not claimed of
/// verbatim and device paths, nor of a server without a share: on Windows
/// `\\server` joined with `share` has no file name. The path syntax is that of
/// the platform compiled for.
#[verifier::external_body]
pub(crate) fn join(base: &str, tail: &str) -> (res: String)
    ensures
        res@ == path_join(base@, tail@),
        is_component(tail@) && (is_on_drive_or_share(base@) || is_file_on_drive_or_share(res@))
            ==> path_file_name(res@) == Some(tail@),
{
    std::path::Path::new(base).join(tail).to_string_lossy().to_string()
}

/// `Path::parent`: the path without its final component, where it has one to
/// drop; what is left is shorter than the path. The path syntax is that of
/// the platform compiled for.
#[verifier::external_body]
pub(crate) fn parent(path: &str) -> (res: Option<String>)
    ensures
        text::opt(res) == path_parent(path@),
        res matches Some(p) ==> p@.len() < path@.len(),
{
    std::path::Path::new(path).parent().map(|p| p.to_string_lossy().to_string())
}

/// `Path::file_name`: the final component, unless the path ends in `..` or
/// has none. The path syntax is that of the platform compiled for.
#[verifier::external_body]
fn final_component(path: &str) -> (res: Option<String>)
    ensures
        text::opt(res) == path_file_name(path@),
{
    std::path::Path::new(path).file_name().map(|name| name.to_string_lossy().to_string())
}

/// `Path::with_extension`: the path with `extension` in place of the one its
/// file name has. It panics on an extension with a path separator in it. The
/// path syntax is that of the platform compiled for.
#[verifier::external_body]
fn with_extension(path: &str, extension: &str) -> (res: String)
    requires
        !extension@.contains('/'),
        !extension@.contains('\\'),
    ensures
        res@ == path_with_extension(path@, extension@),
{
    std::path::Path::new(path).with_extension(extension).to_string_lossy().to_string()
}

/// `Path::is_relative`: whether the path depends on a current directory. The
/// path syntax is that of the platform compiled for.
#[verifier::external_body]
fn is_relative(path: &str) -> (res: bool)
    ensures
        res == path_is_relative(path@),
{
    std::path::Path::new(path).is_relative()
}

// ─── Normal form ─────────────────────────────────────────────────────────────

/// `path` without the last step of what is above it, where there is one.
pub open spec fn stepped_up(path: Seq<char>) -> Seq<char> {
    match path_parent(path) {
        Some(above) => above,
        None => path,
    }
}

/// `path` with its `.` and `..` components worked off, without a look at the
/// disk: a `.` is dropped, a `..` drops the component before it, if any.
pub open spec fn normalized(path: Seq<char>) -> Seq<char>
    decreases path.len(),
{
    match path_parent(path) {
        Some(above) => if above.len() < path.len() {
            match path_file_name(path) {
                Some(name) => path_join(normalized(above), name),
                None => stepped_up(normalized(above)),
            }
        } else {
            path
        },
        None => path,
    }
}

/// `path` with its `.` and `..` components worked off. The final component
/// stays, on a drive and on a network share.
pub fn normalize_path(path: &str) -> (res: String)
    ensures
        res@ == normalized(path@),
        path_file_name(path@) matches Some(name) ==> is_component(name)
            && is_file_on_drive_or_share(res@) ==> path_file_name(res@) == Some(name),
    decreases path@.len(),
{
    match parent(path) {
        Some(above) => {
            let base = normalize_path(above.as_str());
            match final_component(path) {
                Some(name) => join(base.as_str(), name.as_str()),
                None => match parent(base.as_str()) {
                    Some(up) => up,
                    None => base,
                },
            }
        },
        None => path.to_owned(),
    }
}

// ─── Paths of a target ───────────────────────────────────────────────────────

/// `dir` seen from `base` where it is relative, in normal form.
pub open spec fn absolute(dir: Seq<char>, base: Seq<char>) -> Seq<char> {
    normalized(
        if path_is_relative(dir) {
            path_join(base, dir)
        } else {
            dir
        },
    )
}

/// `dir` seen from `base` where it is relative, in normal form.
pub fn absolutize(dir: &str, base: &str) -> (res: String)
    ensures
        res@ == absolute(dir@, base@),
{
    if is_relative(dir) {
        normalize_path(join(base, dir).as_str())
    } else {
        normalize_path(dir)
    }
}

/// The file next to `path` that differs from it in the extension.
pub fn sibling(path: &str, extension: &str) -> (res: String)
    requires
        !extension@.contains('/'),
        !extension@.contains('\\'),
    ensures
        res@ == path_with_extension(path@, extension@),
{
    with_extension(path, extension)
}

/// The final component of a path; nothing where it has none.
pub open spec fn name_of_file(path: Seq<char>) -> Seq<char> {
    match path_file_name(path) {
        Some(name) => name,
        None => Seq::empty(),
    }
}

/// The final component of `path`; empty where it has none.
pub fn file_name(path: &str) -> (res: String)
    ensures
        res@ == name_of_file(path@),
{
    match final_component(path) {
        Some(name) => name,
        None => String::new(),
    }
}

/// A path with forward slashes alone.
pub open spec fn slashed(path: Seq<char>) -> Seq<char> {
    path.map_values(
        |c: char|
            if c == '\\' {
                '/'
            } else {
                c
            },
    )
}

/// `path` with a forward slash for each backslash: valid on Windows, and
/// readable inside JSON.
pub fn json_path(path: &str) -> (res: String)
    ensures
        res@ == slashed(path@),
{
    let mut out = String::new();
    for c in it: path.chars()
        invariant
            out@ == slashed(it.seq().take(it.index() as int)),
            it.seq() == path@,
    {
        out.push(
            if c == '\\' {
                '/'
            } else {
                c
            },
        );
    }
    proof {
        assert(path@.take(path@.len() as int) == path@);
    }
    out
}

/// A path for JSON, where there is one.
pub open spec fn slashed_opt(path: Option<Seq<char>>) -> Option<Seq<char>> {
    match path {
        Some(p) => Some(slashed(p)),
        None => None,
    }
}

/// [`json_path`] of a path that there may be.
pub fn json_path_opt(path: &Option<String>) -> (res: Option<String>)
    ensures
        text::opt(res) == slashed_opt(text::opt(*path)),
{
    match path {
        Some(p) => Some(json_path(p.as_str())),
        None => None,
    }
}

/// A JSON path holds no backslash, and is its own JSON path.
pub proof fn json_paths_have_forward_slashes(path: Seq<char>)
    ensures
        slashed(path).len() == path.len(),
        forall|i: int| 0 <= i < path.len() ==> #[trigger] slashed(path)[i] != '\\',
        slashed(slashed(path)) == slashed(path),
{
    assert(slashed(slashed(path)) =~= slashed(path));
}

} // verus!
