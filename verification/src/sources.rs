//! Where a debugger finds the sources of a target.

use vstd::prelude::*;

use crate::artefacts;
use crate::context;
use crate::context::TargetContext;
use crate::files;
use crate::files::Files;
use crate::paths;
use crate::resolve;
use crate::text;

verus! {

/// The directories that the entries of a list name, in order.
pub open spec fn dirs_of(context: context::ContextView, entries: Seq<Seq<char>>) -> Seq<Seq<char>>
    decreases entries.len(),
{
    if entries.len() == 0 {
        Seq::empty()
    } else {
        dirs_of(context, entries.drop_last()) + artefacts::dir_list(
            resolve::directory_of(context, Some(entries.last())),
        )
    }
}

/// The directories that a `;`-separated path list names.
pub open spec fn dirs_in(context: context::ContextView, list: Option<Seq<char>>) -> Seq<
    Seq<char>,
> {
    match list {
        Some(list) => dirs_of(context, text::split_at(list, ';')),
        None => Seq::empty(),
    }
}

/// The directories to scan for unit sources, most specific first, with
/// duplicates and whether they exist or not: the project directory, the
/// dproj's unit search path and include path, the IDE's Library Path and
/// Browsing Path, and the compiler's own `source` tree.
pub open spec fn source_candidates(context: context::ContextView) -> Seq<Seq<char>> {
    seq![context.project.directory@] + dirs_in(
        context,
        match context.group {
            Some(group) => group.unit_search_path,
            None => None,
        },
    ) + dirs_in(
        context,
        match context.group {
            Some(group) => group.include_path,
            None => None,
        },
    ) + dirs_in(context, context.library.search_path) + dirs_in(
        context,
        context.library.browsing_path,
    ) + artefacts::dir_list(resolve::directory_of(context, Some("$(BDS)\\source"@)))
}

/// The normal forms of the candidates, each where it first comes up.
pub open spec fn distinct(candidates: Seq<Seq<char>>) -> Seq<Seq<char>>
    decreases candidates.len(),
{
    if candidates.len() == 0 {
        Seq::empty()
    } else {
        artefacts::with_unique(distinct(candidates.drop_last()), candidates.last())
    }
}

/// Those of the paths that are directories, for JSON.
pub open spec fn existing(
    files: Map<Seq<char>, files::FileView>,
    dirs: Seq<Seq<char>>,
) -> Seq<Seq<char>>
    decreases dirs.len(),
{
    if dirs.len() == 0 {
        Seq::empty()
    } else if files::at(files, dirs.last()).is_dir {
        existing(files, dirs.drop_last()).push(paths::slashed(dirs.last()))
    } else {
        existing(files, dirs.drop_last())
    }
}

/// The directories to resolve unit sources from.
pub open spec fn search_paths(
    context: context::ContextView,
    files: Map<Seq<char>, files::FileView>,
) -> Seq<Seq<char>> {
    existing(files, distinct(source_candidates(context)))
}

/// The normal forms of the candidates, each where it first comes up.
pub fn distinct_paths(candidates: &Vec<String>) -> (res: Vec<String>)
    ensures
        text::texts(res@) == distinct(text::texts(candidates@)),
{
    let ghost all = text::texts(candidates@);
    let mut out: Vec<String> = Vec::new();
    let mut i: usize = 0;
    proof {
        assert(text::texts(out@) =~= distinct(all.take(0)));
    }
    while i < candidates.len()
        invariant
            i <= candidates@.len(),
            all == text::texts(candidates@),
            text::texts(out@) == distinct(all.take(i as int)),
        decreases candidates@.len() - i,
    {
        proof {
            assert(all.take(i + 1).drop_last() == all.take(i as int));
            assert(all.take(i + 1).last() == candidates@[i as int]@);
        }
        artefacts::push_unique(&mut out, candidates[i].as_str());
        i = i + 1;
    }
    proof {
        assert(all.take(i as int) == all);
    }
    out
}

/// Those of the paths that are directories, for JSON.
pub fn existing_dirs(dirs: &Vec<String>, files: &Files) -> (res: Vec<String>)
    ensures
        text::texts(res@) == existing(files@, text::texts(dirs@)),
{
    let ghost all = text::texts(dirs@);
    let mut out: Vec<String> = Vec::new();
    let mut i: usize = 0;
    proof {
        assert(text::texts(out@) =~= existing(files@, all.take(0)));
    }
    while i < dirs.len()
        invariant
            i <= dirs@.len(),
            all == text::texts(dirs@),
            text::texts(out@) == existing(files@, all.take(i as int)),
        decreases dirs@.len() - i,
    {
        proof {
            assert(all.take(i + 1).drop_last() == all.take(i as int));
            assert(all.take(i + 1).last() == dirs@[i as int]@);
        }
        if files.is_dir(dirs[i].as_str()) {
            text::push_text(&mut out, paths::json_path(dirs[i].as_str()));
        }
        i = i + 1;
    }
    proof {
        assert(all.take(i as int) == all);
    }
    out
}

impl<'a> TargetContext<'a> {
    /// Adds the directories that a `;`-separated path list names.
    fn push_dirs_in(&self, dirs: &mut Vec<String>, list: &Option<String>)
        ensures
            text::texts(final(dirs)@) == text::texts(old(dirs)@) + dirs_in(self@, text::opt(*list)),
    {
        let ghost before = text::texts(dirs@);
        let list = match list {
            Some(list) => list,
            None => {
                proof {
                    assert(before =~= before + dirs_in(self@, None));
                }
                return;
            },
        };
        let entries = text::split(list.as_str(), ';');
        let ghost all = text::texts(entries@);
        let mut i: usize = 0;
        proof {
            assert(text::texts(dirs@) =~= before + dirs_of(self@, all.take(0)));
        }
        while i < entries.len()
            invariant
                i <= entries@.len(),
                all == text::texts(entries@),
                text::texts(dirs@) == before + dirs_of(self@, all.take(i as int)),
            decreases entries@.len() - i,
        {
            proof {
                assert(all.take(i + 1).drop_last() == all.take(i as int));
                assert(all.take(i + 1).last() == entries@[i as int]@);
            }
            let dir = self.expanded_dir(Some(entries[i].as_str()));
            artefacts::push_dir(dirs, dir);
            i = i + 1;
            proof {
                assert(text::texts(dirs@) =~= before + dirs_of(self@, all.take(i as int)));
            }
        }
        proof {
            assert(all.take(i as int) == all);
        }
    }

    /// The directories to scan for unit sources, with duplicates and whether
    /// they exist or not.
    pub fn source_directories(&self) -> (res: Vec<String>)
        ensures
            text::texts(res@) == source_candidates(self@),
    {
        let mut dirs: Vec<String> = Vec::new();
        dirs.push(self.project.directory.clone());
        proof {
            assert(text::texts(dirs@) =~= seq![self.project.directory@]);
        }
        match &self.group {
            Some(group) => {
                self.push_dirs_in(&mut dirs, &group.unit_search_path);
                self.push_dirs_in(&mut dirs, &group.include_path);
            },
            None => {
                self.push_dirs_in(&mut dirs, &None);
                self.push_dirs_in(&mut dirs, &None);
            },
        }
        self.push_dirs_in(&mut dirs, &self.library.search_path);
        self.push_dirs_in(&mut dirs, &self.library.browsing_path);
        artefacts::push_dir(&mut dirs, self.expanded_dir(Some("$(BDS)\\source")));
        dirs
    }

    /// The directories a debugger should scan for unit sources, most
    /// specific first and without duplicates: the project directory, the
    /// dproj's unit search path and include path (a `{$I}` line is
    /// attributed to the `.inc` file, so the debugger must find it too), the
    /// IDE's Library Path and Browsing Path for the platform (the browsing
    /// path is where the sources behind third-party components live), and
    /// the compiler's own `source` tree. Only existing directories are kept.
    pub fn source_search_paths(&self, files: &Files) -> (res: Vec<String>)
        ensures
            text::texts(res@) == search_paths(self@, files@),
    {
        existing_dirs(&distinct_paths(&self.source_directories()), files)
    }
}

} // verus!
