//! What was found on disk, as a value.

use vstd::prelude::*;

use crate::table::Table;
use crate::text;

verus! {

/// What was found at one path.
pub struct FileState {
    /// Whether there is anything at the path.
    pub present: bool,
    /// Whether it is a file.
    pub is_file: bool,
    /// Whether it is a directory.
    pub is_dir: bool,
    /// When it was last modified, in nanoseconds since the Unix epoch; nothing
    /// where that could not be found out.
    pub modified: Option<i128>,
    /// Its text, or why it could not be read.
    pub contents: Result<String, String>,
}

/// The plain value of a [`FileState`].
#[verifier::ext_equal]
pub struct FileView {
    pub present: bool,
    pub is_file: bool,
    pub is_dir: bool,
    pub modified: Option<int>,
    pub contents: Result<Seq<char>, Seq<char>>,
}

impl View for FileState {
    type V = FileView;

    open spec fn view(&self) -> FileView {
        FileView {
            present: self.present,
            is_file: self.is_file,
            is_dir: self.is_dir,
            modified: match self.modified {
                Some(time) => Some(time as int),
                None => None,
            },
            contents: text::outcome(self.contents),
        }
    }
}

/// What a path stands for at which nothing was found.
pub open spec fn nothing_there() -> FileView {
    FileView {
        present: false,
        is_file: false,
        is_dir: false,
        modified: None,
        contents: Err("no such file"@),
    }
}

/// What was found on disk, for each path that was looked at. At any other path
/// there is nothing.
pub struct Files {
    pub found: Table<FileState>,
}

impl View for Files {
    type V = Map<Seq<char>, FileView>;

    open spec fn view(&self) -> Map<Seq<char>, FileView> {
        self.found@
    }
}

/// What was found at `path`.
pub open spec fn at(files: Map<Seq<char>, FileView>, path: Seq<char>) -> FileView {
    if files.contains_key(path) {
        files[path]
    } else {
        nothing_there()
    }
}

impl Files {
    /// A disk on which nothing was looked at.
    pub fn new() -> (res: Self)
        ensures
            res@ == Map::<Seq<char>, FileView>::empty(),
    {
        Files { found: Table::new() }
    }

    /// Records what was found at `path`.
    pub fn record(&mut self, path: String, state: FileState)
        ensures
            final(self)@ == old(self)@.insert(path@, state@),
    {
        self.found.insert(path, state);
    }

    /// Whether `path` was looked at.
    pub fn knows(&self, path: &str) -> (res: bool)
        ensures
            res == self@.contains_key(path@),
    {
        self.found.get(path).is_some()
    }

    /// Whether there is anything at `path`.
    pub fn is_present(&self, path: &str) -> (res: bool)
        ensures
            res == at(self@, path@).present,
    {
        match self.found.get(path) {
            Some(state) => state.present,
            None => false,
        }
    }

    /// Whether there is a file at `path`.
    pub fn is_file(&self, path: &str) -> (res: bool)
        ensures
            res == at(self@, path@).is_file,
    {
        match self.found.get(path) {
            Some(state) => state.is_file,
            None => false,
        }
    }

    /// Whether there is a directory at `path`.
    pub fn is_dir(&self, path: &str) -> (res: bool)
        ensures
            res == at(self@, path@).is_dir,
    {
        match self.found.get(path) {
            Some(state) => state.is_dir,
            None => false,
        }
    }

    /// When what is at `path` was last modified.
    pub fn modified_time(&self, path: &str) -> (res: Option<i128>)
        ensures
            match res {
                Some(time) => at(self@, path@).modified == Some(time as int),
                None => at(self@, path@).modified is None,
            },
    {
        match self.found.get(path) {
            Some(state) => state.modified,
            None => None,
        }
    }

    /// The text of the file at `path`, or why it could not be read.
    pub fn read(&self, path: &str) -> (res: Result<String, String>)
        ensures
            text::outcome(res) == at(self@, path@).contents,
    {
        match self.found.get(path) {
            Some(state) => match &state.contents {
                Ok(contents) => Ok(contents.clone()),
                Err(reason) => Err(reason.clone()),
            },
            None => Err("no such file".to_owned()),
        }
    }
}

} // verus!
