//! The **debug target** of a Delphi project: a debugger-agnostic description
//! of what debugging that project means: which executable to launch or
//! attach to, the symbol files next to it, the project's own module when it
//! is not that executable, where the sources are, the arguments, and what is
//! missing or stale. It is the same information the IDE gathers for *Run
//! with debugger*, computed from the project's record, the dproj, the
//! compiler's `rsvars.bat` and the IDE's per-user registry settings.
//!
//! Nothing here belongs to a particular debugger. A debug adapter asks for the
//! target and maps it onto its own launch attributes.
//!
//! Everything read from outside comes in as a value: what was found on disk
//! ([`Files`]), what was read of the installation ([`Installation`], or any
//! other [`IdeSettings`]). So the description is a function of its inputs:
//! [`build_debug_target_with`] states which.

pub mod artefacts;
pub mod builder;
pub mod context;
pub mod directive;
pub mod dproj;
pub mod environment;
pub mod files;
pub mod ide;
pub mod laws;
pub mod macro_map;
pub mod modules;
pub mod paths;
pub mod probe;
pub mod project;
pub mod registry;
pub mod resolve;
pub mod run_args;
pub mod sources;
pub mod table;
pub mod target;
pub mod text;

pub use builder::{
    build_debug_target, build_debug_target_with, describe_debug_target, TargetError,
};
pub use context::Selection;
pub use environment::{EnvironmentError, IdeEnvironment, Installation, Rsvars};
pub use files::{FileState, Files};
pub use ide::{IdeSettings, InstalledIde};
pub use macro_map::MacroMap;
pub use probe::{installed_paths_consulted, paths_consulted};
pub use project::{CompilerConfiguration, Project};
pub use registry::{bds_major, IdeLibrarySettings, IdeRegistryRoot, Registry};
pub use table::Table;
pub use target::{DebugModule, DebugTarget, DebugTargetKind, SymbolFiles};
