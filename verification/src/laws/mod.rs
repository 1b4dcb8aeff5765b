//! What holds of the library as a whole, beyond the contract of any one
//! function.

pub mod arguments;
pub mod building;
pub mod environments;
pub mod inputs;
pub mod macros;
pub mod paths;
pub mod rendering;
pub mod resolving;
pub mod search;
pub mod targets;
pub mod texts;
