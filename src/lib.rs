pub mod editor;
pub mod error;
pub mod package;
pub mod path;
