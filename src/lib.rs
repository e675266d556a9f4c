pub mod format;
pub mod options;
pub mod resolve;
pub mod text;
