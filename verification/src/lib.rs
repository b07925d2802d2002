pub mod cli;
pub mod config_file;
pub mod flags;
pub mod gitignore;
pub mod text;
