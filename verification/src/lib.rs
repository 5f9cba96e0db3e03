//! Backend logic of a desktop code editor: language-server bookkeeping,
//! filesystem change detection by polling, open documents, settings and the
//! small helpers around them.

pub mod registry;
pub mod text;
pub mod fs;
pub mod lsp;
pub mod editor;
pub mod config;
pub mod git;
pub mod utils;
pub mod ai;
