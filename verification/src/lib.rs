//! The logic of a terminal text editor with Vim and Emacs key bindings.
pub mod text;
pub mod buff;
pub mod history;
pub mod view;
pub mod config;
pub mod search;
pub mod paths;
pub mod file_tree;
pub mod highlight;
pub mod app;
pub mod motion;
pub mod edit;
pub mod undo;
pub mod files;
pub mod keys;
pub mod vim;
pub mod help;
pub mod emacs;
pub mod handler;
pub mod ready;
pub mod screen;
pub mod segments;
pub mod invariants;
