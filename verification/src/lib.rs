pub mod text;
pub mod theme;
pub mod kdl_tree;
pub mod config;
pub mod update;
pub mod ui;
