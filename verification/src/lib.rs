pub mod text;
pub mod writer;
pub mod css;
pub mod common;
pub mod utils;
pub mod extract;
pub mod ordering;
pub mod theme;
pub mod types;
pub mod template;
pub mod parsing;
pub mod process;
pub mod context;
pub mod static_rules;
pub mod builder;
pub mod variant;
pub mod sorting;
pub mod stylesheet;
pub mod config;
pub mod preset;
