//! Theme templating helper: derives a template path for each target file,
//! sequences the render-and-overwrite run, and plans process restarts.

pub mod cli;
pub mod config;
pub mod data;
pub mod machine;
pub mod paths;
pub mod picker;
pub mod pipeline;
pub mod restart;
pub mod text;
pub mod world;
