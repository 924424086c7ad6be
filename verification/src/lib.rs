pub mod branch;
pub mod collect;
pub mod engine;
pub mod git;
pub mod render;
pub mod sort;
pub mod text;
