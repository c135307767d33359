pub mod command;
pub mod context;
pub mod loc;
pub mod render;
pub mod tree;
