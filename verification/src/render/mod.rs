pub mod commands;
pub mod pipeline;
pub mod renderer;
