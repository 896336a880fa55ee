//! A small 2D scene renderer core: square bodies are compiled into triangle
//! geometry in fixed-point normalized device coordinates, and a renderer state
//! machine decides, event by event, what the windowing and GPU layer performs.
pub mod clock;
pub mod engine;
pub mod geometry;
pub mod renderer;

