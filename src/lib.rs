//! Escape-time fractal explorer: the verified core behind an interactive
//! Julia / Mandelbrot viewer.
pub mod color;
pub mod grid;
pub mod iterations;
pub mod my_game;
pub mod simulation;
pub mod window_size;
