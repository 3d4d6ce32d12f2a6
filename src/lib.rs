//! Conway's Game of Life on a toroidal grid, with the key handling of a
//! terminal front end kept apart from its drawing and input plumbing.

pub mod game;
pub mod laws;
pub mod screen;
