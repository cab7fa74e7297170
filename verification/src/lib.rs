//! Conway's Game of Life on a fixed-size torus, with the frames it draws and
//! the cycle it runs in given as plain values.

pub mod cell;
pub mod cycle;
pub mod evolution;
pub mod game;
pub mod grid;
pub mod random;
pub mod render;
pub mod terminal;
