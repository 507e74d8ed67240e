//! A small deterministic board-game engine: a 4x4 grid accepting two token
//! kinds (`Cookie` and `Milk`), placed by gravity-drop column insertion, with
//! line-based winner detection over rows, columns and both diagonals, a
//! seeded-random full-board generator, and a fixed-format text renderer.

pub mod board;
pub mod grid;
pub mod render;
pub mod rng;
