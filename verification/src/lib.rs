//! A turn-based grid game engine for a 4x4 board with gravity-drop moves.
//!
//! The engine owns a 4x4 grid of [`Tile`]s. Columns behave as stacks: a move
//! drops a tile into the lowest empty cell of its column. The engine validates
//! moves, classifies the board as ongoing, drawn, or won (a line of four equal
//! marks along a row, a column, or a main diagonal), and renders the board as
//! text. A companion generator fills a board at random from an externally
//! seeded random source. Concurrency control and request parsing belong to the
//! caller; every operation here is synchronous and runs to completion.

pub mod api;
pub mod board;
pub mod laws;
pub mod random;

pub use board::Connect4;
pub use board::GameStatus;
pub use board::MoveError;
pub use board::Tile;
