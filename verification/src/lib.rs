//! Core logic of a two-player tic-tac-toe (morpion) game: the 3x3 board
//! model, win and tie detection, the turn-taking state machine, and the
//! mapping between pixel coordinates and board cells. Rendering and
//! windowing live outside this crate; everything here is verified.

pub mod board;
pub mod coords;
pub mod game;
