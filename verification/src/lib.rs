//! Verified core of a two-player tic-tac-toe game: the board, the win and
//! draw rules, and the state transitions driven by pointer clicks and the
//! reset key. Rendering and input polling live outside this crate; the
//! library works on plain coordinates and returns plain values.

pub mod board;
pub mod game;
