//! A tic-tac-toe engine: the board, its numpad addressing, win and draw
//! detection, the turn-taking game session, and the decisions of a
//! line-driven console controller.

pub mod board;
pub mod game;
pub mod input;
pub mod controller;
