//! A two-player tic-tac-toe engine: the board, win and draw detection,
//! turn alternation, the computer strategies and the command parser.
pub mod board;
pub mod game;
pub mod menu;
