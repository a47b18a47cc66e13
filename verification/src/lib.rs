//! Verified core of a grid Snake game.
//!
//! The playfield is a small wrap-around grid. A snake, kept as a list of
//! body segments from oldest to newest, advances one cell per tick, grows
//! when it reaches the ball, and the game ends when the head runs into the
//! body. Everything that decides the game — steering, coordinate wrapping,
//! body bookkeeping, ball placement and collision detection — is verified
//! here; drawing and input polling belong to the host application.

pub mod board;
pub mod game;
pub mod geometry;
mod random;
