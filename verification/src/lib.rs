//! A number-guessing session as a verified state machine, together with a few
//! small geometry and arithmetic helpers.

pub mod game;
pub mod http;
pub mod parse;
pub mod rectangle;
pub mod variables;
