//! A terminal snake game: the body of the snake, the tick gate, and the rules
//! by which a game advances, each with a proved contract.

pub mod clock;
pub mod game;
pub mod laws;
mod random;
pub mod rules;
pub mod snake;
pub mod text;
