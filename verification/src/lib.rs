//! The rules of an Asteroids game: how the score and the high score move,
//! what a hit does to a meteor, how the saved high score is kept, and how the
//! time since the high score was set is described.

pub mod text;
pub mod units;
pub mod clock;
pub mod sice_string;
pub mod since_string;
pub mod globals;
pub mod stage;
pub mod meteor;
