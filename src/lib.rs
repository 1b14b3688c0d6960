//! Elo rating policy: the score of a game outcome and the experience tier
//! that sets how far a player's rating moves after a game.

pub mod experience;
pub mod game_result;

pub use experience::Experience;
pub use game_result::GameResult;
