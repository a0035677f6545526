//! Rules engine for a Mastermind-style code-breaking game.
//!
//! A hidden sequence of colored pegs is generated or supplied, a player
//! submits guesses, and the engine scores each guess by exact-position
//! matches ("hits") and correct-color-wrong-position matches ("near hits").

mod game;
mod scoring;

pub use game::BuildError;
pub use game::Game;
pub use game::GameBuilder;
pub use game::GuessError;
pub use game::Variant;
pub use scoring::lemma_score_bounds;
pub use scoring::score;
pub use scoring::spec_hits;
pub use scoring::spec_near_hits;
