mod config;
pub use config::Config;
mod phase;
pub use phase::{Phase, PhaseView};
mod rules;
pub use rules::GameView;
mod laws;
mod batch_choice_game;
pub use batch_choice_game::BatchChoiceGame;
