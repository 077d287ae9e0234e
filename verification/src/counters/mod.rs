mod character_streak;
pub use character_streak::{CharacterChoices, CharacterStreak};
mod queue;
pub use queue::{Pool, Queue, QueueView};
