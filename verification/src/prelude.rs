pub use crate::choices::{
    Action, ArsenalItem, BatchChoice, BatchChoices, Booster, Character, DequeueChoice, Move,
    PointsAgainst, PointsOf,
};
pub use crate::game::{BatchChoiceGame, Config, GameView, Phase, PhaseView};
pub use crate::outcomes::{ActionPointsDestroyed, CharacterHeadstart, Outcome, OutcomeView};
