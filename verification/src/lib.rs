//! Randomized tabletop character generation: a validated configuration of
//! race, class and wizard-archetype names is sampled — by a seeded source or
//! by fresh entropy — into characters with a level, a race, a class and six
//! dice-rolled ability scores.

pub mod character;
pub mod config;
pub mod generator;
pub mod rng;

pub use character::AbilityScores;
pub use character::Character;
pub use character::GenerationError;
pub use config::Config;
pub use config::ConfigError;
pub use generator::CharacterGenerator;
pub use rng::SeededRng;
