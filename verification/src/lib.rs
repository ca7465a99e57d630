//! Emergent class system for agent characters: a character's class is not
//! chosen but follows from which of its six stats stand out.

pub mod class;
pub mod progression;
pub mod stat;
pub mod synergy;

pub use class::{Archetype, CharacterClass};
pub use progression::{ClassEntry, ClassProgression};
pub use stat::StatName;
pub use synergy::{best_teammates, class_synergy};
