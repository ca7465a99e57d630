use vstd::prelude::*;

verus! {

/// The six core stats of a character.
#[derive(Debug, Clone, Copy, PartialEq, Eq, Hash, Structural)]
pub enum StatName {
    Perception,
    Dexterity,
    Intelligence,
    Wisdom,
    Charisma,
    Constitution,
}

/// The lower-case name of a stat.
pub open spec fn stat_label(s: StatName) -> Seq<char> {
    match s {
        StatName::Perception => "perception"@,
        StatName::Dexterity => "dexterity"@,
        StatName::Intelligence => "intelligence"@,
        StatName::Wisdom => "wisdom"@,
        StatName::Charisma => "charisma"@,
        StatName::Constitution => "constitution"@,
    }
}

impl StatName {
    /// The stat's lower-case name.
    pub fn as_str(&self) -> (r: &'static str)
        ensures
            r@ == stat_label(*self),
    {
        match self {
            StatName::Perception => "perception",
            StatName::Dexterity => "dexterity",
            StatName::Intelligence => "intelligence",
            StatName::Wisdom => "wisdom",
            StatName::Charisma => "charisma",
            StatName::Constitution => "constitution",
        }
    }
}

} // verus!
