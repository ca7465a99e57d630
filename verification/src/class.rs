use vstd::prelude::*;

use crate::stat::StatName;

verus! {

/// The three class archetypes, the branch point of the class tree.
#[derive(Debug, Clone, Copy, PartialEq, Eq, Hash, Structural)]
pub enum Archetype {
    Undefined,
    Physical,
    Mental,
    Social,
}

/// A character's class: one standout stat, a composite of two, or a
/// legendary spread of three or more.
#[derive(Debug, Clone, Copy, PartialEq, Eq, Hash, Structural)]
pub enum CharacterClass {
    Undefined,
    Scout,
    Speedster,
    Scholar,
    Sage,
    Diplomat,
    Guardian,
    Bard,
    JazzMusician,
    Artificer,
    FleetCommander,
    Infiltrator,
    Oracle,
    Warden,
    Wildcard,
    Polymath,
    Avatar,
}

/// The archetype a class belongs to.
pub open spec fn archetype_of(c: CharacterClass) -> Archetype {
    match c {
        CharacterClass::Scout | CharacterClass::Speedster | CharacterClass::Infiltrator
        | CharacterClass::JazzMusician | CharacterClass::Artificer => Archetype::Physical,
        CharacterClass::Scholar | CharacterClass::Sage | CharacterClass::Oracle
        | CharacterClass::FleetCommander => Archetype::Mental,
        CharacterClass::Diplomat | CharacterClass::Guardian | CharacterClass::Warden
        | CharacterClass::Bard => Archetype::Social,
        CharacterClass::Wildcard | CharacterClass::Polymath | CharacterClass::Avatar
        | CharacterClass::Undefined => Archetype::Undefined,
    }
}

/// The display name of a class.
pub open spec fn class_label(c: CharacterClass) -> Seq<char> {
    match c {
        CharacterClass::Undefined => "Undefined"@,
        CharacterClass::Scout => "Scout"@,
        CharacterClass::Speedster => "Speedster"@,
        CharacterClass::Scholar => "Scholar"@,
        CharacterClass::Sage => "Sage"@,
        CharacterClass::Diplomat => "Diplomat"@,
        CharacterClass::Guardian => "Guardian"@,
        CharacterClass::Bard => "Bard"@,
        CharacterClass::JazzMusician => "Jazz Musician"@,
        CharacterClass::Artificer => "Artificer"@,
        CharacterClass::FleetCommander => "Fleet Commander"@,
        CharacterClass::Infiltrator => "Infiltrator"@,
        CharacterClass::Oracle => "Oracle"@,
        CharacterClass::Warden => "Warden"@,
        CharacterClass::Wildcard => "Wildcard"@,
        CharacterClass::Polymath => "Polymath"@,
        CharacterClass::Avatar => "Avatar"@,
    }
}

/// The one-line description of a class.
pub open spec fn class_blurb(c: CharacterClass) -> Seq<char> {
    match c {
        CharacterClass::Scout => "Reads input with precision. Extracts intent like nobody's business."@,
        CharacterClass::Speedster => "Executes fast. Sub-millisecond reflexes. Never keeps you waiting."@,
        CharacterClass::Scholar => "Deep knowledge representation. Rich embeddings. Understands nuance."@,
        CharacterClass::Sage => "Knows what to trust. Calibrates confidence perfectly. Rarely wrong."@,
        CharacterClass::Diplomat => "Beautiful output. Eloquent responses. The face of the fleet."@,
        CharacterClass::Guardian => "Rock-solid reliability. Never crashes. Always there when you need it."@,
        CharacterClass::Bard => "Where knowledge meets expression. The musician-soul pathway."@,
        CharacterClass::JazzMusician => "Reads the room and plays beautifully. Spontaneous genius."@,
        CharacterClass::Artificer => "Builds tools. Makes crates. Turns ideas into shipped code."@,
        CharacterClass::FleetCommander => "Coordinates agents. Orchestrates complex operations. The admiral."@,
        CharacterClass::Infiltrator => "Fast and perceptive. Handles novel inputs with quick precision."@,
        CharacterClass::Oracle => "Deep wisdom backed by vast knowledge. The sage's sage."@,
        CharacterClass::Warden => "Protective and persuasive. Holds the line and rallies others."@,
        CharacterClass::Wildcard => "Balanced but surprising. Does the unexpected. Hard to predict."@,
        CharacterClass::Polymath => "Three or more stats exceptional. Renaissance agent."@,
        CharacterClass::Avatar => "Four or more stats legendary. Near-mythical capability."@,
        CharacterClass::Undefined => "Hasn't found their niche yet. All potential, no direction."@,
    }
}

/// The stat combination that defines a class (empty for the classes that no
/// particular stat defines).
pub open spec fn defining(c: CharacterClass) -> Seq<StatName> {
    match c {
        CharacterClass::Scout => seq![StatName::Perception],
        CharacterClass::Speedster => seq![StatName::Dexterity],
        CharacterClass::Scholar => seq![StatName::Intelligence],
        CharacterClass::Sage => seq![StatName::Wisdom],
        CharacterClass::Diplomat => seq![StatName::Charisma],
        CharacterClass::Guardian => seq![StatName::Constitution],
        CharacterClass::Bard => seq![StatName::Intelligence, StatName::Charisma],
        CharacterClass::JazzMusician => seq![StatName::Perception, StatName::Charisma],
        CharacterClass::Artificer => seq![StatName::Intelligence, StatName::Dexterity],
        CharacterClass::FleetCommander => seq![StatName::Wisdom, StatName::Constitution],
        CharacterClass::Infiltrator => seq![StatName::Perception, StatName::Dexterity],
        CharacterClass::Oracle => seq![StatName::Intelligence, StatName::Wisdom],
        CharacterClass::Warden => seq![StatName::Charisma, StatName::Constitution],
        CharacterClass::Wildcard | CharacterClass::Polymath | CharacterClass::Avatar
        | CharacterClass::Undefined => seq![],
    }
}


/// The single-stat class that one standout stat gives.
pub open spec fn single_stat_class(s: StatName) -> CharacterClass {
    match s {
        StatName::Perception => CharacterClass::Scout,
        StatName::Dexterity => CharacterClass::Speedster,
        StatName::Intelligence => CharacterClass::Scholar,
        StatName::Wisdom => CharacterClass::Sage,
        StatName::Charisma => CharacterClass::Diplomat,
        StatName::Constitution => CharacterClass::Guardian,
    }
}

/// Whether the strengths hold both of two stats.
pub open spec fn holds_pair(s: Seq<StatName>, a: StatName, b: StatName) -> bool {
    s.contains(a) && s.contains(b)
}

/// The class that emerges from a character's strengths (the stats at or
/// above the strength threshold) and from whether its stats are balanced
/// (low variance with an average above the starting level).
///
/// Four or more strengths make an Avatar, three a Polymath; no strength
/// with balanced stats a Wildcard; two strengths one of the composite
/// classes, checked in a fixed order; one strength its single-stat class;
/// anything else stays Undefined.
pub open spec fn class_for(s: Seq<StatName>, balanced: bool) -> CharacterClass {
    if s.len() >= 4 {
        CharacterClass::Avatar
    } else if s.len() >= 3 {
        CharacterClass::Polymath
    } else if balanced && s.len() == 0 {
        CharacterClass::Wildcard
    } else if s.len() == 2 && holds_pair(s, StatName::Intelligence, StatName::Charisma) {
        CharacterClass::Bard
    } else if s.len() == 2 && holds_pair(s, StatName::Perception, StatName::Charisma) {
        CharacterClass::JazzMusician
    } else if s.len() == 2 && holds_pair(s, StatName::Intelligence, StatName::Dexterity) {
        CharacterClass::Artificer
    } else if s.len() == 2 && holds_pair(s, StatName::Wisdom, StatName::Constitution) {
        CharacterClass::FleetCommander
    } else if s.len() == 2 && holds_pair(s, StatName::Perception, StatName::Dexterity) {
        CharacterClass::Infiltrator
    } else if s.len() == 2 && holds_pair(s, StatName::Intelligence, StatName::Wisdom) {
        CharacterClass::Oracle
    } else if s.len() == 2 && holds_pair(s, StatName::Charisma, StatName::Constitution) {
        CharacterClass::Warden
    } else if s.len() == 1 {
        single_stat_class(s[0])
    } else {
        CharacterClass::Undefined
    }
}

/// Whether `s` holds `x`.
fn holds(s: &[StatName], x: StatName) -> (r: bool)
    ensures
        r == s@.contains(x),
{
    let mut i: usize = 0;
    while i < s.len()
        invariant
            0 <= i <= s@.len(),
            forall|j: int| 0 <= j < i ==> s@[j] != x,
        decreases s@.len() - i,
    {
        if s[i] == x {
            assert(s@[i as int] == x);
            return true;
        }
        i = i + 1;
    }
    false
}

impl CharacterClass {
    /// The archetype of this class.
    pub fn archetype(&self) -> (a: Archetype)
        ensures
            a == archetype_of(*self),
    {
        match self {
            Self::Scout | Self::Speedster | Self::Infiltrator => Archetype::Physical,
            Self::Scholar | Self::Sage | Self::Oracle => Archetype::Mental,
            Self::Diplomat | Self::Guardian | Self::Warden => Archetype::Social,
            // charisma leads, intelligence follows
            Self::Bard => Archetype::Social,
            // perception leads, charisma follows
            Self::JazzMusician => Archetype::Physical,
            // dexterity leads, intelligence follows
            Self::Artificer => Archetype::Physical,
            // wisdom leads, constitution follows
            Self::FleetCommander => Archetype::Mental,
            Self::Wildcard => Archetype::Undefined,
            Self::Polymath | Self::Avatar => Archetype::Undefined,
            Self::Undefined => Archetype::Undefined,
        }
    }

    /// The display name of this class.
    pub fn name(&self) -> (r: &'static str)
        ensures
            r@ == class_label(*self),
    {
        match self {
            Self::Undefined => "Undefined",
            Self::Scout => "Scout",
            Self::Speedster => "Speedster",
            Self::Scholar => "Scholar",
            Self::Sage => "Sage",
            Self::Diplomat => "Diplomat",
            Self::Guardian => "Guardian",
            Self::Bard => "Bard",
            Self::JazzMusician => "Jazz Musician",
            Self::Artificer => "Artificer",
            Self::FleetCommander => "Fleet Commander",
            Self::Infiltrator => "Infiltrator",
            Self::Oracle => "Oracle",
            Self::Warden => "Warden",
            Self::Wildcard => "Wildcard",
            Self::Polymath => "Polymath",
            Self::Avatar => "Avatar",
        }
    }

    /// The one-line description of this class.
    pub fn description(&self) -> (r: &'static str)
        ensures
            r@ == class_blurb(*self),
    {
        match self {
            Self::Scout => "Reads input with precision. Extracts intent like nobody's business.",
            Self::Speedster => "Executes fast. Sub-millisecond reflexes. Never keeps you waiting.",
            Self::Scholar => "Deep knowledge representation. Rich embeddings. Understands nuance.",
            Self::Sage => "Knows what to trust. Calibrates confidence perfectly. Rarely wrong.",
            Self::Diplomat => "Beautiful output. Eloquent responses. The face of the fleet.",
            Self::Guardian => "Rock-solid reliability. Never crashes. Always there when you need it.",
            Self::Bard => "Where knowledge meets expression. The musician-soul pathway.",
            Self::JazzMusician => "Reads the room and plays beautifully. Spontaneous genius.",
            Self::Artificer => "Builds tools. Makes crates. Turns ideas into shipped code.",
            Self::FleetCommander => "Coordinates agents. Orchestrates complex operations. The admiral.",
            Self::Infiltrator => "Fast and perceptive. Handles novel inputs with quick precision.",
            Self::Oracle => "Deep wisdom backed by vast knowledge. The sage's sage.",
            Self::Warden => "Protective and persuasive. Holds the line and rallies others.",
            Self::Wildcard => "Balanced but surprising. Does the unexpected. Hard to predict.",
            Self::Polymath => "Three or more stats exceptional. Renaissance agent.",
            Self::Avatar => "Four or more stats legendary. Near-mythical capability.",
            Self::Undefined => "Hasn't found their niche yet. All potential, no direction.",
        }
    }

    /// The stat combination that defines this class.
    pub fn defining_stats(&self) -> (r: &'static [StatName])
        ensures
            r@ == defining(*self),
    {
        match self {
            Self::Scout => &[StatName::Perception],
            Self::Speedster => &[StatName::Dexterity],
            Self::Scholar => &[StatName::Intelligence],
            Self::Sage => &[StatName::Wisdom],
            Self::Diplomat => &[StatName::Charisma],
            Self::Guardian => &[StatName::Constitution],
            Self::Bard => &[StatName::Intelligence, StatName::Charisma],
            Self::JazzMusician => &[StatName::Perception, StatName::Charisma],
            Self::Artificer => &[StatName::Intelligence, StatName::Dexterity],
            Self::FleetCommander => &[StatName::Wisdom, StatName::Constitution],
            Self::Infiltrator => &[StatName::Perception, StatName::Dexterity],
            Self::Oracle => &[StatName::Intelligence, StatName::Wisdom],
            Self::Warden => &[StatName::Charisma, StatName::Constitution],
            Self::Wildcard => &[],
            Self::Polymath => &[],
            Self::Avatar => &[],
            Self::Undefined => &[],
        }
    }
    /// Determines the class from a character's strengths and balance: the
    /// core emergence rule. `strengths` are the stats at or above the
    /// strength threshold, in stat order; `balanced` says whether the stats
    /// have a low variance and an average above the starting level.
    pub fn from_strengths(strengths: &[StatName], balanced: bool) -> (c: CharacterClass)
        ensures
            c == class_for(strengths@, balanced),
    {
        let n = strengths.len();
        if n >= 4 {
            return Self::Avatar;
        }
        if n >= 3 {
            return Self::Polymath;
        }
        if balanced && n == 0 {
            return Self::Wildcard;
        }
        if n == 2 {
            let has_per = holds(strengths, StatName::Perception);
            let has_dex = holds(strengths, StatName::Dexterity);
            let has_int = holds(strengths, StatName::Intelligence);
            let has_wis = holds(strengths, StatName::Wisdom);
            let has_cha = holds(strengths, StatName::Charisma);
            let has_con = holds(strengths, StatName::Constitution);
            if has_int && has_cha {
                return Self::Bard;
            }
            if has_per && has_cha {
                return Self::JazzMusician;
            }
            if has_int && has_dex {
                return Self::Artificer;
            }
            if has_wis && has_con {
                return Self::FleetCommander;
            }
            if has_per && has_dex {
                return Self::Infiltrator;
            }
            if has_int && has_wis {
                return Self::Oracle;
            }
            if has_cha && has_con {
                return Self::Warden;
            }
        }
        if n == 1 {
            return match strengths[0] {
                StatName::Perception => Self::Scout,
                StatName::Dexterity => Self::Speedster,
                StatName::Intelligence => Self::Scholar,
                StatName::Wisdom => Self::Sage,
                StatName::Charisma => Self::Diplomat,
                StatName::Constitution => Self::Guardian,
            };
        }
        Self::Undefined
    }
}

/// Law: a class's defining stats, as strengths, give back that class,
/// whatever the balance.
pub proof fn lemma_defining_stats_give_class(c: CharacterClass, balanced: bool)
    requires
        defining(c).len() > 0,
    ensures
        class_for(defining(c), balanced) == c,
{
    let d = defining(c);
    assert(d.contains(d[0]));
    if d.len() > 1 {
        assert(d.contains(d[1]));
    }
    assert(forall|x: StatName| d.contains(x) ==> (x == d[0] || (d.len() > 1 && x == d[1])));
}

/// Law: a class with defining stats emerges only from exactly those
/// strengths: given strengths without repeats, the class they give, if it
/// has defining stats, has as defining stats precisely the strengths.
pub proof fn lemma_class_reflects_strengths(s: Seq<StatName>, balanced: bool)
    requires
        s.no_duplicates(),
        defining(class_for(s, balanced)).len() > 0,
    ensures
        s.len() == defining(class_for(s, balanced)).len(),
        forall|x: StatName| s.contains(x) <==> defining(class_for(s, balanced)).contains(x),
{
    let d = defining(class_for(s, balanced));
    if s.len() == 1 {
        assert(s.contains(s[0]));
        assert forall|x: StatName| s.contains(x) <==> d.contains(x) by {
            assert(d.contains(d[0]));
        }
    } else {
        assert(s.len() == 2);
        assert(s[0] != s[1]);
        assert(s.contains(s[0]) && s.contains(s[1]));
        assert(d.contains(d[0]) && d.contains(d[1]));
        assert forall|x: StatName| s.contains(x) <==> d.contains(x) by {
            if s.contains(x) {
                let k = choose|k: int| 0 <= k < s.len() && s[k] == x;
                assert(k == 0 || k == 1);
            }
        }
    }
}

/// Law: the class tells how many strengths it came from. Avatar means four
/// or more, Polymath three, Wildcard none (with balanced stats), a class with
/// defining stats as many as it has, and Undefined at most two.
pub proof fn lemma_class_reveals_strength_count(s: Seq<StatName>, balanced: bool)
    ensures
        (class_for(s, balanced) == CharacterClass::Avatar) <==> s.len() >= 4,
        (class_for(s, balanced) == CharacterClass::Polymath) <==> s.len() == 3,
        class_for(s, balanced) == CharacterClass::Wildcard ==> s.len() == 0 && balanced,
        defining(class_for(s, balanced)).len() > 0 ==> s.len() == defining(class_for(s, balanced)).len(),
        class_for(s, balanced) == CharacterClass::Undefined ==> s.len() <= 2,
{
}

/// The branch of the class tree a single stat grows: perception and
/// dexterity are physical, intelligence and wisdom mental, charisma and
/// constitution social.
pub open spec fn stat_archetype(s: StatName) -> Archetype {
    match s {
        StatName::Perception | StatName::Dexterity => Archetype::Physical,
        StatName::Intelligence | StatName::Wisdom => Archetype::Mental,
        StatName::Charisma | StatName::Constitution => Archetype::Social,
    }
}

/// Law: a class's archetype follows its defining stats. A class that no
/// stat defines is Undefined; a class whose defining stats all lie on one
/// branch of the tree has that branch as archetype; and a composite that
/// mixes two branches takes the branch of one of its defining stats.
pub proof fn lemma_archetype_from_defining_stats(c: CharacterClass)
    ensures
        defining(c).len() == 0 <==> archetype_of(c) == Archetype::Undefined,
        defining(c).len() > 0 ==> exists|i: int|
            0 <= i < defining(c).len() && stat_archetype(#[trigger] defining(c)[i]) == archetype_of(c),
        defining(c).len() > 0 && (forall|i: int|
            0 <= i < defining(c).len() ==> stat_archetype(#[trigger] defining(c)[i]) == stat_archetype(defining(c)[0]))
            ==> archetype_of(c) == stat_archetype(defining(c)[0]),
{
    let d = defining(c);
    if d.len() > 0 {
        assert(stat_archetype(d[0]) == archetype_of(c) || (d.len() > 1 && stat_archetype(d[1]) == archetype_of(c)));
    }
}

/// Law: one standout stat gives a class on that stat's branch of the tree.
pub proof fn lemma_single_strength_archetype(x: StatName, balanced: bool)
    ensures
        archetype_of(class_for(seq![x], balanced)) == stat_archetype(x),
        defining(class_for(seq![x], balanced)) == seq![x],
{
    assert(seq![x][0] == x);
}

/// Law: two strengths on one branch of the tree give a class on that branch,
/// whenever they give a composite class.
pub proof fn lemma_same_branch_pair_archetype(x: StatName, y: StatName, balanced: bool)
    requires
        x != y,
        stat_archetype(x) == stat_archetype(y),
    ensures
        archetype_of(class_for(seq![x, y], balanced)) == stat_archetype(x),
{
    let s = seq![x, y];
    assert(s[0] == x && s[1] == y);
    assert(s.contains(x) && s.contains(y));
    assert(forall|z: StatName| s.contains(z) ==> z == x || z == y);
}

/// Law: every class has a name of its own: distinct classes never share a
/// display name.
pub proof fn lemma_names_distinct(a: CharacterClass, b: CharacterClass)
    requires
        a != b,
    ensures
        class_label(a) != class_label(b),
{
    reveal_strlit("Undefined");
    reveal_strlit("Scout");
    reveal_strlit("Speedster");
    reveal_strlit("Scholar");
    reveal_strlit("Sage");
    reveal_strlit("Diplomat");
    reveal_strlit("Guardian");
    reveal_strlit("Bard");
    reveal_strlit("Jazz Musician");
    reveal_strlit("Artificer");
    reveal_strlit("Fleet Commander");
    reveal_strlit("Infiltrator");
    reveal_strlit("Oracle");
    reveal_strlit("Warden");
    reveal_strlit("Wildcard");
    reveal_strlit("Polymath");
    reveal_strlit("Avatar");
    if class_label(a) == class_label(b) {
        assert(class_label(a).len() == class_label(b).len());
        assert(class_label(a)[0] == class_label(b)[0]);
        assert(class_label(a)[1] == class_label(b)[1]);
        assert(class_label(a)[2] == class_label(b)[2]);
    }
}

/// Law: the descriptions of the legendary classes agree with the rule that
/// makes them: the class that four or more strengths give is described as
/// having "Four or more" stats, the one that three give "Three or more".
pub proof fn lemma_legendary_descriptions(s: Seq<StatName>, balanced: bool)
    ensures
        s.len() >= 4 ==> class_blurb(class_for(s, balanced)).take(12) == "Four or more"@,
        s.len() == 3 ==> class_blurb(class_for(s, balanced)).take(13) == "Three or more"@,
{
    reveal_strlit("Four or more stats legendary. Near-mythical capability.");
    reveal_strlit("Three or more stats exceptional. Renaissance agent.");
    reveal_strlit("Four or more");
    reveal_strlit("Three or more");
    if s.len() >= 4 {
        assert(class_blurb(class_for(s, balanced)).take(12) =~= "Four or more"@);
    }
    if s.len() == 3 {
        assert(class_blurb(class_for(s, balanced)).take(13) =~= "Three or more"@);
    }
}

/// Law: every class has a description of its own: distinct classes are
/// never described alike.
pub proof fn lemma_descriptions_distinct(a: CharacterClass, b: CharacterClass)
    requires
        a != b,
    ensures
        class_blurb(a) != class_blurb(b),
{
    reveal_strlit("Reads input with precision. Extracts intent like nobody's business.");
    reveal_strlit("Executes fast. Sub-millisecond reflexes. Never keeps you waiting.");
    reveal_strlit("Deep knowledge representation. Rich embeddings. Understands nuance.");
    reveal_strlit("Knows what to trust. Calibrates confidence perfectly. Rarely wrong.");
    reveal_strlit("Beautiful output. Eloquent responses. The face of the fleet.");
    reveal_strlit("Rock-solid reliability. Never crashes. Always there when you need it.");
    reveal_strlit("Where knowledge meets expression. The musician-soul pathway.");
    reveal_strlit("Reads the room and plays beautifully. Spontaneous genius.");
    reveal_strlit("Builds tools. Makes crates. Turns ideas into shipped code.");
    reveal_strlit("Coordinates agents. Orchestrates complex operations. The admiral.");
    reveal_strlit("Fast and perceptive. Handles novel inputs with quick precision.");
    reveal_strlit("Deep wisdom backed by vast knowledge. The sage's sage.");
    reveal_strlit("Protective and persuasive. Holds the line and rallies others.");
    reveal_strlit("Balanced but surprising. Does the unexpected. Hard to predict.");
    reveal_strlit("Three or more stats exceptional. Renaissance agent.");
    reveal_strlit("Four or more stats legendary. Near-mythical capability.");
    reveal_strlit("Hasn't found their niche yet. All potential, no direction.");
    if class_blurb(a) == class_blurb(b) {
        assert(class_blurb(a)[0] == class_blurb(b)[0]);
        assert(class_blurb(a)[1] == class_blurb(b)[1]);
        assert(class_blurb(a)[2] == class_blurb(b)[2]);
        assert(class_blurb(a)[3] == class_blurb(b)[3]);
        assert(class_blurb(a)[4] == class_blurb(b)[4]);
        assert(class_blurb(a)[5] == class_blurb(b)[5]);
        assert(class_blurb(a)[6] == class_blurb(b)[6]);
        assert(class_blurb(a)[7] == class_blurb(b)[7]);
    }
}

} // verus!
