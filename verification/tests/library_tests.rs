use character_class::CharacterClass::{
    Artificer, Avatar, Bard, Diplomat, Guardian, JazzMusician, Oracle, Sage, Scholar, Scout, Speedster, Undefined, Warden,
    Wildcard,
};
use character_class::StatName::{
    Charisma, Constitution, Dexterity, Intelligence, Perception, Wisdom,
};
use character_class::{
    best_teammates, class_synergy, Archetype, CharacterClass, ClassProgression, StatName,
};

const ALL_CLASSES: [CharacterClass; 17] = [
    CharacterClass::Undefined,
    CharacterClass::Scout,
    CharacterClass::Speedster,
    CharacterClass::Scholar,
    CharacterClass::Sage,
    CharacterClass::Diplomat,
    CharacterClass::Guardian,
    CharacterClass::Bard,
    CharacterClass::JazzMusician,
    CharacterClass::Artificer,
    CharacterClass::FleetCommander,
    CharacterClass::Infiltrator,
    CharacterClass::Oracle,
    CharacterClass::Warden,
    CharacterClass::Wildcard,
    CharacterClass::Polymath,
    CharacterClass::Avatar,
];

#[test]
fn stat_names_are_lower_case() {
    assert_eq!(StatName::Perception.as_str(), "perception");
    assert_eq!(StatName::Dexterity.as_str(), "dexterity");
    assert_eq!(StatName::Intelligence.as_str(), "intelligence");
    assert_eq!(StatName::Wisdom.as_str(), "wisdom");
    assert_eq!(StatName::Charisma.as_str(), "charisma");
    assert_eq!(StatName::Constitution.as_str(), "constitution");
}

#[test]
fn class_names_and_descriptions() {
    assert_eq!(CharacterClass::JazzMusician.name(), "Jazz Musician");
    assert_eq!(CharacterClass::FleetCommander.name(), "Fleet Commander");
    assert_eq!(CharacterClass::Undefined.name(), "Undefined");
    assert_eq!(
        CharacterClass::Oracle.description(),
        "Deep wisdom backed by vast knowledge. The sage's sage."
    );
    assert_eq!(
        CharacterClass::Undefined.description(),
        "Hasn't found their niche yet. All potential, no direction."
    );
    for c in ALL_CLASSES {
        assert!(!c.name().is_empty());
        assert!(!c.description().is_empty());
    }
}

#[test]
fn archetypes_follow_the_tree() {
    assert_eq!(CharacterClass::Scout.archetype(), Archetype::Physical);
    assert_eq!(CharacterClass::Speedster.archetype(), Archetype::Physical);
    assert_eq!(CharacterClass::Scholar.archetype(), Archetype::Mental);
    assert_eq!(CharacterClass::Sage.archetype(), Archetype::Mental);
    assert_eq!(CharacterClass::Diplomat.archetype(), Archetype::Social);
    assert_eq!(CharacterClass::Guardian.archetype(), Archetype::Social);
    assert_eq!(CharacterClass::Bard.archetype(), Archetype::Social);
    assert_eq!(CharacterClass::JazzMusician.archetype(), Archetype::Physical);
    assert_eq!(CharacterClass::Artificer.archetype(), Archetype::Physical);
    assert_eq!(CharacterClass::FleetCommander.archetype(), Archetype::Mental);
    assert_eq!(CharacterClass::Wildcard.archetype(), Archetype::Undefined);
    assert_eq!(CharacterClass::Avatar.archetype(), Archetype::Undefined);
}

#[test]
fn defining_stats_lists() {
    assert_eq!(CharacterClass::Scout.defining_stats(), &[StatName::Perception]);
    assert_eq!(
        CharacterClass::Artificer.defining_stats(),
        &[StatName::Intelligence, StatName::Dexterity]
    );
    assert!(CharacterClass::Polymath.defining_stats().is_empty());
    assert!(CharacterClass::Undefined.defining_stats().is_empty());
}

#[test]
fn defining_stats_give_back_their_class() {
    for c in ALL_CLASSES {
        let d = c.defining_stats();
        if !d.is_empty() {
            assert_eq!(CharacterClass::from_strengths(d, false), c);
            assert_eq!(CharacterClass::from_strengths(d, true), c);
        }
    }
}

#[test]
fn classification_edges() {
    assert_eq!(CharacterClass::from_strengths(&[], false), CharacterClass::Undefined);
    assert_eq!(CharacterClass::from_strengths(&[], true), CharacterClass::Wildcard);
    // a pair with no composite class stays undefined
    assert_eq!(CharacterClass::from_strengths(&[Perception, Wisdom], false), CharacterClass::Undefined);
    assert_eq!(CharacterClass::from_strengths(&[Dexterity, Constitution], true), CharacterClass::Undefined);
    assert_eq!(CharacterClass::from_strengths(&[Perception, Dexterity], false), CharacterClass::Infiltrator);
    assert_eq!(CharacterClass::from_strengths(&[Intelligence, Wisdom], false), CharacterClass::Oracle);
    assert_eq!(CharacterClass::from_strengths(&[Charisma, Constitution], false), CharacterClass::Warden);
    assert_eq!(CharacterClass::from_strengths(&[Wisdom], true), CharacterClass::Sage);
    assert_eq!(CharacterClass::from_strengths(&[Charisma], false), CharacterClass::Diplomat);
    assert_eq!(CharacterClass::from_strengths(&[Constitution], false), CharacterClass::Guardian);
    assert_eq!(CharacterClass::from_strengths(&[Dexterity], false), CharacterClass::Speedster);
    assert_eq!(CharacterClass::from_strengths(&[Intelligence], false), CharacterClass::Scholar);
    assert_eq!(
        CharacterClass::from_strengths(&[Perception, Dexterity, Wisdom], true),
        CharacterClass::Polymath
    );
    assert_eq!(
        CharacterClass::from_strengths(&[Perception, Dexterity, Wisdom, Charisma, Constitution], false),
        CharacterClass::Avatar
    );
}

#[test]
fn synergy_table_values() {
    assert_eq!(class_synergy(Scout, Scholar), 90);
    assert_eq!(class_synergy(Scholar, Scout), 90);
    assert_eq!(class_synergy(Sage, Diplomat), 85);
    assert_eq!(class_synergy(Guardian, Oracle), 85);
    assert_eq!(class_synergy(Speedster, Warden), 80);
    assert_eq!(class_synergy(Scout, Speedster), 40);
    assert_eq!(class_synergy(Scholar, Sage), 40);
    assert_eq!(class_synergy(Diplomat, Guardian), 40);
    assert_eq!(class_synergy(Wildcard, Avatar), 30);
    assert_eq!(class_synergy(Undefined, Scout), 50);
    assert_eq!(class_synergy(Scout, Scout), 20);
    assert_eq!(class_synergy(Undefined, Undefined), 20);
    // the two float values the README names
    assert_eq!(class_synergy(Scout, Scholar) as f32 / 100.0, 0.9);
    assert_eq!(class_synergy(Scout, Speedster) as f32 / 100.0, 0.4);
}

#[test]
fn synergy_is_symmetric_and_bounded() {
    for a in ALL_CLASSES {
        for b in ALL_CLASSES {
            let s = class_synergy(a, b);
            assert_eq!(s, class_synergy(b, a));
            assert!((20..=90).contains(&s));
            if a != b {
                assert!(s >= 30);
            }
        }
    }
}

#[test]
fn diversity_beats_homogeneity() {
    assert!(class_synergy(Scout, Scholar) > class_synergy(Scout, Scout));
    assert!(class_synergy(Bard, Oracle) > class_synergy(Bard, Warden));
    // a Jazz Musician and an Artificer beat two Jazz Musicians
    assert!(class_synergy(JazzMusician, Artificer) > class_synergy(JazzMusician, JazzMusician));
    assert_eq!(class_synergy(JazzMusician, Artificer), 40);
}

#[test]
fn best_teammates_ranking_is_stable() {
    // Sage and Scholar tie at 90 for a Scout, and keep their given order.
    let t = best_teammates(Scout, &[Speedster, Sage, Guardian, Scholar, Undefined], 5);
    assert_eq!(t, vec![Sage, Scholar, Guardian, Undefined, Speedster]);
    let t = best_teammates(Scout, &[Scholar, Sage], 1);
    assert_eq!(t, vec![Scholar]);
}

#[test]
fn best_teammates_sizes() {
    assert!(best_teammates(Scout, &[], 3).is_empty());
    assert!(best_teammates(Scout, &[Scholar, Sage], 0).is_empty());
    assert_eq!(best_teammates(Scout, &[Scholar, Sage], 10).len(), 2);
    // duplicates are kept; the same class ranks last
    assert_eq!(best_teammates(Bard, &[Bard, Oracle, Bard, Warden], 4), vec![Oracle, Warden, Bard, Bard]);
}

#[test]
fn progression_empty() {
    let prog: ClassProgression<u8> = ClassProgression::new();
    assert_eq!(prog.changes(), 0);
    assert_eq!(prog.first_class(), None);
    assert_eq!(prog.current_class(), None);
    assert_eq!(prog.class_duration(), None);
    assert!(prog.trajectory().is_empty());
    assert!(!prog.is_settled());
}

#[test]
fn progression_record_keeps_entry() {
    let mut prog = ClassProgression::new();
    prog.record(4, CharacterClass::Sage, (1u8, 2u8), "wise");
    assert_eq!(prog.entries.len(), 1);
    assert_eq!(prog.entries[0].level, 4);
    assert_eq!(prog.entries[0].class, CharacterClass::Sage);
    assert_eq!(prog.entries[0].stats, (1, 2));
    assert_eq!(prog.entries[0].trigger, "wise");
}

#[test]
fn progression_duration_is_length_of_final_run() {
    let mut prog = ClassProgression::new();
    for c in [Undefined, Scout, Scout, Bard, Bard, Bard] {
        prog.record(1, c, (), "step");
    }
    // the final run of Bard is three entries long
    assert_eq!(prog.class_duration(), Some(3));
    assert_eq!(prog.changes(), 2);
    assert_eq!(prog.trajectory(), vec![&Undefined, &Scout, &Bard]);
    assert!(!prog.is_settled());
    let mut single = ClassProgression::new();
    single.record(1, Scout, (), "one");
    assert_eq!(single.class_duration(), Some(1));
    let mut scholar = ClassProgression::new();
    for _ in 0..6 {
        scholar.record(1, Scholar, (), "stable");
    }
    assert_eq!(scholar.class_duration(), Some(6));
}

#[test]
fn progression_returning_class_counts_again() {
    let mut prog = ClassProgression::new();
    for c in [Scout, Sage, Scout, Scout, Scout, Scout, Scout] {
        prog.record(1, c, (), "step");
    }
    assert_eq!(prog.changes(), 2);
    assert_eq!(prog.trajectory(), vec![&Scout, &Sage, &Scout]);
    assert!(prog.is_settled());
    assert_eq!(prog.class_duration(), Some(5));
    assert_eq!(prog.trajectory().len(), prog.changes() + 1);
}
