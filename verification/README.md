# character_class

An emergent class system for agent characters: a class is not chosen, it
follows from which of a character's six stats stand out.

- `src/stat.rs` — the six stat names.
- `src/class.rs` — archetypes, classes, their names, descriptions and
  defining stats, and the emergence rule `CharacterClass::from_strengths`,
  with laws tying classes to the strengths they come from.
- `src/synergy.rs` — party synergy between classes (in hundredths) and the
  stable ranking behind `best_teammates`, with its laws (sorted, a
  permutation, stable).
- `src/progression.rs` — a class history: changes, trajectory, settling.
- `app/` — the float stats (`Stats`), the float comparisons that turn them
  into strengths, and the float synergy score.
