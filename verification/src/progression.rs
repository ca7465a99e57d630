use vstd::prelude::*;

use crate::class::CharacterClass;

verus! {

/// One recorded moment of a character's class history. `S` is whatever the
/// caller keeps as the stats snapshot at that moment.
#[derive(Debug, Clone)]
pub struct ClassEntry<S> {
    pub level: u32,
    pub class: CharacterClass,
    pub stats: S,
    /// What caused the class change.
    pub trigger: String,
}

/// A character's class history: how its identity evolved over time.
#[derive(Debug, Clone)]
pub struct ClassProgression<S> {
    pub entries: Vec<ClassEntry<S>>,
}

/// The number of places where a class differs from the one before it.
pub open spec fn count_changes(s: Seq<CharacterClass>) -> nat
    decreases s.len(),
{
    if s.len() <= 1 {
        0
    } else {
        count_changes(s.drop_last()) + if s[s.len() - 2] != s.last() { 1nat } else { 0nat }
    }
}

/// The classes with each run of repeats collapsed to one: the sequence of
/// classes visited.
pub open spec fn collapse_runs(s: Seq<CharacterClass>) -> Seq<CharacterClass>
    decreases s.len(),
{
    if s.len() == 0 {
        seq![]
    } else if s.len() >= 2 && s[s.len() - 2] == s.last() {
        collapse_runs(s.drop_last())
    } else {
        collapse_runs(s.drop_last()).push(s.last())
    }
}

/// The length of the run of `c` at the end of `s`.
pub open spec fn trailing_run(s: Seq<CharacterClass>, c: CharacterClass) -> nat
    decreases s.len(),
{
    if s.len() == 0 || s.last() != c {
        0
    } else {
        1 + trailing_run(s.drop_last(), c)
    }
}

/// Whether the last five classes (and there are at least five) are all the
/// current one.
pub open spec fn settled(s: Seq<CharacterClass>) -> bool {
    s.len() >= 5 && forall|i: int| s.len() - 5 <= i < s.len() ==> #[trigger] s[i] == s.last()
}

impl<S> ClassProgression<S> {
    /// The recorded classes, oldest first.
    pub open spec fn classes(&self) -> Seq<CharacterClass> {
        self.entries@.map_values(|e: ClassEntry<S>| e.class)
    }

    /// An empty history.
    pub fn new() -> (p: Self)
        ensures
            p.entries@.len() == 0,
    {
        ClassProgression { entries: Vec::new() }
    }

    /// Records the current class state.
    pub fn record(&mut self, level: u32, class: CharacterClass, stats: S, trigger: &str)
        ensures
            final(self).entries@.len() == old(self).entries@.len() + 1,
            forall|i: int| 0 <= i < old(self).entries@.len() ==> #[trigger] final(self).entries@[i] == old(self).entries@[i],
            final(self).entries@.last().level == level,
            final(self).entries@.last().class == class,
            final(self).entries@.last().stats == stats,
            final(self).entries@.last().trigger@ == trigger@,
            final(self).classes() == old(self).classes().push(class),
    {
        let trigger = trigger.to_owned();
        self.entries.push(ClassEntry { level, class, stats, trigger });
        assert(self.classes() =~= old(self).classes().push(class));
    }

    /// How many times the class changed from one entry to the next.
    pub fn changes(&self) -> (n: usize)
        ensures
            n == count_changes(self.classes()),
    {
        let len = self.entries.len();
        if len <= 1 {
            return 0;
        }
        let ghost s = self.classes();
        let mut n: usize = 0;
        let mut i: usize = 1;
        while i < len
            invariant
                len == self.entries@.len(),
                s == self.classes(),
                1 <= i <= len,
                n == count_changes(s.take(i as int)),
                n < i,
            decreases len - i,
        {
            proof {
                let t = s.take(i as int + 1);
                assert(t.drop_last() =~= s.take(i as int));
            }
            if self.entries[i - 1].class != self.entries[i].class {
                n = n + 1;
            }
            i = i + 1;
        }
        proof {
            assert(s.take(len as int) =~= s);
        }
        n
    }

    /// The first recorded class.
    pub fn first_class(&self) -> (c: Option<CharacterClass>)
        ensures
            c == (if self.entries@.len() == 0 { None } else { Some(self.classes()[0]) }),
    {
        if self.entries.len() == 0 {
            None
        } else {
            Some(self.entries[0].class)
        }
    }

    /// The current (last recorded) class.
    pub fn current_class(&self) -> (c: Option<CharacterClass>)
        ensures
            c == (if self.entries@.len() == 0 { None } else { Some(self.classes().last()) }),
    {
        let n = self.entries.len();
        if n == 0 {
            None
        } else {
            Some(self.entries[n - 1].class)
        }
    }
    /// How long the character has been in its current class: the number of
    /// entries in the final run of the current class. `None` for an empty
    /// history.
    pub fn class_duration(&self) -> (r: Option<u32>)
        requires
            self.entries@.len() == 0 || trailing_run(self.classes(), self.classes().last()) <= u32::MAX,
        ensures
            self.entries@.len() == 0 ==> r is None,
            self.entries@.len() > 0 ==> r == Some(trailing_run(self.classes(), self.classes().last()) as u32),
    {
        let n = self.entries.len();
        if n == 0 {
            return None;
        }
        let current = self.entries[n - 1].class;
        let ghost s = self.classes();
        let mut k: usize = n;
        proof {
            assert(s.take(n as int) =~= s);
        }
        while k > 0 && self.entries[k - 1].class == current
            invariant
                n == self.entries@.len(),
                n > 0,
                s == self.classes(),
                current == s.last(),
                0 <= k <= n,
                trailing_run(s, current) == (n - k) + trailing_run(s.take(k as int), current),
            decreases k,
        {
            proof {
                assert(s.take(k as int).drop_last() =~= s.take(k - 1));
            }
            k = k - 1;
        }
        proof {
            if k > 0 {
                assert(s.take(k as int).last() == s[k - 1]);
            }
            assert(trailing_run(s.take(k as int), current) == 0);
        }
        let run = n - k;
        Some(run as u32)
    }

    /// The sequence of classes visited: each run of one class counted once.
    pub fn trajectory(&self) -> (r: Vec<&CharacterClass>)
        ensures
            r@.map_values(|c: &CharacterClass| *c) == collapse_runs(self.classes()),
    {
        let n = self.entries.len();
        let ghost s = self.classes();
        let mut classes: Vec<&CharacterClass> = Vec::new();
        let mut last: Option<CharacterClass> = None;
        let mut i: usize = 0;
        while i < n
            invariant
                n == self.entries@.len(),
                s == self.classes(),
                0 <= i <= n,
                classes@.map_values(|c: &CharacterClass| *c) == collapse_runs(s.take(i as int)),
                last == (if i == 0 { None } else { Some(s[i - 1]) }),
            decreases n - i,
        {
            let entry = &self.entries[i];
            let differs = match last {
                Some(l) => l != entry.class,
                None => true,
            };
            proof {
                assert(s.take(i + 1).drop_last() =~= s.take(i as int));
            }
            if differs {
                let ghost before = classes@;
                classes.push(&entry.class);
                proof {
                    assert(classes@.map_values(|c: &CharacterClass| *c) =~= before.map_values(
                        |c: &CharacterClass| *c,
                    ).push(s[i as int]));
                }
                last = Some(entry.class);
            }
            i = i + 1;
        }
        proof {
            assert(s.take(n as int) =~= s);
        }
        classes
    }

    /// Whether the character has settled: at least five entries, the last
    /// five all in the current class.
    pub fn is_settled(&self) -> (b: bool)
        ensures
            b == settled(self.classes()),
    {
        let n = self.entries.len();
        if n < 5 {
            return false;
        }
        let current = self.entries[n - 1].class;
        let mut j: usize = n - 5;
        while j < n
            invariant
                n == self.entries@.len(),
                n >= 5,
                current == self.classes().last(),
                n - 5 <= j <= n,
                forall|i: int| n - 5 <= i < j ==> #[trigger] self.classes()[i] == current,
            decreases n - j,
        {
            if self.entries[j].class != current {
                assert(self.classes()[j as int] != current);
                return false;
            }
            j = j + 1;
        }
        true
    }
}

/// Law: the trajectory has one class more than there were changes (for a
/// non-empty history).
pub proof fn lemma_trajectory_counts_changes(s: Seq<CharacterClass>)
    requires
        s.len() > 0,
    ensures
        collapse_runs(s).len() == count_changes(s) + 1,
    decreases s.len(),
{
    let t = s.drop_last();
    if s.len() == 1 {
        assert(collapse_runs(t) == Seq::<CharacterClass>::empty());
    } else {
        lemma_trajectory_counts_changes(t);
        assert(t.last() == s[s.len() - 2]);
    }
}

/// Law: the trajectory starts at the first class and ends at the current
/// one.
pub proof fn lemma_trajectory_ends(s: Seq<CharacterClass>)
    requires
        s.len() > 0,
    ensures
        collapse_runs(s).len() > 0,
        collapse_runs(s)[0] == s[0],
        collapse_runs(s).last() == s.last(),
    decreases s.len(),
{
    if s.len() == 1 {
        assert(collapse_runs(s.drop_last()) == Seq::<CharacterClass>::empty());
    } else {
        lemma_trajectory_ends(s.drop_last());
        assert(s.drop_last()[0] == s[0]);
        if s[s.len() - 2] == s.last() {
            assert(s.drop_last().last() == s[s.len() - 2]);
        }
    }
}

/// Law: no class follows itself in the trajectory.
pub proof fn lemma_trajectory_no_repeats(s: Seq<CharacterClass>)
    ensures
        forall|i: int| 0 <= i < collapse_runs(s).len() - 1 ==> #[trigger] collapse_runs(s)[i] != collapse_runs(s)[i + 1],
    decreases s.len(),
{
    if s.len() > 0 {
        let t = s.drop_last();
        lemma_trajectory_no_repeats(t);
        if t.len() == 0 {
            assert(collapse_runs(t) == Seq::<CharacterClass>::empty());
        }
        if !(s.len() >= 2 && s[s.len() - 2] == s.last()) && t.len() > 0 {
            lemma_trajectory_ends(t);
            assert(t.last() == s[s.len() - 2]);
            let r = collapse_runs(s);
            let rt = collapse_runs(t);
            assert forall|i: int| 0 <= i < r.len() - 1 implies #[trigger] r[i] != r[i + 1] by {
                if i < rt.len() - 1 {
                    assert(r[i] == rt[i] && r[i + 1] == rt[i + 1]);
                }
            }
        }
    }
}

/// Law: recording a class makes it the current class, counts one change
/// exactly when it differs from the class before, and extends the
/// trajectory exactly then.
pub proof fn lemma_record_extends(s: Seq<CharacterClass>, c: CharacterClass)
    ensures
        s.push(c).last() == c,
        count_changes(s.push(c)) == count_changes(s) + if s.len() > 0 && s.last() != c { 1nat } else { 0nat },
        collapse_runs(s.push(c)) == (if s.len() > 0 && s.last() == c {
            collapse_runs(s)
        } else {
            collapse_runs(s).push(c)
        }),
{
    assert(s.push(c).drop_last() =~= s);
    if s.len() > 0 {
        assert(s.push(c)[s.len() - 1] == s.last());
    }
}

proof fn lemma_trailing_run_shape(s: Seq<CharacterClass>, c: CharacterClass)
    ensures
        trailing_run(s, c) <= s.len(),
        forall|i: int| s.len() - trailing_run(s, c) <= i < s.len() ==> #[trigger] s[i] == c,
        trailing_run(s, c) < s.len() ==> s[s.len() - 1 - trailing_run(s, c)] != c,
    decreases s.len(),
{
    if s.len() > 0 && s.last() == c {
        let t = s.drop_last();
        lemma_trailing_run_shape(t, c);
        assert forall|i: int| s.len() - trailing_run(s, c) <= i < s.len() implies #[trigger] s[i] == c by {
            if i < s.len() - 1 {
                assert(s[i] == t[i]);
            }
        }
        if trailing_run(s, c) < s.len() {
            assert(s[s.len() - 1 - trailing_run(s, c)] == t[t.len() - 1 - trailing_run(t, c)]);
        }
    }
}

/// Law: a character has settled exactly when the final run of its current
/// class is at least five entries long.
pub proof fn lemma_settled_means_long_run(s: Seq<CharacterClass>)
    requires
        s.len() > 0,
    ensures
        settled(s) <==> trailing_run(s, s.last()) >= 5,
{
    lemma_trailing_run_shape(s, s.last());
    let r = trailing_run(s, s.last());
    if settled(s) && r < 5 {
        assert(s[s.len() - 1 - r] == s.last());
    }
}

} // verus!
