use vstd::prelude::*;

use crate::class::{Archetype, CharacterClass, archetype_of};

verus! {

/// The synergy of an ordered pair of archetypes as the table lists it, in
/// hundredths; `None` where the table has no entry for that order.
pub open spec fn table_entry(x: Archetype, y: Archetype) -> Option<nat> {
    match (x, y) {
        (Archetype::Physical, Archetype::Mental) => Some(90),
        (Archetype::Mental, Archetype::Social) => Some(85),
        (Archetype::Physical, Archetype::Social) => Some(80),
        (Archetype::Physical, Archetype::Physical) => Some(40),
        (Archetype::Mental, Archetype::Mental) => Some(40),
        (Archetype::Social, Archetype::Social) => Some(40),
        (Archetype::Undefined, Archetype::Undefined) => Some(30),
        _ => None,
    }
}

/// The synergy of two archetypes in either order, in hundredths: the table's
/// entry for the pair as given, else for the pair reversed, else one half.
pub open spec fn archetype_synergy(x: Archetype, y: Archetype) -> nat {
    match table_entry(x, y) {
        Some(v) => v,
        None => match table_entry(y, x) {
            Some(v) => v,
            None => 50,
        },
    }
}

/// How well two classes work together in a party, in hundredths: the same
/// class twice is redundant and scores lowest (one fifth), any two distinct
/// classes score the synergy of their archetypes.
pub open spec fn synergy(a: CharacterClass, b: CharacterClass) -> nat {
    if a == b {
        20
    } else {
        archetype_synergy(archetype_of(a), archetype_of(b))
    }
}

fn table_lookup(x: Archetype, y: Archetype) -> (r: Option<u32>)
    ensures
        r matches Some(v) ==> table_entry(x, y) == Some(v as nat),
        r is None ==> table_entry(x, y) is None,
{
    match (x, y) {
        (Archetype::Physical, Archetype::Mental) => Some(90),
        (Archetype::Mental, Archetype::Social) => Some(85),
        (Archetype::Physical, Archetype::Social) => Some(80),
        (Archetype::Physical, Archetype::Physical) => Some(40),
        (Archetype::Mental, Archetype::Mental) => Some(40),
        (Archetype::Social, Archetype::Social) => Some(40),
        (Archetype::Undefined, Archetype::Undefined) => Some(30),
        _ => None,
    }
}

/// How well two classes work together in a party, in hundredths (90 stands
/// for a synergy of 0.9): the same class twice is redundant and scores
/// lowest (20); otherwise
/// the synergy of their archetypes, looked up in either order, with 50
/// where the table has no entry.
pub fn class_synergy(a: CharacterClass, b: CharacterClass) -> (r: u32)
    ensures
        r == synergy(a, b),
{
    if a == b {
        return 20;
    }
    let arch_a = a.archetype();
    let arch_b = b.archetype();
    match table_lookup(arch_a, arch_b) {
        Some(v) => v,
        None => match table_lookup(arch_b, arch_a) {
            Some(v) => v,
            None => 50,
        },
    }
}

/// `x` placed into `s` just before the first member that `class` has a
/// strictly lower synergy with than with `x`: after every member whose
/// synergy is at least as high.
pub open spec fn insert_ranked(class: CharacterClass, s: Seq<CharacterClass>, x: CharacterClass) -> Seq<CharacterClass>
    decreases s.len(),
{
    if s.len() == 0 {
        seq![x]
    } else if synergy(class, s[0]) < synergy(class, x) {
        seq![x] + s
    } else {
        seq![s[0]] + insert_ranked(class, s.drop_first(), x)
    }
}

/// The candidates ordered by their synergy with `class`, highest first;
/// candidates of equal synergy keep their order (a stable sort).
pub open spec fn ranked(class: CharacterClass, s: Seq<CharacterClass>) -> Seq<CharacterClass>
    decreases s.len(),
{
    if s.len() == 0 {
        seq![]
    } else {
        insert_ranked(class, ranked(class, s.drop_last()), s.last())
    }
}

proof fn lemma_insert_ranked_len(class: CharacterClass, s: Seq<CharacterClass>, x: CharacterClass)
    ensures
        insert_ranked(class, s, x).len() == s.len() + 1,
    decreases s.len(),
{
    if s.len() > 0 {
        lemma_insert_ranked_len(class, s.drop_first(), x);
    }
}

proof fn lemma_ranked_len(class: CharacterClass, s: Seq<CharacterClass>)
    ensures
        ranked(class, s).len() == s.len(),
    decreases s.len(),
{
    if s.len() > 0 {
        lemma_ranked_len(class, s.drop_last());
        lemma_insert_ranked_len(class, ranked(class, s.drop_last()), s.last());
    }
}

/// Placing `x` at a position where everything before it has a synergy at
/// least as high, and the member there (if any) a strictly lower one, is
/// what `insert_ranked` does.
proof fn lemma_insert_ranked_at(class: CharacterClass, s: Seq<CharacterClass>, x: CharacterClass, j: int)
    requires
        0 <= j <= s.len(),
        forall|k: int| 0 <= k < j ==> synergy(class, #[trigger] s[k]) >= synergy(class, x),
        j < s.len() ==> synergy(class, s[j]) < synergy(class, x),
    ensures
        insert_ranked(class, s, x) == s.insert(j, x),
    decreases j,
{
    if j == 0 {
        assert(insert_ranked(class, s, x) =~= s.insert(0, x));
    } else {
        let t = s.drop_first();
        assert forall|k: int| 0 <= k < j - 1 implies synergy(class, #[trigger] t[k]) >= synergy(class, x) by {
            assert(t[k] == s[k + 1]);
        }
        lemma_insert_ranked_at(class, t, x, j - 1);
        assert(insert_ranked(class, s, x) =~= s.insert(j, x));
    }
}

/// The best teammates for `class` among `candidates`: the candidates
/// ordered by synergy with `class`, highest first and stable among equal
/// synergies, of which the first `party_size` (or all, if fewer).
pub fn best_teammates(class: CharacterClass, candidates: &[CharacterClass], party_size: usize) -> (r: Vec<CharacterClass>)
    ensures
        r@ == ranked(class, candidates@).take(
            if party_size < candidates@.len() { party_size as int } else { candidates@.len() as int },
        ),
{
    let n = candidates.len();
    let mut order: Vec<CharacterClass> = Vec::new();
    let mut i: usize = 0;
    while i < n
        invariant
            n == candidates@.len(),
            0 <= i <= n,
            order@ == ranked(class, candidates@.take(i as int)),
        decreases n - i,
    {
        let c = candidates[i];
        let score = class_synergy(class, c);
        proof {
            lemma_ranked_len(class, candidates@.take(i as int));
        }
        let mut j: usize = 0;
        while j < order.len() && class_synergy(class, order[j]) >= score
            invariant
                0 <= j <= order@.len(),
                score == synergy(class, c),
                forall|k: int| 0 <= k < j ==> synergy(class, #[trigger] order@[k]) >= synergy(class, c),
            decreases order@.len() - j,
        {
            j = j + 1;
        }
        proof {
            lemma_insert_ranked_at(class, order@, c, j as int);
            let next = candidates@.take(i + 1);
            assert(next.drop_last() =~= candidates@.take(i as int));
            assert(next.last() == c);
        }
        order.insert(j, c);
        i = i + 1;
    }
    proof {
        assert(candidates@.take(n as int) =~= candidates@);
        lemma_ranked_len(class, candidates@);
    }
    let k: usize = if party_size < n { party_size } else { n };
    let mut out: Vec<CharacterClass> = Vec::new();
    let mut j: usize = 0;
    while j < k
        invariant
            k <= order@.len(),
            0 <= j <= k,
            out@ == order@.take(j as int),
        decreases k - j,
    {
        out.push(order[j]);
        j = j + 1;
        assert(out@ =~= order@.take(j as int));
    }
    out
}

/// Whether `s` runs from the highest synergy with `class` down.
pub open spec fn sorted_by_synergy(class: CharacterClass, s: Seq<CharacterClass>) -> bool {
    forall|i: int, j: int|
        0 <= i < j < s.len() ==> synergy(class, #[trigger] s[i]) >= synergy(class, #[trigger] s[j])
}

/// The classes whose synergy with `class` is exactly `v`.
pub open spec fn has_synergy(class: CharacterClass, v: nat) -> spec_fn(CharacterClass) -> bool {
    |c: CharacterClass| synergy(class, c) == v
}

/// The position at which `insert_ranked` places `x`.
proof fn lemma_insert_ranked_spot(class: CharacterClass, s: Seq<CharacterClass>, x: CharacterClass) -> (j: int)
    ensures
        0 <= j <= s.len(),
        forall|k: int| 0 <= k < j ==> synergy(class, #[trigger] s[k]) >= synergy(class, x),
        j < s.len() ==> synergy(class, s[j]) < synergy(class, x),
        insert_ranked(class, s, x) == s.insert(j, x),
    decreases s.len(),
{
    if s.len() == 0 || synergy(class, s[0]) < synergy(class, x) {
        lemma_insert_ranked_at(class, s, x, 0);
        0
    } else {
        let t = s.drop_first();
        let j0 = lemma_insert_ranked_spot(class, t, x);
        assert forall|k: int| 0 <= k < j0 + 1 implies synergy(class, #[trigger] s[k]) >= synergy(class, x) by {
            if k > 0 {
                assert(s[k] == t[k - 1]);
            }
        }
        if j0 + 1 < s.len() {
            assert(s[j0 + 1] == t[j0]);
        }
        lemma_insert_ranked_at(class, s, x, j0 + 1);
        j0 + 1
    }
}

proof fn lemma_filter_none(s: Seq<CharacterClass>, p: spec_fn(CharacterClass) -> bool)
    requires
        forall|i: int| 0 <= i < s.len() ==> !p(#[trigger] s[i]),
    ensures
        s.filter(p) == Seq::<CharacterClass>::empty(),
    decreases s.len(),
{
    reveal(Seq::filter);
    if s.len() > 0 {
        lemma_filter_none(s.drop_last(), p);
    }
    assert(s.filter(p) =~= Seq::<CharacterClass>::empty());
}

/// Inserting `x` into a sorted ranking at a position with only higher or
/// equal synergies before it and a lower one at it keeps the ranking sorted.
proof fn lemma_insert_keeps_sorted(class: CharacterClass, t: Seq<CharacterClass>, x: CharacterClass, j: int)
    requires
        sorted_by_synergy(class, t),
        0 <= j <= t.len(),
        forall|k: int| 0 <= k < j ==> synergy(class, #[trigger] t[k]) >= synergy(class, x),
        j < t.len() ==> synergy(class, t[j]) < synergy(class, x),
    ensures
        sorted_by_synergy(class, t.insert(j, x)),
{
    t.insert_ensures(j, x);
    let r = t.insert(j, x);
    assert forall|a: int, b: int| 0 <= a < b < r.len() implies synergy(class, #[trigger] r[a]) >= synergy(class, #[trigger] r[b]) by {
        if b < j {
        } else if b == j {
        } else if a < j {
            assert(r[b] == t[b - 1]);
        } else if a == j {
            assert(r[b] == t[b - 1]);
            assert(synergy(class, t[j]) >= synergy(class, t[b - 1]));
        } else {
            assert(r[a] == t[a - 1]);
            assert(r[b] == t[b - 1]);
        }
    }
}

/// Law: the ranking runs from the highest synergy with `class` down.
pub proof fn lemma_ranked_is_sorted(class: CharacterClass, s: Seq<CharacterClass>)
    ensures
        sorted_by_synergy(class, ranked(class, s)),
    decreases s.len(),
{
    if s.len() > 0 {
        let t = ranked(class, s.drop_last());
        lemma_ranked_is_sorted(class, s.drop_last());
        let j = lemma_insert_ranked_spot(class, t, s.last());
        lemma_insert_keeps_sorted(class, t, s.last(), j);
    }
}

/// Law: the ranking holds exactly the candidates, each as often as given.
pub proof fn lemma_ranked_is_permutation(class: CharacterClass, s: Seq<CharacterClass>)
    ensures
        ranked(class, s).to_multiset() == s.to_multiset(),
    decreases s.len(),
{
    broadcast use vstd::seq_lib::group_to_multiset_ensures;

    if s.len() == 0 {
        assert(ranked(class, s) =~= s);
    } else {
        let t = ranked(class, s.drop_last());
        lemma_ranked_is_permutation(class, s.drop_last());
        let j = lemma_insert_ranked_spot(class, t, s.last());
        vstd::seq_lib::to_multiset_insert(t, j, s.last());
        vstd::seq_lib::to_multiset_build(s.drop_last(), s.last());
        assert(s.drop_last().push(s.last()) =~= s);
    }
}

/// Law: the ranking is stable: the candidates of any one synergy with
/// `class` come out in the order in which they were given.
pub proof fn lemma_ranked_is_stable(class: CharacterClass, s: Seq<CharacterClass>, v: nat)
    ensures
        ranked(class, s).filter(has_synergy(class, v)) == s.filter(has_synergy(class, v)),
    decreases s.len(),
{
    let p = has_synergy(class, v);
    if s.len() == 0 {
        assert(ranked(class, s) =~= s);
    } else {
        let x = s.last();
        let t = ranked(class, s.drop_last());
        lemma_ranked_is_stable(class, s.drop_last(), v);
        lemma_ranked_is_sorted(class, s.drop_last());
        let j = lemma_insert_ranked_spot(class, t, x);
        let front = t.take(j);
        let back = t.skip(j);
        assert(t =~= front + back);
        assert(t.insert(j, x) =~= front.push(x) + back);
        Seq::filter_distributes_over_add(front, back, p);
        Seq::filter_distributes_over_add(front.push(x), back, p);
        front.lemma_filter_push(x, p);
        s.drop_last().lemma_filter_push(x, p);
        assert(s.drop_last().push(x) =~= s);
        if synergy(class, x) == v {
            assert forall|i: int| 0 <= i < back.len() implies !p(#[trigger] back[i]) by {
                assert(back[i] == t[j + i]);
                assert(synergy(class, t[j]) >= synergy(class, t[j + i]));
            }
            lemma_filter_none(back, p);
            assert(front.filter(p).push(x) + back.filter(p) =~= (front.filter(p) + back.filter(p)).push(x));
        }
    }
}

/// Law: synergy does not depend on the order of the pair.
pub proof fn lemma_synergy_symmetric(a: CharacterClass, b: CharacterClass)
    ensures
        synergy(a, b) == synergy(b, a),
{
}

/// Law: synergy always lies between 0.2 and 0.9, and between 0.3 and 0.9
/// for two distinct classes.
pub proof fn lemma_synergy_bounds(a: CharacterClass, b: CharacterClass)
    ensures
        20 <= synergy(a, b) <= 90,
        a != b ==> 30 <= synergy(a, b),
{
}

/// Law: a class paired with itself is redundant: it works worse with itself
/// than with any other class, also one of its own archetype (a Jazz Musician
/// and an Artificer synergize better than two Jazz Musicians).
pub proof fn lemma_same_class_lowest(a: CharacterClass, b: CharacterClass, c: CharacterClass)
    requires
        a != b,
    ensures
        synergy(c, c) < synergy(a, b),
{
}

/// Law: diversity beats homogeneity. Two classes of different archetypes
/// (neither of them Undefined) work together better than any two classes
/// that share an archetype, the same class twice included.
pub proof fn lemma_cross_archetype_beats_shared(
    a: CharacterClass,
    b: CharacterClass,
    c: CharacterClass,
    d: CharacterClass,
)
    requires
        archetype_of(a) != archetype_of(b),
        archetype_of(a) != Archetype::Undefined,
        archetype_of(b) != Archetype::Undefined,
        archetype_of(c) == archetype_of(d),
    ensures
        synergy(a, b) > synergy(c, d),
{
}

/// Law: for two distinct classes, synergy depends only on how their
/// archetypes relate. A class with no clear direction (Undefined archetype)
/// next to one with a direction scores one half; two without a direction
/// 0.3; two on the same branch 0.4; Physical with Mental 0.9, Mental with
/// Social 0.85 and Physical with Social 0.8, in either order.
pub proof fn lemma_synergy_by_archetype_relation(a: CharacterClass, b: CharacterClass)
    requires
        a != b,
    ensures
        (archetype_of(a) == Archetype::Undefined) != (archetype_of(b) == Archetype::Undefined)
            ==> synergy(a, b) == 50,
        archetype_of(a) == Archetype::Undefined && archetype_of(b) == Archetype::Undefined
            ==> synergy(a, b) == 30,
        archetype_of(a) == archetype_of(b) && archetype_of(a) != Archetype::Undefined
            ==> synergy(a, b) == 40,
        set![archetype_of(a), archetype_of(b)] == set![Archetype::Physical, Archetype::Mental]
            ==> synergy(a, b) == 90,
        set![archetype_of(a), archetype_of(b)] == set![Archetype::Mental, Archetype::Social]
            ==> synergy(a, b) == 85,
        set![archetype_of(a), archetype_of(b)] == set![Archetype::Physical, Archetype::Social]
            ==> synergy(a, b) == 80,
{
    let x = archetype_of(a);
    let y = archetype_of(b);
    let pair = set![x, y];
    assert(pair.contains(x) && pair.contains(y));
    if pair == set![Archetype::Physical, Archetype::Mental] {
        assert(set![Archetype::Physical, Archetype::Mental].contains(Archetype::Physical));
        assert(set![Archetype::Physical, Archetype::Mental].contains(Archetype::Mental));
    }
    if pair == set![Archetype::Mental, Archetype::Social] {
        assert(set![Archetype::Mental, Archetype::Social].contains(Archetype::Mental));
        assert(set![Archetype::Mental, Archetype::Social].contains(Archetype::Social));
    }
    if pair == set![Archetype::Physical, Archetype::Social] {
        assert(set![Archetype::Physical, Archetype::Social].contains(Archetype::Physical));
        assert(set![Archetype::Physical, Archetype::Social].contains(Archetype::Social));
    }
}

} // verus!
