use itertools::Itertools;
use vstd::prelude::*;

verus! {

/// A ladder of `(ceiling, template)` rungs, seen as plain values.
pub open spec fn ladder_view(levels: Seq<(i32, String)>) -> Seq<(i32, Seq<char>)> {
    levels.map_values(|p: (i32, String)| (p.0, p.1@))
}

/// Ceilings never decrease from one rung to the next.
pub open spec fn ceilings_ascending(l: Seq<(i32, Seq<char>)>) -> bool {
    forall|i: int, j: int| 0 <= i <= j < l.len() ==> #[trigger] l[i].0 <= #[trigger] l[j].0
}

/// No two rungs share a ceiling.
pub open spec fn distinct_ceilings(l: Seq<(i32, Seq<char>)>) -> bool {
    forall|i: int, j: int|
        0 <= i < l.len() && 0 <= j < l.len() && #[trigger] l[i].0 == #[trigger] l[j].0 ==> i == j
}

/// The rungs of `l` whose ceiling is `k`, in the order in which `l` holds them.
pub open spec fn rungs_at(l: Seq<(i32, Seq<char>)>, k: i32) -> Seq<(i32, Seq<char>)>
    decreases l.len(),
{
    if l.len() == 0 {
        seq![]
    } else if l.last().0 == k {
        rungs_at(l.drop_last(), k).push(l.last())
    } else {
        rungs_at(l.drop_last(), k)
    }
}

/// The template of the first rung, in ladder order, whose ceiling is at least `v`.
pub open spec fn first_at_least(l: Seq<(i32, Seq<char>)>, v: int) -> Option<Seq<char>>
    decreases l.len(),
{
    if l.len() == 0 {
        None
    } else if l[0].0 >= v {
        Some(l[0].1)
    } else {
        first_at_least(l.drop_first(), v)
    }
}


/// The least ceiling of `l` that is at least `v`, if any is.
pub open spec fn least_reaching(l: Seq<(i32, Seq<char>)>, v: int) -> Option<i32>
    decreases l.len(),
{
    if l.len() == 0 {
        None
    } else {
        let rest = least_reaching(l.drop_last(), v);
        let c = l.last().0;
        if c >= v && (rest is None || c < rest->Some_0) {
            Some(c)
        } else {
            rest
        }
    }
}

/// What a ladder selects for `v`, whatever order its rungs were declared in: among the
/// rungs with the least ceiling that reaches `v`, the template of the first declared.
pub open spec fn declared_pick(l: Seq<(i32, Seq<char>)>, v: int) -> Option<Seq<char>> {
    match least_reaching(l, v) {
        Some(c) => Some(rungs_at(l, c)[0].1),
        None => None,
    }
}

/// The template that a ladder gives for `v`, or `default` where no rung reaches `v`.
pub open spec fn level_choice(l: Seq<(i32, Seq<char>)>, v: int, default: Seq<char>) -> Seq<char> {
    match declared_pick(l, v) {
        Some(t) => t,
        None => default,
    }
}

/// Relies on itertools' `sorted_by_key`: a stable sort into ascending order of the key,
/// which here is the ceiling.
#[verifier::external_body]
fn sorted_by_ceiling(levels: Vec<(i32, String)>) -> (r: Vec<(i32, String)>)
    ensures
        ladder_view(r@).to_multiset() == ladder_view(levels@).to_multiset(),
        ceilings_ascending(ladder_view(r@)),
        forall|k: i32| #[trigger]
            rungs_at(ladder_view(r@), k) == rungs_at(ladder_view(levels@), k),
{
    levels.into_iter().sorted_by_key(|p| p.0).collect()
}

/// Puts the rungs of a ladder, if there is one, into ascending order of their ceilings.
/// Rungs that share a ceiling keep the order in which they were declared.
pub fn sort_levels(levels: &mut Option<Vec<(i32, String)>>)
    ensures
        old(levels).is_none() == final(levels).is_none(),
        old(levels).is_some() ==> {
            let before = ladder_view(old(levels).unwrap()@);
            let after = ladder_view(final(levels).unwrap()@);
            &&& after.to_multiset() == before.to_multiset()
            &&& ceilings_ascending(after)
            &&& forall|k: i32| #[trigger] rungs_at(after, k) == rungs_at(before, k)
        },
{
    let taken = levels.take();
    match taken {
        Some(l) => {
            *levels = Some(sorted_by_ceiling(l));
        },
        None => {},
    }
}

fn copy_ladder(levels: &[(i32, String)]) -> (r: Vec<(i32, String)>)
    ensures
        ladder_view(r@) == ladder_view(levels@),
{
    let mut r: Vec<(i32, String)> = Vec::new();
    let mut i: usize = 0;
    while i < levels.len()
        invariant
            i <= levels@.len(),
            r@.len() == i,
            forall|k: int| 0 <= k < i ==> (#[trigger] r@[k]).0 == levels@[k].0 && r@[k].1@ == levels@[k].1@,
        decreases levels@.len() - i,
    {
        let t = levels[i].1.clone();
        r.push((levels[i].0, t));
        i = i + 1;
    }
    assert(ladder_view(r@) =~= ladder_view(levels@));
    r
}

/// The template of the first rung, in the order the ladder holds its rungs, whose ceiling
/// is at least `current`.
fn first_reaching(levels: &Vec<(i32, String)>, current: i64) -> (r: Option<String>)
    ensures
        match r {
            Some(s) => first_at_least(ladder_view(levels@), current as int) == Some(s@),
            None => first_at_least(ladder_view(levels@), current as int).is_none(),
        },
{
    let ghost lv = ladder_view(levels@);
    let mut i: usize = 0;
    assert(lv.skip(0) =~= lv);
    while i < levels.len()
        invariant
            0 <= i <= levels@.len(),
            lv == ladder_view(levels@),
            first_at_least(lv, current as int) == first_at_least(lv.skip(i as int), current as int),
        decreases levels@.len() - i,
    {
        assert(lv.skip(i as int)[0] == lv[i as int]);
        if levels[i].0 as i64 >= current {
            return Some(levels[i].1.clone());
        }
        assert(lv.skip(i as int).drop_first() =~= lv.skip(i as int + 1));
        i = i + 1;
    }
    None
}

/// Selects from a ladder for the value `current`: the ladder is put in ascending order of
/// its ceilings (rungs that share a ceiling keep their declared order), and the first rung
/// whose ceiling is at least `current` gives the template; `None` where no rung reaches it.
pub fn find_current_level(levels: &[(i32, String)], current: i64) -> (r: Option<String>)
    ensures
        match r {
            Some(s) => declared_pick(ladder_view(levels@), current as int) == Some(s@),
            None => declared_pick(ladder_view(levels@), current as int).is_none(),
        },
{
    let copy = copy_ladder(levels);
    let sorted = sorted_by_ceiling(copy);
    proof {
        lemma_selection_picks_first_declared(
            ladder_view(levels@),
            ladder_view(sorted@),
            current as int,
        );
    }
    first_reaching(&sorted, current)
}

/// The template that a ladder gives for `v`, whatever the order of its rungs, or `default`
/// where no rung reaches `v`.
pub fn level_template(levels: &Vec<(i32, String)>, v: i64, default: &String) -> (r: String)
    ensures
        r@ == level_choice(ladder_view(levels@), v as int, default@),
{
    match find_current_level(levels.as_slice(), v) {
        Some(t) => t,
        None => default.clone(),
    }
}

/// Where the first rung that reaches `v` stands: every rung before it is below `v`;
/// where no rung reaches `v`, all are below it.
pub proof fn lemma_first_at_least_index(l: Seq<(i32, Seq<char>)>, v: int)
    ensures
        match first_at_least(l, v) {
            Some(t) => exists|i: int|
                0 <= i < l.len() && l[i].1 == t && l[i].0 >= v && forall|j: int|
                    0 <= j < i ==> #[trigger] l[j].0 < v,
            None => forall|j: int| 0 <= j < l.len() ==> #[trigger] l[j].0 < v,
        },
    decreases l.len(),
{
    if l.len() > 0 && l[0].0 < v {
        let rest = l.drop_first();
        lemma_first_at_least_index(rest, v);
        match first_at_least(rest, v) {
            Some(t) => {
                let i = choose|i: int|
                    0 <= i < rest.len() && rest[i].1 == t && rest[i].0 >= v && forall|j: int|
                        0 <= j < i ==> #[trigger] rest[j].0 < v;
                assert(l[i + 1] == rest[i]);
                assert forall|j: int| 0 <= j < i + 1 implies #[trigger] l[j].0 < v by {
                    if j > 0 {
                        assert(l[j] == rest[j - 1]);
                    }
                }
            },
            None => {
                assert forall|j: int| 0 <= j < l.len() implies #[trigger] l[j].0 < v by {
                    if j > 0 {
                        assert(l[j] == rest[j - 1]);
                    }
                }
            },
        }
    }
}

/// The least reaching ceiling is a ceiling of the ladder that reaches `v`, and no ceiling
/// that reaches `v` is below it; where there is none, every ceiling is below `v`.
pub proof fn lemma_least_reaching(l: Seq<(i32, Seq<char>)>, v: int)
    ensures
        match least_reaching(l, v) {
            Some(c) => c >= v && (exists|j: int| 0 <= j < l.len() && #[trigger] l[j].0 == c)
                && forall|j: int| 0 <= j < l.len() && #[trigger] l[j].0 >= v ==> l[j].0 >= c,
            None => forall|j: int| 0 <= j < l.len() ==> #[trigger] l[j].0 < v,
        },
    decreases l.len(),
{
    if l.len() > 0 {
        let init = l.drop_last();
        lemma_least_reaching(init, v);
        assert forall|j: int| 0 <= j < init.len() implies #[trigger] init[j] == l[j] by {}
        let n = l.len() - 1;
        assert(l.last() == l[n]);
        match least_reaching(init, v) {
            Some(c0) => {
                let j0 = choose|j: int| 0 <= j < init.len() && #[trigger] init[j].0 == c0;
                assert(l[j0].0 == c0);
                assert forall|j: int| 0 <= j < l.len() && #[trigger] l[j].0 >= v implies l[j].0
                    >= least_reaching(l, v)->Some_0 by {
                    if j < n {
                        assert(init[j] == l[j]);
                    }
                }
            },
            None => {
                if l[n].0 < v {
                    assert forall|j: int| 0 <= j < l.len() implies #[trigger] l[j].0 < v by {
                        if j < n {
                            assert(init[j] == l[j]);
                        }
                    }
                } else {
                    assert forall|j: int| 0 <= j < l.len() && #[trigger] l[j].0 >= v implies l[j].0
                        >= l[n].0 by {
                        if j < n {
                            assert(init[j] == l[j]);
                        }
                    }
                }
            },
        }
    }
}

/// A ladder with no rung at ceiling `c` has no rungs at `c`.
proof fn lemma_rungs_at_none(s: Seq<(i32, Seq<char>)>, c: i32)
    requires
        forall|j: int| 0 <= j < s.len() ==> (#[trigger] s[j]).0 != c,
    ensures
        rungs_at(s, c).len() == 0,
    decreases s.len(),
{
    if s.len() > 0 {
        let init = s.drop_last();
        assert forall|j: int| 0 <= j < init.len() implies (#[trigger] init[j]).0 != c by {
            assert(init[j] == s[j]);
        }
        lemma_rungs_at_none(init, c);
        assert(s.last().0 != c);
        assert(rungs_at(s, c) == rungs_at(init, c));
    }
}

/// The first rung at ceiling `c` is the first rung of the ladder whose ceiling is `c`.
proof fn lemma_rungs_at_first(s: Seq<(i32, Seq<char>)>, c: i32, i: int)
    requires
        0 <= i < s.len(),
        s[i].0 == c,
        forall|j: int| 0 <= j < i ==> (#[trigger] s[j]).0 != c,
    ensures
        rungs_at(s, c).len() > 0,
        rungs_at(s, c)[0] == s[i],
    decreases s.len(),
{
    let init = s.drop_last();
    if i == s.len() - 1 {
        assert forall|j: int| 0 <= j < init.len() implies (#[trigger] init[j]).0 != c by {
            assert(init[j] == s[j]);
        }
        lemma_rungs_at_none(init, c);
        assert(rungs_at(s, c) == rungs_at(init, c).push(s.last()));
    } else {
        assert(init[i] == s[i]);
        assert forall|j: int| 0 <= j < i implies (#[trigger] init[j]).0 != c by {
            assert(init[j] == s[j]);
        }
        lemma_rungs_at_first(init, c, i);
        if s.last().0 == c {
            assert(rungs_at(s, c) == rungs_at(init, c).push(s.last()));
        } else {
            assert(rungs_at(s, c) == rungs_at(init, c));
        }
    }
}

/// Selecting against a ladder that was put in ascending order of its ceilings, with rungs
/// that share a ceiling in their declared order, gives the first declared rung among those
/// with the least ceiling that reaches `v`.
pub proof fn lemma_selection_picks_first_declared(
    declared: Seq<(i32, Seq<char>)>,
    sorted: Seq<(i32, Seq<char>)>,
    v: int,
)
    requires
        sorted.to_multiset() == declared.to_multiset(),
        ceilings_ascending(sorted),
        forall|k: i32| #[trigger] rungs_at(sorted, k) == rungs_at(declared, k),
    ensures
        first_at_least(sorted, v) == declared_pick(declared, v),
{
    sorted.to_multiset_ensures();
    declared.to_multiset_ensures();
    lemma_first_at_least_index(sorted, v);
    lemma_least_reaching(declared, v);
    match first_at_least(sorted, v) {
        Some(t) => {
            let i = choose|i: int|
                0 <= i < sorted.len() && sorted[i].1 == t && sorted[i].0 >= v && forall|j: int|
                    0 <= j < i ==> #[trigger] sorted[j].0 < v;
            let c = sorted[i].0;
            assert forall|j: int| 0 <= j < i implies (#[trigger] sorted[j]).0 != c by {
                assert(sorted[j].0 < v);
            }
            lemma_rungs_at_first(sorted, c, i);
            assert(rungs_at(declared, c) == rungs_at(sorted, c));
            assert forall|j: int| 0 <= j < declared.len() && declared[j].0 >= v implies #[trigger]
                declared[j].0 >= c by {
                assert(declared.contains(declared[j]));
                assert(sorted.to_multiset().count(declared[j]) > 0);
                assert(sorted.contains(declared[j]));
                let k = choose|k: int| 0 <= k < sorted.len() && sorted[k] == declared[j];
                if k < i {
                    assert(sorted[k].0 < v);
                }
            }
            assert(sorted.contains(sorted[i]));
            assert(declared.to_multiset().count(sorted[i]) > 0);
            assert(declared.contains(sorted[i]));
            let a = choose|a: int| 0 <= a < declared.len() && declared[a] == sorted[i];
            assert(declared[a].0 == c);
            let c2 = least_reaching(declared, v)->Some_0;
            let j2 = choose|j: int| 0 <= j < declared.len() && #[trigger] declared[j].0 == c2;
            assert(declared[j2].0 >= c);
            assert(declared[a].0 >= c2);
        },
        None => {
            if let Some(c2) = least_reaching(declared, v) {
                let j2 = choose|j: int| 0 <= j < declared.len() && #[trigger] declared[j].0 == c2;
                assert(declared.contains(declared[j2]));
                assert(sorted.to_multiset().count(declared[j2]) > 0);
                assert(sorted.contains(declared[j2]));
                let k = choose|k: int| 0 <= k < sorted.len() && sorted[k] == declared[j2];
                assert(sorted[k].0 < v);
            }
        },
    }
}

/// With distinct ceilings, the ladder's one rung at ceiling `l[i].0` is its first rung there.
proof fn lemma_distinct_rung(l: Seq<(i32, Seq<char>)>, i: int)
    requires
        distinct_ceilings(l),
        0 <= i < l.len(),
    ensures
        rungs_at(l, l[i].0).len() > 0,
        rungs_at(l, l[i].0)[0] == l[i],
{
    assert forall|j: int| 0 <= j < i implies (#[trigger] l[j]).0 != l[i].0 by {
        if l[j].0 == l[i].0 {
            assert(j == i);
        }
    }
    lemma_rungs_at_first(l, l[i].0, i);
}

/// Selection does not depend on the order in which a ladder's rungs were declared: two
/// orderings of one ladder whose ceilings are distinct give the same template for every
/// value, the one that the ascending ladder gives.
pub proof fn lemma_level_selection_order_independent(
    l1: Seq<(i32, Seq<char>)>,
    l2: Seq<(i32, Seq<char>)>,
    v: int,
)
    requires
        l1.to_multiset() == l2.to_multiset(),
        distinct_ceilings(l1),
        distinct_ceilings(l2),
    ensures
        declared_pick(l1, v) == declared_pick(l2, v),
{
    l1.to_multiset_ensures();
    l2.to_multiset_ensures();
    lemma_least_reaching(l1, v);
    lemma_least_reaching(l2, v);
    match (least_reaching(l1, v), least_reaching(l2, v)) {
        (Some(c1), Some(c2)) => {
            let a = choose|j: int| 0 <= j < l1.len() && #[trigger] l1[j].0 == c1;
            let b = choose|j: int| 0 <= j < l2.len() && #[trigger] l2[j].0 == c2;
            assert(l1.contains(l1[a]));
            assert(l2.to_multiset().count(l1[a]) > 0);
            assert(l2.contains(l1[a]));
            let a2 = choose|j: int| 0 <= j < l2.len() && l2[j] == l1[a];
            assert(l2.contains(l2[b]));
            assert(l1.to_multiset().count(l2[b]) > 0);
            assert(l1.contains(l2[b]));
            let b1 = choose|j: int| 0 <= j < l1.len() && l1[j] == l2[b];
            assert(l2[a2].0 >= c2);
            assert(l1[b1].0 >= c1);
            assert(c1 == c2);
            assert(l2[a2].0 == l2[b].0);
            assert(a2 == b);
            lemma_distinct_rung(l1, a);
            lemma_distinct_rung(l2, b);
        },
        (Some(c1), None) => {
            let a = choose|j: int| 0 <= j < l1.len() && #[trigger] l1[j].0 == c1;
            assert(l1.contains(l1[a]));
            assert(l2.to_multiset().count(l1[a]) > 0);
            assert(l2.contains(l1[a]));
            let a2 = choose|j: int| 0 <= j < l2.len() && l2[j] == l1[a];
            assert(l2[a2].0 < v);
        },
        (None, Some(c2)) => {
            let b = choose|j: int| 0 <= j < l2.len() && #[trigger] l2[j].0 == c2;
            assert(l2.contains(l2[b]));
            assert(l1.to_multiset().count(l2[b]) > 0);
            assert(l1.contains(l2[b]));
            let b1 = choose|j: int| 0 <= j < l1.len() && l1[j] == l2[b];
            assert(l1[b1].0 < v);
        },
        (None, None) => {},
    }
}

/// A value equal to a ceiling selects a rung of that very ceiling, not one further up,
/// whatever the order of the ladder; where the ceilings are distinct, it is that rung's
/// template.
pub proof fn lemma_ceiling_is_inclusive(l: Seq<(i32, Seq<char>)>, i: int)
    requires
        0 <= i < l.len(),
    ensures
        declared_pick(l, l[i].0 as int) == Some(rungs_at(l, l[i].0)[0].1),
        distinct_ceilings(l) ==> declared_pick(l, l[i].0 as int) == Some(l[i].1),
{
    lemma_least_reaching(l, l[i].0 as int);
    assert(l[i].0 >= l[i].0 as int);
    let c = least_reaching(l, l[i].0 as int)->Some_0;
    let j = choose|j: int| 0 <= j < l.len() && #[trigger] l[j].0 == c;
    assert(l[j].0 >= l[i].0 as int);
    assert(c == l[i].0);
    if distinct_ceilings(l) {
        lemma_distinct_rung(l, i);
    }
}

/// Where no ceiling reaches `v`, the selector gives the default template.
pub proof fn lemma_falls_back_to_default(l: Seq<(i32, Seq<char>)>, v: int, default: Seq<char>)
    requires
        forall|j: int| 0 <= j < l.len() ==> #[trigger] l[j].0 < v,
    ensures
        level_choice(l, v, default) == default,
{
    lemma_least_reaching(l, v);
    if let Some(c) = least_reaching(l, v) {
        let j = choose|j: int| 0 <= j < l.len() && #[trigger] l[j].0 == c;
        assert(l[j].0 < v);
    }
}

} // verus!
