//! A status-line engine: a fixed, ordered set of components (volume, backlight, battery,
//! clock, shell command, static text), each refreshed behind its own staleness gate or on
//! demand by a signal, rendered through threshold ladders and a template renderer that
//! never fails, and joined into one line. Raw reads of the hardware are made by the
//! caller and handed in as plain readings.
use vstd::prelude::*;

pub mod components;
pub mod config;
pub mod errors;
pub mod render;
pub mod time;
pub mod utils;

use crate::components::{fault_text, is_stale, no_cache_text, updated, Component, Fault, Reading};

verus! {

/// The fixed, ordered sequence of components; its order is the order of the line.
#[derive(Clone, Debug)]
pub struct ComponentVec {
    pub vec: Vec<Component>,
}

/// The outcome of a raw read as a component update takes it: a read that was not made
/// counts as a fault.
pub open spec fn acquired_of(o: Option<Result<Reading, Fault>>) -> Result<Reading, Fault> {
    match o {
        Some(x) => x,
        None => Err(Fault::NotAcquired),
    }
}

/// One component across one polling tick: refreshed from its own read where it is due,
/// untouched where it is not.
pub open spec fn poll_step(
    old: Component,
    new: Component,
    reading: Option<Result<Reading, Fault>>,
    now: u64,
) -> bool {
    if is_stale(old, now) {
        updated(old, new, acquired_of(reading), now)
    } else {
        new == old
    }
}

/// One component across the handling of signal `signal`: refreshed from its own read,
/// due or not, where the signal is bound to it; untouched otherwise.
pub open spec fn signal_step(
    old: Component,
    new: Component,
    signal: u32,
    reading: Option<Result<Reading, Fault>>,
    now: u64,
) -> bool {
    if old.signal_view() == Some(signal) {
        updated(old, new, acquired_of(reading), now)
    } else {
        new == old
    }
}

/// What a component contributes to the line.
pub open spec fn entry_of(c: Component) -> Seq<char> {
    match c.cache_view() {
        Some(s) => s,
        None => no_cache_text(),
    }
}

/// The entries of the components in order, joined by `sep`.
pub open spec fn line_of(cs: Seq<Component>, sep: Seq<char>) -> Seq<char>
    decreases cs.len(),
{
    if cs.len() == 0 {
        seq![]
    } else if cs.len() == 1 {
        entry_of(cs[0])
    } else {
        line_of(cs.drop_last(), sep) + sep + entry_of(cs.last())
    }
}

/// For each component in order, whether it is due for a refresh at `now`: the raw reads
/// that the next polling tick needs.
pub fn due_for_update(components: &ComponentVec, now: u64) -> (r: Vec<bool>)
    ensures
        r@.len() == components.vec@.len(),
        forall|i: int| 0 <= i < r@.len() ==> r@[i] == is_stale(#[trigger] components.vec@[i], now),
{
    let mut r: Vec<bool> = Vec::new();
    let mut i: usize = 0;
    while i < components.vec.len()
        invariant
            i <= components.vec@.len(),
            r@.len() == i,
            forall|k: int| 0 <= k < i ==> r@[k] == is_stale(#[trigger] components.vec@[k], now),
        decreases components.vec@.len() - i,
    {
        r.push(components.vec[i].update_check(now));
        i = i + 1;
    }
    r
}

/// For each component in order, whether signal `signal` is bound to it: the raw reads
/// that handling the signal needs.
pub fn matching_signal(signal: u32, components: &ComponentVec) -> (r: Vec<bool>)
    ensures
        r@.len() == components.vec@.len(),
        forall|i: int|
            0 <= i < r@.len() ==> r@[i] == (#[trigger] components.vec@[i].signal_view() == Some(
                signal,
            )),
{
    let mut r: Vec<bool> = Vec::new();
    let mut i: usize = 0;
    while i < components.vec.len()
        invariant
            i <= components.vec@.len(),
            r@.len() == i,
            forall|k: int|
                0 <= k < i ==> r@[k] == (#[trigger] components.vec@[k].signal_view() == Some(
                    signal,
                )),
        decreases components.vec@.len() - i,
    {
        r.push(components.vec[i].get_signal_value() == Some(signal));
        i = i + 1;
    }
    r
}

/// The positions, in increasing order, of the components that signal `signal` is bound
/// to: computed once per signal, it lets a signal reach its components without looking at
/// any other.
pub fn bound_components(signal: u32, components: &ComponentVec) -> (r: Vec<usize>)
    ensures
        forall|k: int|
            0 <= k < r@.len() ==> (#[trigger] r@[k]) < components.vec@.len()
                && components.vec@[r@[k] as int].signal_view() == Some(signal),
        forall|k: int, m: int| 0 <= k < m < r@.len() ==> #[trigger] r@[k] < #[trigger] r@[m],
        forall|i: int|
            0 <= i < components.vec@.len() && (#[trigger] components.vec@[i]).signal_view()
                == Some(signal) ==> r@.contains(i as usize),
{
    let mut r: Vec<usize> = Vec::new();
    let mut i: usize = 0;
    while i < components.vec.len()
        invariant
            i <= components.vec@.len(),
            forall|k: int|
                0 <= k < r@.len() ==> (#[trigger] r@[k]) < i && components.vec@[r@[k] as int].signal_view()
                    == Some(signal),
            forall|k: int, m: int| 0 <= k < m < r@.len() ==> #[trigger] r@[k] < #[trigger] r@[m],
            forall|j: int|
                0 <= j < i && (#[trigger] components.vec@[j]).signal_view() == Some(signal)
                    ==> r@.contains(j as usize),
        decreases components.vec@.len() - i,
    {
        if components.vec[i].get_signal_value() == Some(signal) {
            let ghost before = r@;
            r.push(i);
            assert forall|j: int|
                0 <= j < i && (#[trigger] components.vec@[j]).signal_view() == Some(signal)
                    implies r@.contains(j as usize) by {
                let k = choose|k: int| 0 <= k < before.len() && before[k] == j as usize;
                assert(r@[k] == j as usize);
            }
            assert(r@[r@.len() - 1] == i);
        }
        i = i + 1;
    }
    r
}

/// One polling tick: each component, in order, passes the staleness gate at `now` and,
/// where it is due, is refreshed from its own entry of `readings`. A fault in one entry
/// touches no other component. Returns, for each component, whether it was refreshed.
pub fn update_check_all(
    components: &mut ComponentVec,
    now: u64,
    readings: Vec<Option<Result<Reading, Fault>>>,
) -> (r: Vec<bool>)
    requires
        readings@.len() == old(components).vec@.len(),
    ensures
        final(components).vec@.len() == old(components).vec@.len(),
        r@.len() == old(components).vec@.len(),
        forall|i: int|
            0 <= i < r@.len() ==> r@[i] == is_stale(#[trigger] old(components).vec@[i], now),
        forall|i: int|
            0 <= i < r@.len() ==> poll_step(
                #[trigger] old(components).vec@[i],
                final(components).vec@[i],
                readings@[i],
                now,
            ),
{
    let ghost orig = components.vec@;
    let ghost orig_readings = readings@;
    let n = components.vec.len();
    let mut rest: Vec<Component> = Vec::new();
    std::mem::swap(&mut components.vec, &mut rest);
    let mut readings = readings;
    let mut due: Vec<bool> = Vec::new();
    let mut i: usize = 0;
    while i < n
        invariant
            n == orig.len(),
            orig_readings.len() == n,
            i <= n,
            rest@ == orig.skip(i as int),
            readings@ == orig_readings.skip(i as int),
            components.vec@.len() == i,
            due@.len() == i,
            forall|k: int| 0 <= k < i ==> due@[k] == is_stale(#[trigger] orig[k], now),
            forall|k: int|
                0 <= k < i ==> poll_step(#[trigger] orig[k], components.vec@[k], orig_readings[k], now),
        decreases n - i,
    {
        let mut c = rest.remove(0);
        let reading = readings.remove(0);
        assert(c == orig[i as int]);
        assert(reading == orig_readings[i as int]);
        assert(rest@ =~= orig.skip(i as int + 1));
        assert(readings@ =~= orig_readings.skip(i as int + 1));
        let stale = c.update_check(now);
        if stale {
            let acquired = match reading {
                Some(x) => x,
                None => Err(Fault::NotAcquired),
            };
            let _ = c.update(acquired, now);
        }
        components.vec.push(c);
        due.push(stale);
        i = i + 1;
    }
    due
}

/// Handling of signal `signal`: each component that the signal is bound to is refreshed
/// from its own entry of `readings`, whether or not it is due; the others are untouched.
/// Returns, for each component, whether it was refreshed.
pub fn update_matching_signal(
    signal: u32,
    components: &mut ComponentVec,
    now: u64,
    readings: Vec<Option<Result<Reading, Fault>>>,
) -> (r: Vec<bool>)
    requires
        readings@.len() == old(components).vec@.len(),
    ensures
        final(components).vec@.len() == old(components).vec@.len(),
        r@.len() == old(components).vec@.len(),
        forall|i: int|
            0 <= i < r@.len() ==> r@[i] == (#[trigger] old(components).vec@[i].signal_view()
                == Some(signal)),
        forall|i: int|
            0 <= i < r@.len() ==> signal_step(
                #[trigger] old(components).vec@[i],
                final(components).vec@[i],
                signal,
                readings@[i],
                now,
            ),
{
    let ghost orig = components.vec@;
    let ghost orig_readings = readings@;
    let n = components.vec.len();
    let mut rest: Vec<Component> = Vec::new();
    std::mem::swap(&mut components.vec, &mut rest);
    let mut readings = readings;
    let mut hit: Vec<bool> = Vec::new();
    let mut i: usize = 0;
    while i < n
        invariant
            n == orig.len(),
            orig_readings.len() == n,
            i <= n,
            rest@ == orig.skip(i as int),
            readings@ == orig_readings.skip(i as int),
            components.vec@.len() == i,
            hit@.len() == i,
            forall|k: int|
                0 <= k < i ==> hit@[k] == (#[trigger] orig[k].signal_view() == Some(signal)),
            forall|k: int|
                0 <= k < i ==> signal_step(
                    #[trigger] orig[k],
                    components.vec@[k],
                    signal,
                    orig_readings[k],
                    now,
                ),
        decreases n - i,
    {
        let mut c = rest.remove(0);
        let reading = readings.remove(0);
        assert(c == orig[i as int]);
        assert(reading == orig_readings[i as int]);
        assert(rest@ =~= orig.skip(i as int + 1));
        assert(readings@ =~= orig_readings.skip(i as int + 1));
        let matches = c.get_signal_value() == Some(signal);
        if matches {
            let acquired = match reading {
                Some(x) => x,
                None => Err(Fault::NotAcquired),
            };
            let _ = c.update(acquired, now);
        }
        components.vec.push(c);
        hit.push(matches);
        i = i + 1;
    }
    hit
}

/// The status line: every component's cache in order, joined by `separator`; a
/// component that was never rendered shows a placeholder.
pub fn collect_all_cache(components: &ComponentVec, separator: &str) -> (r: String)
    ensures
        r@ == line_of(components.vec@, separator@),
{
    let ghost cs = components.vec@;
    let mut line = String::new();
    let mut i: usize = 0;
    while i < components.vec.len()
        invariant
            cs == components.vec@,
            i <= cs.len(),
            line@ == line_of(cs.take(i as int), separator@),
        decreases cs.len() - i,
    {
        assert(cs.take(i as int + 1).drop_last() =~= cs.take(i as int));
        if i > 0 {
            line.append(separator);
        }
        match components.vec[i].get_cache() {
            Some(s) => line.append(s),
            None => line.append("(N/A: no cache)"),
        }
        i = i + 1;
    }
    assert(cs.take(cs.len() as int) =~= cs);
    line
}

/// The staleness gate at its boundary: a component refreshed at `t` with interval `r` is
/// not due at `t + r`, and is due one millisecond later.
pub proof fn lemma_gate_boundary(c: Component, t: u64, r: u64)
    requires
        c.last_updated_view() == Some(t),
        c.interval_view() == Some(r),
        t + r + 1 <= u64::MAX,
    ensures
        !is_stale(c, (t + r) as u64),
        is_stale(c, (t + r + 1) as u64),
{
}

/// A fault in one component's read during a polling tick leaves every other component,
/// and its entry in the line, as it would have been had that read succeeded; the faulty
/// component, where it was due, shows the fault placeholder in its own slot.
pub proof fn lemma_fault_is_isolated(
    old: Seq<Component>,
    new1: Seq<Component>,
    new2: Seq<Component>,
    r1: Seq<Option<Result<Reading, Fault>>>,
    r2: Seq<Option<Result<Reading, Fault>>>,
    now: u64,
    j: int,
)
    requires
        new1.len() == old.len(),
        new2.len() == old.len(),
        r1.len() == old.len(),
        r2.len() == old.len(),
        0 <= j < old.len(),
        acquired_of(r1[j]) is Err,
        forall|i: int| 0 <= i < old.len() ==> poll_step(#[trigger] old[i], new1[i], r1[i], now),
        forall|i: int| 0 <= i < old.len() ==> poll_step(#[trigger] old[i], new2[i], r2[i], now),
        forall|i: int| 0 <= i < old.len() && i != j ==> #[trigger] r1[i] == r2[i],
    ensures
        forall|i: int|
            0 <= i < old.len() && i != j ==> (#[trigger] new1[i]).sans_cache()
                == new2[i].sans_cache() && entry_of(new1[i]) == entry_of(new2[i]),
        is_stale(old[j], now) ==> entry_of(new1[j]) == fault_text(),
{
    assert forall|i: int| 0 <= i < old.len() && i != j implies (#[trigger] new1[i]).sans_cache()
        == new2[i].sans_cache() && entry_of(new1[i]) == entry_of(new2[i]) by {
        assert(poll_step(old[i], new1[i], r1[i], now));
        assert(poll_step(old[i], new2[i], r2[i], now));
    }
    assert(poll_step(old[j], new1[j], r1[j], now));
}

/// A signal forces a refresh that the staleness gate would refuse: right after a
/// component was refreshed at `t`, a polling tick at `t` leaves it as it is, while a
/// signal bound to it at `t` refreshes it again from the new read.
pub proof fn lemma_signal_bypasses_gate(
    c0: Component,
    c1: Component,
    c2: Component,
    first: Reading,
    second: Option<Result<Reading, Fault>>,
    t: u64,
    signal: u32,
)
    requires
        c0.fits(first),
        updated(c0, c1, Ok(first), t),
        c0.signal_view() == Some(signal),
        signal_step(c1, c2, signal, second, t),
    ensures
        !is_stale(c1, t),
        poll_step(c1, c1, second, t),
        updated(c1, c2, acquired_of(second), t),
{
}

/// Handling a signal needs nothing of the components that it is not bound to: each of
/// them comes out exactly as it went in, whatever was read for it, while each component
/// it is bound to is refreshed from its own read.
pub proof fn lemma_signal_touches_only_bound(
    old: Seq<Component>,
    new: Seq<Component>,
    signal: u32,
    readings: Seq<Option<Result<Reading, Fault>>>,
    now: u64,
)
    requires
        new.len() == old.len(),
        readings.len() == old.len(),
        forall|i: int|
            0 <= i < old.len() ==> signal_step(#[trigger] old[i], new[i], signal, readings[i], now),
    ensures
        forall|i: int|
            0 <= i < old.len() && (#[trigger] old[i]).signal_view() != Some(signal) ==> new[i]
                == old[i],
        forall|i: int|
            0 <= i < old.len() && (#[trigger] old[i]).signal_view() == Some(signal) ==> updated(
                old[i],
                new[i],
                acquired_of(readings[i]),
                now,
            ),
{
    assert forall|i: int|
        0 <= i < old.len() && (#[trigger] old[i]).signal_view() != Some(signal) implies new[i]
            == old[i] by {
        assert(signal_step(old[i], new[i], signal, readings[i], now));
    }
    assert forall|i: int|
        0 <= i < old.len() && (#[trigger] old[i]).signal_view() == Some(signal) implies updated(
            old[i],
            new[i],
            acquired_of(readings[i]),
            now,
        ) by {
        assert(signal_step(old[i], new[i], signal, readings[i], now));
    }
}

/// A successful refresh at `now` stamps `now` and keeps the component's kind and interval.
proof fn lemma_refresh_stamps(old: Component, new: Component, rd: Reading, now: u64)
    requires
        old.fits(rd),
        updated(old, new, Ok(rd), now),
    ensures
        new.last_updated_view() == Some(now),
        new.interval_view() == old.interval_view(),
        forall|x: Reading| #[trigger] new.fits(x) == old.fits(x),
{
}

proof fn lemma_every_tick_upto(
    cs: Seq<Component>,
    times: Seq<u64>,
    readings: Seq<Reading>,
    r: u64,
    k: int,
)
    requires
        cs.len() == times.len() + 1,
        readings.len() == times.len(),
        0 <= k <= times.len(),
        cs[0].last_updated_view().is_none(),
        cs[0].interval_view() == Some(r),
        forall|m: int| 0 <= m < readings.len() ==> cs[0].fits(#[trigger] readings[m]),
        forall|m: int| 0 < m < times.len() ==> #[trigger] times[m] - times[m - 1] > r,
        forall|m: int|
            0 <= m < times.len() ==> poll_step(#[trigger] cs[m], cs[m + 1], Some(Ok(readings[m])), times[m]),
    ensures
        cs[k].interval_view() == Some(r),
        forall|x: Reading| #[trigger] cs[k].fits(x) == cs[0].fits(x),
        k > 0 ==> cs[k].last_updated_view() == Some(times[k - 1]),
        forall|m: int| 0 <= m < k ==> is_stale(#[trigger] cs[m], times[m]),
    decreases k,
{
    if k > 0 {
        lemma_every_tick_upto(cs, times, readings, r, k - 1);
        let j = k - 1;
        assert(poll_step(cs[j], cs[j + 1], Some(Ok(readings[j])), times[j]));
        if j > 0 {
            assert(times[j] - times[j - 1] > r);
        }
        assert(is_stale(cs[j], times[j]));
        assert(cs[0].fits(readings[j]));
        lemma_refresh_stamps(cs[j], cs[k], readings[j], times[j]);
    }
}

/// A component that was never refreshed, polled at ticks that lie further apart than its
/// refresh interval and read successfully each time, is refreshed at every tick.
pub proof fn lemma_short_interval_refreshes_every_tick(
    cs: Seq<Component>,
    times: Seq<u64>,
    readings: Seq<Reading>,
    r: u64,
)
    requires
        cs.len() == times.len() + 1,
        readings.len() == times.len(),
        cs[0].last_updated_view().is_none(),
        cs[0].interval_view() == Some(r),
        forall|m: int| 0 <= m < readings.len() ==> cs[0].fits(#[trigger] readings[m]),
        forall|m: int| 0 < m < times.len() ==> #[trigger] times[m] - times[m - 1] > r,
        forall|m: int|
            0 <= m < times.len() ==> poll_step(#[trigger] cs[m], cs[m + 1], Some(Ok(readings[m])), times[m]),
    ensures
        forall|m: int| 0 <= m < times.len() ==> is_stale(#[trigger] cs[m], times[m]),
{
    lemma_every_tick_upto(cs, times, readings, r, times.len() as int);
}

} // verus!
