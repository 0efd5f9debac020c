//! Shortest TMS paths between states of the TAP controller.

use crate::state::{replay, TapState};
use vstd::prelude::*;

verus! {

/// No shortest path between two states is longer than this.
pub const MAX_PATH_LEN: usize = 15;

/// Whether some sequence of exactly `steps` clock cycles leads from `from`
/// to `to`.
pub open spec fn reachable_in(from: TapState, to: TapState, steps: nat) -> bool
    decreases steps,
{
    if steps == 0 {
        from == to
    } else {
        reachable_in(from.next(false), to, (steps - 1) as nat)
            || reachable_in(from.next(true), to, (steps - 1) as nat)
    }
}

/// The least number of cycles, counted from `k` on and capped at
/// `MAX_PATH_LEN`, in which `to` can be reached from `from`.
pub open spec fn first_reach(from: TapState, to: TapState, k: nat) -> nat
    decreases MAX_PATH_LEN - k,
{
    if k >= MAX_PATH_LEN || reachable_in(from, to, k) {
        k
    } else {
        first_reach(from, to, k + 1)
    }
}

/// The least number of cycles that lead from `from` to `to`.
pub open spec fn distance(from: TapState, to: TapState) -> nat {
    first_reach(from, to, 0)
}

/// The TMS sequence of `steps` cycles from `from` to `to` that keeps TMS low
/// wherever a low level can still arrive in time.
pub open spec fn path_of(from: TapState, to: TapState, steps: nat) -> Seq<bool>
    decreases steps,
{
    if steps == 0 {
        Seq::empty()
    } else {
        let tms = !reachable_in(from.next(false), to, (steps - 1) as nat);
        seq![tms] + path_of(from.next(tms), to, (steps - 1) as nat)
    }
}

/// The shortest TMS sequence from `from` to `to`; among several of the same
/// length, the one that keeps TMS low for longest.
pub open spec fn shortest_path(from: TapState, to: TapState) -> Seq<bool> {
    path_of(from, to, distance(from, to))
}

/// Cycles needed to reach a state from Test-Logic-Reset.
pub open spec fn depth(s: TapState) -> nat {
    match s {
        TapState::TestLogicReset => 0,
        TapState::RunTestIdle => 1,
        TapState::SelectDrScan => 2,
        TapState::CaptureDr => 3,
        TapState::ShiftDr => 4,
        TapState::Exit1Dr => 4,
        TapState::PauseDr => 5,
        TapState::Exit2Dr => 6,
        TapState::UpdateDr => 5,
        TapState::SelectIrScan => 3,
        TapState::CaptureIr => 4,
        TapState::ShiftIr => 5,
        TapState::Exit1Ir => 5,
        TapState::PauseIr => 6,
        TapState::Exit2Ir => 7,
        TapState::UpdateIr => 6,
    }
}

/// The state one cycle before `s` on a shortest way from Test-Logic-Reset.
pub open spec fn parent(s: TapState) -> TapState {
    match s {
        TapState::TestLogicReset => TapState::TestLogicReset,
        TapState::RunTestIdle => TapState::TestLogicReset,
        TapState::SelectDrScan => TapState::RunTestIdle,
        TapState::CaptureDr => TapState::SelectDrScan,
        TapState::ShiftDr => TapState::CaptureDr,
        TapState::Exit1Dr => TapState::CaptureDr,
        TapState::PauseDr => TapState::Exit1Dr,
        TapState::Exit2Dr => TapState::PauseDr,
        TapState::UpdateDr => TapState::Exit1Dr,
        TapState::SelectIrScan => TapState::SelectDrScan,
        TapState::CaptureIr => TapState::SelectIrScan,
        TapState::ShiftIr => TapState::CaptureIr,
        TapState::Exit1Ir => TapState::CaptureIr,
        TapState::PauseIr => TapState::Exit1Ir,
        TapState::Exit2Ir => TapState::PauseIr,
        TapState::UpdateIr => TapState::Exit1Ir,
    }
}

/// A way of `i` cycles followed by one more cycle is a way of `i + 1`.
pub proof fn lemma_reach_extend(a: TapState, b: TapState, c: TapState, i: nat)
    requires
        reachable_in(a, b, i),
        b.next(false) == c || b.next(true) == c,
    ensures
        reachable_in(a, c, i + 1),
    decreases i,
{
    if i == 0 {
        assert(reachable_in(a.next(false), c, 0) || reachable_in(a.next(true), c, 0));
    } else {
        if reachable_in(a.next(false), b, (i - 1) as nat) {
            lemma_reach_extend(a.next(false), b, c, (i - 1) as nat);
        } else {
            lemma_reach_extend(a.next(true), b, c, (i - 1) as nat);
        }
    }
}

/// Two ways, one after the other, make a way of their lengths added.
pub proof fn lemma_reach_compose(a: TapState, b: TapState, c: TapState, i: nat, j: nat)
    requires
        reachable_in(a, b, i),
        reachable_in(b, c, j),
    ensures
        reachable_in(a, c, i + j),
    decreases i,
{
    if i > 0 {
        if reachable_in(a.next(false), b, (i - 1) as nat) {
            lemma_reach_compose(a.next(false), b, c, (i - 1) as nat, j);
        } else {
            lemma_reach_compose(a.next(true), b, c, (i - 1) as nat, j);
        }
    }
}

/// Every state lies `depth` cycles from Test-Logic-Reset.
pub proof fn lemma_reach_from_reset(s: TapState)
    ensures
        reachable_in(TapState::TestLogicReset, s, depth(s)),
    decreases depth(s),
{
    if s != TapState::TestLogicReset {
        lemma_reach_from_reset(parent(s));
        lemma_reach_extend(TapState::TestLogicReset, parent(s), s, depth(parent(s)));
    }
}

/// Test-Logic-Reset lies five cycles from every state.
pub proof fn lemma_reach_reset(s: TapState)
    ensures
        reachable_in(s, TapState::TestLogicReset, 5),
{
    let r = TapState::TestLogicReset;
    let at1 = s.next(true);
    let at2 = at1.next(true);
    let at3 = at2.next(true);
    let at4 = at3.next(true);
    assert(at4.next(true) == r);
    assert(reachable_in(at4.next(true), r, 0));
    assert(reachable_in(at4, r, 1));
    assert(reachable_in(at3, r, 2));
    assert(reachable_in(at2, r, 3));
    assert(reachable_in(at1, r, 4));
}

/// The transition graph is strongly connected: every state can be reached
/// from every state, by way of Test-Logic-Reset in at most twelve cycles.
pub proof fn lemma_connected(from: TapState, to: TapState)
    ensures
        reachable_in(from, to, 5 + depth(to)),
        5 + depth(to) <= 12,
{
    lemma_reach_reset(from);
    lemma_reach_from_reset(to);
    lemma_reach_compose(from, TapState::TestLogicReset, to, 5, depth(to));
}

/// A replayed sequence is a way of its length.
pub proof fn lemma_replay_reaches(from: TapState, tms: Seq<bool>)
    ensures
        reachable_in(from, replay(from, tms), tms.len()),
    decreases tms.len(),
{
    if tms.len() > 0 {
        lemma_replay_reaches(from.next(tms[0]), tms.subrange(1, tms.len() as int));
    }
}

/// Where a way of `steps` cycles exists, `path_of` is one.
pub proof fn lemma_path_of_arrives(from: TapState, to: TapState, steps: nat)
    requires
        reachable_in(from, to, steps),
    ensures
        path_of(from, to, steps).len() == steps,
        replay(from, path_of(from, to, steps)) == to,
    decreases steps,
{
    if steps > 0 {
        let tms = !reachable_in(from.next(false), to, (steps - 1) as nat);
        let rest = path_of(from.next(tms), to, (steps - 1) as nat);
        lemma_path_of_arrives(from.next(tms), to, (steps - 1) as nat);
        let p = path_of(from, to, steps);
        assert(p =~= seq![tms] + rest);
        assert(p.subrange(1, p.len() as int) =~= rest);
        assert(p[0] == tms);
    }
}

/// `first_reach` returns the first length from `k` on that arrives, given
/// that one does within the cap.
pub proof fn lemma_first_reach(from: TapState, to: TapState, k: nat, bound: nat)
    requires
        k <= bound <= MAX_PATH_LEN,
        reachable_in(from, to, bound),
    ensures
        k <= first_reach(from, to, k) <= bound,
        reachable_in(from, to, first_reach(from, to, k)),
        forall|j: nat| k <= j < first_reach(from, to, k) ==> !reachable_in(from, to, j),
    decreases MAX_PATH_LEN - k,
{
    if k < MAX_PATH_LEN && !reachable_in(from, to, k) {
        lemma_first_reach(from, to, k + 1, bound);
    }
}

/// The shortest path arrives at its target, is at most `MAX_PATH_LEN` cycles
/// long, and no sequence that arrives there is shorter.
pub proof fn lemma_shortest_path(from: TapState, to: TapState)
    ensures
        replay(from, shortest_path(from, to)) == to,
        shortest_path(from, to).len() == distance(from, to),
        distance(from, to) <= 12,
        forall|tms: Seq<bool>| #[trigger]
            replay(from, tms) == to ==> distance(from, to) <= tms.len(),
{
    lemma_connected(from, to);
    lemma_first_reach(from, to, 0, 5 + depth(to));
    lemma_path_of_arrives(from, to, distance(from, to));
    assert forall|tms: Seq<bool>| #[trigger] replay(from, tms) == to implies distance(from, to)
        <= tms.len() by {
        lemma_replay_reaches(from, tms);
    }
}

/// A path shorter than the distance does not exist, and the distance from a
/// state to itself is zero.
pub proof fn lemma_distance_zero(s: TapState)
    ensures
        distance(s, s) == 0,
        shortest_path(s, s) =~= Seq::<bool>::empty(),
{
    assert(reachable_in(s, s, 0));
}

/// Whether row `k` of a table holds, for every state, if `to` lies exactly
/// `k` cycles from it.
pub open spec fn row_ok(row: Seq<bool>, to: TapState, k: nat) -> bool {
    &&& row.len() == 16
    &&& forall|i: int| 0 <= i < 16 ==> row[i] == reachable_in(TapState::at(i as nat), to, k)
}

/// The states from which `to` lies exactly zero cycles away: `to` alone.
fn first_row(to: TapState) -> (row: Vec<bool>)
    ensures
        row_ok(row@, to, 0),
{
    let mut row: Vec<bool> = Vec::new();
    let t: usize = to.index();
    let mut i: usize = 0;
    while i < 16
        invariant
            i <= 16,
            row.len() == i,
            t == to.ordinal(),
            forall|j: int| 0 <= j < i ==> row[j] == (TapState::at(j as nat) == to),
        decreases 16 - i,
    {
        let _ = TapState::from_index(i);
        row.push(i == t);
        i += 1;
    }
    row
}

/// From the states that lie `k` cycles before `to`, those that lie `k + 1`
/// cycles before it: the ones with a successor among the former.
fn next_row(prev: &Vec<bool>, to: TapState, k: usize) -> (row: Vec<bool>)
    requires
        row_ok(prev@, to, k as nat),
    ensures
        row_ok(row@, to, (k + 1) as nat),
{
    let mut row: Vec<bool> = Vec::new();
    let mut i: usize = 0;
    while i < 16
        invariant
            i <= 16,
            row.len() == i,
            row_ok(prev@, to, k as nat),
            forall|j: int|
                0 <= j < i ==> row[j] == reachable_in(TapState::at(j as nat), to, (k + 1) as nat),
        decreases 16 - i,
    {
        let s = match TapState::from_index(i) {
            Some(s) => s,
            None => TapState::UpdateIr,
        };
        let low: usize = s.transition(false).index();
        let high: usize = s.transition(true).index();
        row.push(prev[low] || prev[high]);
        i += 1;
    }
    row
}

/// Finds the shortest TMS sequence that leads from `from` to `to`.
///
/// The search widens, one cycle at a time, the set of states from which the
/// target can be reached, until the set holds `from`; it then walks forward
/// through those sets.
pub fn find_path(from: TapState, to: TapState) -> (path: Vec<bool>)
    ensures
        path@ == shortest_path(from, to),
        replay(from, path@) == to,
        path.len() <= MAX_PATH_LEN,
        forall|tms: Seq<bool>| #[trigger] replay(from, tms) == to ==> path.len() <= tms.len(),
{
    proof {
        lemma_connected(from, to);
        lemma_shortest_path(from, to);
    }
    let f: usize = from.index();
    let mut rows: Vec<Vec<bool>> = Vec::new();
    rows.push(first_row(to));
    let mut k: usize = 0;
    while !rows[k][f]
        invariant
            f == from.ordinal(),
            rows.len() == k + 1,
            k <= 5 + depth(to) <= 12,
            reachable_in(from, to, 5 + depth(to)),
            forall|j: int| 0 <= j <= k ==> row_ok(#[trigger] rows[j]@, to, j as nat),
            first_reach(from, to, k as nat) == distance(from, to),
        decreases 12 - k,
    {
        assert(row_ok(rows[k as int]@, to, k as nat));
        assert(!reachable_in(from, to, k as nat));
        let row = next_row(&rows[k], to, k);
        rows.push(row);
        k += 1;
    }
    assert(row_ok(rows[k as int]@, to, k as nat));
    assert(k == distance(from, to));
    let mut path: Vec<bool> = Vec::new();
    let mut cur = from;
    let mut left: usize = k;
    while left > 0
        invariant
            left <= k <= 12,
            rows.len() == k + 1,
            forall|j: int| 0 <= j <= k ==> row_ok(#[trigger] rows[j]@, to, j as nat),
            reachable_in(cur, to, left as nat),
            path.len() == k - left,
            path@ + path_of(cur, to, left as nat) =~= path_of(from, to, k as nat),
        decreases left,
    {
        let low = cur.transition(false);
        let l: usize = low.index();
        assert(row_ok(rows[left - 1]@, to, (left - 1) as nat));
        let tms = !rows[left - 1][l];
        proof {
            let rest = path_of(cur.next(tms), to, (left - 1) as nat);
            assert(path_of(cur, to, left as nat) =~= seq![tms] + rest);
            assert(path@.push(tms) + rest =~= path@ + (seq![tms] + rest));
        }
        path.push(tms);
        cur = cur.transition(tms);
        left -= 1;
    }
    assert(path_of(cur, to, 0) =~= Seq::<bool>::empty());
    assert(path@ =~= path_of(from, to, k as nat));
    path
}

} // verus!
