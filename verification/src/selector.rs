//! The bark selector: a uniform random choice over a list of candidate
//! strings that avoids repeating the currently displayed value whenever any
//! alternative exists.

use vstd::prelude::*;

use rand::Rng;

verus! {

/// The one configuration error: a selection was attempted over an empty
/// candidate list.
#[derive(Clone, Copy, Debug, PartialEq, Eq, Structural)]
pub enum SelectError {
    EmptyCandidates,
}

/// The views of a list of strings.
pub open spec fn views_of(ss: Seq<String>) -> Seq<Seq<char>> {
    ss.map(|i: int, s: String| s@)
}

/// What a successful selection promises of its outcome `out`: it is one of
/// the candidates, it differs from `current` whenever any candidate does, and
/// it is `current` itself when every candidate equals `current`.
pub open spec fn is_valid_pick(current: Seq<char>, candidates: Seq<Seq<char>>, out: Seq<char>) -> bool {
    &&& candidates.contains(out)
    &&& if exists|i: int| 0 <= i < candidates.len() && candidates[i] != current {
            out != current
        } else {
            out == current
        }
}

/// Relies on rand's `thread_rng` and `Rng::gen_range`: the draw lies in the
/// given range, so the result is below `n`; the range `0..n` is non-empty by
/// the precondition, so the call cannot panic. Nothing is claimed about which
/// value comes back: every caller is verified for every outcome.
#[verifier::external_body]
fn random_below(n: usize) -> (r: usize)
    requires
        n > 0,
    ensures
        r < n,
{
    rand::thread_rng().gen_range(0..n)
}

/// Draw a candidate uniformly at random among those differing from `current`;
/// when every candidate equals `current`, return `current` at once, and when
/// there is no candidate at all, report the configuration error.
pub fn pick_different(current: &String, candidates: &Vec<String>) -> (r: Result<String, SelectError>)
    ensures
        match r {
            Ok(out) => candidates@.len() > 0 && is_valid_pick(current@, views_of(candidates@), out@),
            Err(e) => candidates@.len() == 0 && e == SelectError::EmptyCandidates,
        },
{
    if candidates.len() == 0 {
        return Err(SelectError::EmptyCandidates);
    }
    let ghost cands: Seq<Seq<char>> = views_of(candidates@);
    let mut others: Vec<usize> = Vec::new();
    let mut i: usize = 0;
    while i < candidates.len()
        invariant
            i <= candidates@.len(),
            cands == views_of(candidates@),
            forall|k: int| 0 <= k < others@.len()
                ==> others@[k] < candidates@.len() && cands[others@[k] as int] != current@,
            others@.len() == 0 ==> forall|j: int| 0 <= j < i ==> cands[j] == current@,
        decreases candidates@.len() - i,
    {
        if !(candidates[i] == *current) {
            others.push(i);
        }
        i += 1;
    }
    if others.len() == 0 {
        // Every candidate equals the current value: the anti-repeat demand is
        // unsatisfiable, so the current value itself is returned.
        assert(cands[0] == current@);
        Ok(current.clone())
    } else {
        let k = random_below(others.len());
        let idx = others[k];
        let out = candidates[idx].clone();
        assert(cands[idx as int] == out@);
        Ok(out)
    }
}

/// Law: over a candidate list holding at least two distinct values, a valid
/// selection never repeats the current value.
pub proof fn lemma_pick_avoids_repeat(current: Seq<char>, candidates: Seq<Seq<char>>, out: Seq<char>)
    requires
        exists|i: int, j: int|
            0 <= i < candidates.len() && 0 <= j < candidates.len() && candidates[i] != candidates[j],
        is_valid_pick(current, candidates, out),
    ensures
        out != current,
{
    let (i, j) = choose|i: int, j: int|
        0 <= i < candidates.len() && 0 <= j < candidates.len() && candidates[i] != candidates[j];
    if candidates[i] == current {
        assert(candidates[j] != current);
    } else {
        assert(candidates[i] != current);
    }
}

/// Law: when every candidate equals `x`, the only valid selection is `x`
/// itself.
pub proof fn lemma_pick_degenerate(x: Seq<char>, candidates: Seq<Seq<char>>, out: Seq<char>)
    requires
        candidates.len() > 0,
        forall|i: int| 0 <= i < candidates.len() ==> candidates[i] == x,
        is_valid_pick(x, candidates, out),
    ensures
        out == x,
{
}

} // verus!
