//! A selection cursor over a collection: it moves one step at a time and
//! wraps around at both ends.

use vstd::prelude::*;

verus! {

/// The index after `i` in a collection of `n` elements: the next one, or the
/// first after the last. An empty collection leaves the cursor where it is.
pub open spec fn next_index(i: int, n: int) -> int {
    if n <= 0 {
        i
    } else if i + 1 < n {
        i + 1
    } else {
        0
    }
}

/// The index before `i` in a collection of `n` elements: the one before, or
/// the last before the first. An empty collection leaves the cursor where it
/// is; a cursor that points past the end goes to the last element.
pub open spec fn previous_index(i: int, n: int) -> int {
    if n <= 0 {
        i
    } else if 0 < i < n {
        i - 1
    } else {
        n - 1
    }
}

/// The largest valid index that is not above `i`. Over an empty collection
/// no index is valid and the cursor stays where it is.
pub open spec fn clamp_index(i: int, n: int) -> int {
    if n <= 0 {
        i
    } else if i < n {
        i
    } else {
        n - 1
    }
}

/// Where the cursor stands after `steps` moves forward.
pub open spec fn advance(i: int, n: int, steps: nat) -> int
    decreases steps,
{
    if steps == 0 {
        i
    } else {
        advance(next_index(i, n), n, (steps - 1) as nat)
    }
}

/// Moves the cursor one step forward.
pub fn step_forward(i: usize, n: usize) -> (next: usize)
    ensures
        next == next_index(i as int, n as int),
        n > 0 ==> next < n,
{
    if n == 0 {
        i
    } else if i < n - 1 {
        i + 1
    } else {
        0
    }
}

/// Moves the cursor one step back.
pub fn step_back(i: usize, n: usize) -> (previous: usize)
    ensures
        previous == previous_index(i as int, n as int),
        n > 0 ==> previous < n,
{
    if n == 0 {
        i
    } else if 0 < i && i < n {
        i - 1
    } else {
        n - 1
    }
}

/// Pulls a cursor that points past the end back onto the last element. Over
/// an empty collection the cursor stays where it is.
pub fn clamp(i: usize, n: usize) -> (clamped: usize)
    ensures
        clamped == clamp_index(i as int, n as int),
        n > 0 ==> clamped < n,
        i < n ==> clamped == i,
{
    if n == 0 {
        i
    } else if i < n {
        i
    } else {
        n - 1
    }
}

/// Moving forward `a` steps and then `b` steps is moving forward `a + b`
/// steps.
pub proof fn lemma_advance_split(i: int, n: int, a: nat, b: nat)
    ensures
        advance(i, n, a + b) == advance(advance(i, n, a), n, b),
    decreases a,
{
    if a > 0 {
        lemma_advance_split(next_index(i, n), n, (a - 1) as nat, b);
        assert((a + b - 1) as nat == (a - 1) as nat + b);
    }
}

/// As long as the end is not reached, every step adds one.
pub proof fn lemma_advance_within(i: int, n: int, steps: nat)
    requires
        0 <= i,
        i + steps < n,
    ensures
        advance(i, n, steps) == i + steps,
    decreases steps,
{
    if steps > 0 {
        lemma_advance_within(i + 1, n, (steps - 1) as nat);
    }
}

/// A full turn: in a collection of `n` elements, `n` steps forward from any
/// valid index lead back to it.
pub proof fn lemma_full_turn(i: int, n: int)
    requires
        0 <= i < n,
    ensures
        advance(i, n, n as nat) == i,
{
    let to_end = (n - 1 - i) as nat;
    lemma_advance_within(i, n, to_end);
    lemma_advance_split(i, n, to_end, (i + 1) as nat);
    assert(to_end + (i + 1) as nat == n as nat);
    assert(advance(n - 1, n, (i + 1) as nat) == advance(0, n, i as nat));
    lemma_advance_within(0, n, i as nat);
}

/// One step back from the first element leads to the last.
pub proof fn lemma_back_from_first(n: int)
    requires
        n > 0,
    ensures
        previous_index(0, n) == n - 1,
{
}

} // verus!
