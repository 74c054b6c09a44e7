//! Identifiers of stored rows: drawn at random, tried against the store and
//! drawn again while the store reports a collision.

use vstd::prelude::*;
use crate::database::StorageError;

verus! {

/// The one 32-bit value that never identifies a row.
pub const NO_ID: u32 = 0xFFFF_FFFF;

/// How many candidates are tried before a collision is reported to the
/// caller.
pub const MAX_ATTEMPTS: usize = 1000;

/// Draws a candidate with `rand::random::<u32>()`. Every 32-bit value may
/// come out, the sentinel included, so nothing is claimed of the result. The
/// call panics only where the operating system has no entropy to seed the
/// generator of the thread with.
#[verifier::external_body]
pub(crate) fn random_id() -> (candidate: u32) {
    rand::random::<u32>()
}

/// What follows one attempt to store a row under a candidate identifier.
#[derive(Clone, Copy, Debug, PartialEq, Eq, Structural)]
pub enum Attempt {
    /// The row is stored under the candidate.
    Stored,
    /// The candidate is taken: draw another.
    Retry,
    /// The store failed for another reason: stop.
    Abort,
}

/// The step that an insert's outcome calls for.
pub open spec fn attempt_of(outcome: Result<(), StorageError>) -> Attempt {
    match outcome {
        Ok(()) => Attempt::Stored,
        Err(StorageError::ConstraintViolation) => Attempt::Retry,
        Err(StorageError::Other) => Attempt::Abort,
    }
}

/// Decides what follows an insert: a violated constraint is never an error
/// of its own, it asks for a new candidate.
pub fn judge(outcome: Result<(), StorageError>) -> (next: Attempt)
    ensures
        next == attempt_of(outcome),
{
    match outcome {
        Ok(()) => Attempt::Stored,
        Err(StorageError::ConstraintViolation) => Attempt::Retry,
        Err(StorageError::Other) => Attempt::Abort,
    }
}

/// What follows one candidate in the search for a free identifier.
#[derive(Clone, Copy, Debug, PartialEq, Eq, Structural)]
pub enum Step {
    /// The row is stored under this identifier: the search is over.
    Stored(u32),
    /// Draw another candidate.
    Again,
    /// The search is over without a row.
    Failed(StorageError),
}

/// A candidate with the answer of the store, or with none where the
/// candidate was not offered.
pub struct Try {
    pub candidate: u32,
    pub answer: Option<Result<(), StorageError>>,
}

/// Whether a candidate is offered to the store: every identifier but the
/// sentinel is.
pub open spec fn offered(candidate: u32) -> bool {
    candidate != NO_ID
}

/// The rule of the search. `attempts_made` candidates were drawn before this
/// one.
///
/// A candidate that the store accepted ends the search with its identifier.
/// A failure that is no collision ends it with that failure. A collision, and
/// a candidate that was not offered, ask for another candidate, unless this
/// was the last of `MAX_ATTEMPTS`: then the search ends with a violated
/// constraint.
pub open spec fn step_of(
    attempts_made: nat,
    candidate: u32,
    answer: Option<Result<(), StorageError>>,
) -> Step {
    let attempt = if offered(candidate) && answer is Some {
        attempt_of(answer->Some_0)
    } else {
        Attempt::Retry
    };
    match attempt {
        Attempt::Stored => Step::Stored(candidate),
        Attempt::Abort => Step::Failed(StorageError::Other),
        Attempt::Retry => if attempts_made + 1 < MAX_ATTEMPTS {
            Step::Again
        } else {
            Step::Failed(StorageError::ConstraintViolation)
        },
    }
}

/// Where the search stands after a sequence of tries, the first of them made
/// after `attempts_made` others: at the first step that ends it, or still
/// asking for a candidate.
pub open spec fn search(attempts_made: nat, tries: Seq<Try>) -> Step
    decreases tries.len(),
{
    if tries.len() == 0 {
        Step::Again
    } else {
        match step_of(attempts_made, tries[0].candidate, tries[0].answer) {
            Step::Again => search(attempts_made + 1, tries.drop_first()),
            step => step,
        }
    }
}

/// Whether a try asks for another candidate: the store reported a collision,
/// or the candidate was not offered.
pub open spec fn refused(attempt: Try) -> bool {
    !offered(attempt.candidate) || attempt.answer == Some(
        Err::<(), StorageError>(StorageError::ConstraintViolation),
    )
}

/// Says whether a candidate is offered to the store.
pub fn is_offered(candidate: u32) -> (offer: bool)
    ensures
        offer == offered(candidate),
{
    candidate != NO_ID
}

/// Decides what follows one candidate, by the rule of the search.
pub fn next_step(attempts_made: usize, candidate: u32, answer: Option<Result<(), StorageError>>) -> (step:
    Step)
    ensures
        step == step_of(attempts_made as nat, candidate, answer),
{
    let attempt = match answer {
        Some(outcome) => if is_offered(candidate) {
            judge(outcome)
        } else {
            Attempt::Retry
        },
        None => Attempt::Retry,
    };
    match attempt {
        Attempt::Stored => Step::Stored(candidate),
        Attempt::Abort => Step::Failed(StorageError::Other),
        Attempt::Retry => if attempts_made < MAX_ATTEMPTS - 1 {
            Step::Again
        } else {
            Step::Failed(StorageError::ConstraintViolation)
        },
    }
}

/// As long as every try is refused and the cap is not reached, the search
/// goes on.
pub proof fn lemma_refusals_go_on(attempts_made: nat, tries: Seq<Try>)
    requires
        attempts_made + tries.len() < MAX_ATTEMPTS,
        forall|i: int| 0 <= i < tries.len() ==> refused(#[trigger] tries[i]),
    ensures
        search(attempts_made, tries) == Step::Again,
    decreases tries.len(),
{
    if tries.len() > 0 {
        assert(refused(tries[0]));
        assert forall|i: int| 0 <= i < tries.drop_first().len() implies refused(
            #[trigger] tries.drop_first()[i],
        ) by {
            assert(tries.drop_first()[i] == tries[i + 1]);
        }
        lemma_refusals_go_on(attempts_made + 1, tries.drop_first());
    }
}

/// A search goes through its tries one after the other: what follows the
/// first stretch, if it asks for more, is what follows the rest.
pub proof fn lemma_search_split(attempts_made: nat, first: Seq<Try>, rest: Seq<Try>)
    requires
        search(attempts_made, first) == Step::Again,
    ensures
        search(attempts_made, first + rest) == search(attempts_made + first.len(), rest),
    decreases first.len(),
{
    if first.len() == 0 {
        assert(first + rest =~= rest);
    } else {
        assert((first + rest)[0] == first[0]);
        assert((first + rest).drop_first() =~= first.drop_first() + rest);
        lemma_search_split(attempts_made + 1, first.drop_first(), rest);
    }
}

/// Collisions are retried and never surface: any number of refused
/// candidates below the cap, followed by one that the store accepts, ends
/// with the row stored under that candidate. Followed by a failure that is
/// no collision it ends with that failure, and a refusal of the last of
/// `MAX_ATTEMPTS` candidates ends with a violated constraint.
pub proof fn lemma_search_ends(refusals: Seq<Try>, last: Try)
    requires
        refusals.len() < MAX_ATTEMPTS,
        forall|i: int| 0 <= i < refusals.len() ==> refused(#[trigger] refusals[i]),
    ensures
        search(0, refusals.push(last)) == step_of(refusals.len(), last.candidate, last.answer),
        offered(last.candidate) && last.answer == Some(Ok::<(), StorageError>(())) ==> search(
            0,
            refusals.push(last),
        ) == Step::Stored(last.candidate),
        offered(last.candidate) && last.answer == Some(
            Err::<(), StorageError>(StorageError::Other),
        ) ==> search(0, refusals.push(last)) == Step::Failed(StorageError::Other),
        refused(last) && refusals.len() + 1 == MAX_ATTEMPTS ==> search(0, refusals.push(last))
            == Step::Failed(StorageError::ConstraintViolation),
{
    lemma_refusals_go_on(0, refusals);
    lemma_search_split(0, refusals, seq![last]);
    assert(refusals + seq![last] =~= refusals.push(last));
    let one = seq![last];
    assert(one.drop_first() =~= Seq::<Try>::empty());
    assert(search(refusals.len(), one) == match step_of(
        refusals.len(),
        last.candidate,
        last.answer,
    ) {
        Step::Again => search(refusals.len() + 1, one.drop_first()),
        step => step,
    });
}

} // verus!
