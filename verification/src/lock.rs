//! The lock that a process holds while it writes one of the sidebar's files.
//!
//! The lock is a file beside the written one: whoever creates it holds it, and removes it after.

use vstd::prelude::*;

verus! {

/// How often the lock is tried for.
pub const LOCK_TRIES: u32 = 50;

/// The age behind which a lock was left by a process that died, in milliseconds.
pub const STALE_AFTER: u64 = 5000;

/// How long to wait for another process, in milliseconds.
pub const LOCK_PAUSE: u64 = 10;

/// What came of creating the lock's file.
#[derive(Clone, Copy, PartialEq, Eq, Debug, Structural)]
pub enum LockTry {
    /// It was created: the lock is held.
    Created,
    /// Another process holds the lock, since so many milliseconds where that is known.
    Held(Option<u64>),
    /// It cannot be created.
    Failed,
}

/// What to do next.
#[derive(Clone, Copy, PartialEq, Eq, Debug, Structural)]
pub enum LockStep {
    /// Write, then remove the lock's file.
    Write,
    /// Remove the file that was left behind, and try again.
    Clear,
    /// Wait, and try again.
    Wait,
    /// Do without.
    GiveUp,
}

/// What to do after a try: a stale lock is cleared, a lock of unknown age is waited for.
pub open spec fn after_try(outcome: LockTry) -> LockStep {
    match outcome {
        LockTry::Created => LockStep::Write,
        LockTry::Held(Some(age)) => if age > STALE_AFTER {
            LockStep::Clear
        } else {
            LockStep::Wait
        },
        LockTry::Held(None) => LockStep::Wait,
        LockTry::Failed => LockStep::GiveUp,
    }
}

/// What to do after a try.
pub fn lock_step(outcome: LockTry) -> (r: LockStep)
    ensures
        r == after_try(outcome),
{
    match outcome {
        LockTry::Created => LockStep::Write,
        LockTry::Held(Some(age)) => if age > STALE_AFTER {
            LockStep::Clear
        } else {
            LockStep::Wait
        },
        LockTry::Held(None) => LockStep::Wait,
        LockTry::Failed => LockStep::GiveUp,
    }
}

/// How far a process has come with the lock.
#[derive(Clone, Copy, PartialEq, Eq, Debug, Structural)]
pub enum LockState {
    /// It may try for the lock so many times more.
    Trying(u32),
    /// It holds the lock.
    Held,
    /// It does without.
    GivenUp,
}

/// What to do after a try, when so many were left with it, and how far the process then is. After
/// the last try a lock that is held is cleared or waited for as after any other, and given up.
pub open spec fn turn(tries_left: u32, outcome: LockTry) -> (LockStep, LockState) {
    if tries_left == 0 {
        (LockStep::GiveUp, LockState::GivenUp)
    } else {
        match after_try(outcome) {
            LockStep::Write => (LockStep::Write, LockState::Held),
            LockStep::GiveUp => (LockStep::GiveUp, LockState::GivenUp),
            step => (
                step,
                if tries_left == 1 {
                    LockState::GivenUp
                } else {
                    LockState::Trying((tries_left - 1) as u32)
                },
            ),
        }
    }
}

/// What to do after a try, when so many were left with it, and how far the process then is.
pub fn lock_turn(tries_left: u32, outcome: LockTry) -> (r: (LockStep, LockState))
    ensures
        r == turn(tries_left, outcome),
{
    if tries_left == 0 {
        return (LockStep::GiveUp, LockState::GivenUp);
    }
    match lock_step(outcome) {
        LockStep::Write => (LockStep::Write, LockState::Held),
        LockStep::GiveUp => (LockStep::GiveUp, LockState::GivenUp),
        step => (
            step,
            if tries_left == 1 {
                LockState::GivenUp
            } else {
                LockState::Trying(tries_left - 1)
            },
        ),
    }
}

/// How far a process begins.
pub fn lock_start() -> (r: LockState)
    ensures
        r == LockState::Trying(LOCK_TRIES),
{
    LockState::Trying(LOCK_TRIES)
}

/// How often a process tries for the lock where tries would come to `outcomes`, one after the
/// other, and how far it has come then.
pub open spec fn tried(state: LockState, outcomes: Seq<LockTry>) -> (nat, LockState)
    decreases outcomes.len(),
{
    match state {
        LockState::Trying(left) => if outcomes.len() == 0 {
            (0, state)
        } else {
            let (count, end) = tried(turn(left, outcomes[0]).1, outcomes.drop_first());
            (count + 1, end)
        },
        _ => (0, state),
    }
}

/// The lock is tried for at most `LOCK_TRIES` times whatever the tries come to, then it is held or
/// given up; and it is held only where the last try created it.
pub proof fn law_tries_are_bounded(outcomes: Seq<LockTry>)
    ensures
        ({
            let (count, end) = tried(LockState::Trying(LOCK_TRIES), outcomes);
            &&& count <= LOCK_TRIES && count <= outcomes.len()
            &&& outcomes.len() >= LOCK_TRIES ==> !(end is Trying)
            &&& end == LockState::Held ==> count > 0 && outcomes[count - 1] == LockTry::Created
        }),
{
    lemma_tries(LOCK_TRIES, outcomes);
}

/// A lock that another process keeps is tried for exactly `LOCK_TRIES` times, and given up.
pub proof fn law_kept_locks_are_given_up(outcomes: Seq<LockTry>)
    requires
        outcomes.len() >= LOCK_TRIES,
        forall|i: int| 0 <= i < outcomes.len() ==> (#[trigger] outcomes[i]) is Held,
    ensures
        tried(LockState::Trying(LOCK_TRIES), outcomes) == (LOCK_TRIES as nat, LockState::GivenUp),
{
    lemma_kept(LOCK_TRIES, outcomes);
}

/// How often is tried where some tries are left.
proof fn lemma_tries(left: u32, outcomes: Seq<LockTry>)
    requires
        left > 0,
    ensures
        ({
            let (count, end) = tried(LockState::Trying(left), outcomes);
            &&& count <= left && count <= outcomes.len()
            &&& outcomes.len() >= left ==> !(end is Trying)
            &&& end == LockState::Held ==> count > 0 && outcomes[count - 1] == LockTry::Created
        }),
    decreases left,
{
    if outcomes.len() > 0 {
        let rest = outcomes.drop_first();
        match turn(left, outcomes[0]).1 {
            LockState::Trying(fewer) => {
                lemma_tries(fewer, rest);
                let (count, end) = tried(LockState::Trying(fewer), rest);
                if end == LockState::Held {
                    assert(rest[count - 1] == outcomes[count as int]);
                }
            },
            _ => {
                assert(tried(turn(left, outcomes[0]).1, rest).0 == 0);
            },
        }
    }
}

/// How often is tried for a lock that another process keeps.
proof fn lemma_kept(left: u32, outcomes: Seq<LockTry>)
    requires
        left > 0,
        outcomes.len() >= left,
        forall|i: int| 0 <= i < outcomes.len() ==> (#[trigger] outcomes[i]) is Held,
    ensures
        tried(LockState::Trying(left), outcomes) == (left as nat, LockState::GivenUp),
    decreases left,
{
    let rest = outcomes.drop_first();
    assert(outcomes[0] is Held);
    if left > 1 {
        assert forall|i: int| 0 <= i < rest.len() implies (#[trigger] rest[i]) is Held by {
            assert(rest[i] == outcomes[i + 1]);
        }
        lemma_kept((left - 1) as u32, rest);
    } else {
        assert(tried(LockState::GivenUp, rest) == (0nat, LockState::GivenUp));
    }
}

/// Nothing is written without the lock, and only a lock that is older than any live process
/// holds one for is cleared.
pub proof fn law_only_holders_write(outcome: LockTry)
    ensures
        after_try(outcome) == LockStep::Write <==> outcome == LockTry::Created,
        after_try(outcome) == LockStep::Clear ==> (outcome matches LockTry::Held(Some(age)) && age
            > STALE_AFTER),
{
}

} // verus!
