//! Two callers that tap at the same time, as the lock lets them run: a model
//! of the exclusive lock, and the proof that their taps never mix.

use crate::daemon::{tap, Step};
use vstd::prelude::*;

verus! {

/// How far two callers have come, and what the compositor has seen of them.
/// A caller stands at 0 while it waits for the lock, at 1 once it holds it,
/// one further for each step of its tap that it has carried out, and at 5
/// once it has let the lock go.
pub ghost struct Race {
    pub first: nat,
    pub second: nat,
    pub seen: Seq<Step>,
}

/// Whether a caller at `at` holds the lock.
pub open spec fn holds_lock(at: nat) -> bool {
    1 <= at <= 4
}

/// What a caller at `at` has carried out of the tap of `key`.
pub open spec fn carried_out(key: u32, at: nat) -> Seq<Step> {
    tap(key).take(
        if at == 0 {
            0
        } else if at >= 4 {
            3
        } else {
            at - 1
        },
    )
}

/// Where a caller stands after one turn, and what is seen then: a caller
/// that waits takes the lock unless the other holds it, a caller that holds
/// it carries out the next step of its tap or, after the last, lets go, and
/// a caller that is through does nothing.
pub open spec fn moved(at: nat, other: nat, key: u32, seen: Seq<Step>) -> (nat, Seq<Step>) {
    if at == 0 {
        if holds_lock(other) {
            (at, seen)
        } else {
            (1, seen)
        }
    } else if at <= 3 {
        (at + 1, seen.push(tap(key)[at - 1]))
    } else if at == 4 {
        (5, seen)
    } else {
        (at, seen)
    }
}

/// The race after a turn of the first caller, or of the second.
pub open spec fn turn(race: Race, first_moves: bool, first_key: u32, second_key: u32) -> Race {
    if first_moves {
        let (at, seen) = moved(race.first, race.second, first_key, race.seen);
        Race { first: at, second: race.second, seen }
    } else {
        let (at, seen) = moved(race.second, race.first, second_key, race.seen);
        Race { first: race.first, second: at, seen }
    }
}

/// The race after the turns of `schedule`, which says for each turn whether
/// it is the first caller's.
pub open spec fn race_after(schedule: Seq<bool>, first_key: u32, second_key: u32) -> Race
    decreases schedule.len(),
{
    if schedule.len() == 0 {
        Race { first: 0, second: 0, seen: Seq::empty() }
    } else {
        turn(
            race_after(schedule.drop_last(), first_key, second_key),
            schedule.last(),
            first_key,
            second_key,
        )
    }
}

/// Whether the taps have not mixed: at most one caller holds the lock, and
/// what was seen is what one caller carried out followed by what the other
/// did, the other having begun only after the one was through.
pub open spec fn unmixed(race: Race, first_key: u32, second_key: u32) -> bool {
    &&& race.first <= 5
    &&& race.second <= 5
    &&& !(holds_lock(race.first) && holds_lock(race.second))
    &&& {
        ||| {
            &&& race.seen == carried_out(first_key, race.first) + carried_out(
                second_key,
                race.second,
            )
            &&& race.second >= 1 ==> race.first == 5
        }
        ||| {
            &&& race.seen == carried_out(second_key, race.second) + carried_out(
                first_key,
                race.first,
            )
            &&& race.first >= 1 ==> race.second == 5
        }
    }
}

proof fn lemma_next_step(key: u32, at: nat)
    requires
        1 <= at <= 3,
    ensures
        carried_out(key, at + 1) == carried_out(key, at).push(tap(key)[at - 1]),
        carried_out(key, 0) == Seq::<Step>::empty(),
        carried_out(key, 5) == tap(key),
        carried_out(key, 4) == tap(key),
{
    assert(carried_out(key, at + 1) =~= carried_out(key, at).push(tap(key)[at - 1]));
    assert(carried_out(key, 0) =~= Seq::<Step>::empty());
    assert(carried_out(key, 5) =~= tap(key));
    assert(carried_out(key, 4) =~= tap(key));
}

proof fn lemma_turn_keeps_unmixed(race: Race, first_moves: bool, first_key: u32, second_key: u32)
    requires
        unmixed(race, first_key, second_key),
    ensures
        unmixed(turn(race, first_moves, first_key, second_key), first_key, second_key),
{
    let after = turn(race, first_moves, first_key, second_key);
    let (at, other, key, other_key) = if first_moves {
        (race.first, race.second, first_key, second_key)
    } else {
        (race.second, race.first, second_key, first_key)
    };
    lemma_next_step(key, 1);
    lemma_next_step(other_key, 1);
    if 1 <= at <= 3 {
        lemma_next_step(key, at);
        let mine = carried_out(key, at);
        let theirs = carried_out(other_key, other);
        let step = tap(key)[at - 1];
        assert(other == 0 || other == 5);
        if other == 0 {
            assert(mine + theirs =~= mine);
            assert(theirs + mine =~= mine);
            assert(mine.push(step) + theirs =~= mine.push(step));
            assert(theirs + mine.push(step) =~= mine.push(step));
        } else {
            assert(race.seen == theirs + mine);
            assert((theirs + mine).push(step) =~= theirs + mine.push(step));
        }
    }
}

/// However the turns fall, the taps of two callers do not mix.
pub proof fn lemma_race_is_unmixed(schedule: Seq<bool>, first_key: u32, second_key: u32)
    ensures
        unmixed(race_after(schedule, first_key, second_key), first_key, second_key),
    decreases schedule.len(),
{
    if schedule.len() == 0 {
        lemma_next_step(first_key, 1);
        lemma_next_step(second_key, 1);
        assert(Seq::<Step>::empty() + Seq::<Step>::empty() =~= Seq::<Step>::empty());
    } else {
        lemma_race_is_unmixed(schedule.drop_last(), first_key, second_key);
        lemma_turn_keeps_unmixed(
            race_after(schedule.drop_last(), first_key, second_key),
            schedule.last(),
            first_key,
            second_key,
        );
    }
}

/// Once both callers are through, the compositor has seen one whole tap and
/// then the other, in one of the two orders, whatever the schedule was: down
/// and up of one key, then down and up of the other.
pub proof fn lemma_taps_come_out_whole(schedule: Seq<bool>, first_key: u32, second_key: u32)
    requires
        race_after(schedule, first_key, second_key).first == 5,
        race_after(schedule, first_key, second_key).second == 5,
    ensures
        race_after(schedule, first_key, second_key).seen == tap(first_key) + tap(second_key)
            || race_after(schedule, first_key, second_key).seen == tap(second_key) + tap(
            first_key,
        ),
{
    lemma_race_is_unmixed(schedule, first_key, second_key);
    lemma_next_step(first_key, 1);
    lemma_next_step(second_key, 1);
}

} // verus!
