//! What holds of a rate limiter over any run of checks.

use crate::spam::cooldown_at;
use crate::spam::usage_after;
use crate::spam::usage_of;
use crate::spam::usages_after;
use crate::spam::window_over;
use crate::spam::RateLimit;
use crate::spam::UsageState;
use crate::time::elapsed_between;
use vstd::prelude::*;

verus! {

/// What is recorded for one key after checks at each of `times`, in order.
pub open spec fn usage_after_all(prev: Option<UsageState>, limit: RateLimit, times: Seq<u128>) -> Option<
    UsageState,
>
    decreases times.len(),
{
    if times.len() == 0 {
        prev
    } else {
        usage_after(usage_after_all(prev, limit, times.drop_last()), limit, times.last())
    }
}

/// The answer to check number `i` of a run of checks of one key at `times`.
pub open spec fn answer_at(prev: Option<UsageState>, limit: RateLimit, times: Seq<u128>, i: int) -> Option<
    u128,
> {
    cooldown_at(usage_after_all(prev, limit, times.take(i)), limit, times[i])
}

/// The records of a limiter after a run of checks, each of a key at a time.
pub open spec fn usages_after_all(
    usage: Map<Seq<char>, UsageState>,
    limit: RateLimit,
    checks: Seq<(Seq<char>, u128)>,
) -> Map<Seq<char>, UsageState>
    decreases checks.len(),
{
    if checks.len() == 0 {
        usage
    } else {
        usages_after(
            usages_after_all(usage, limit, checks.drop_last()),
            checks.last().0,
            limit,
            checks.last().1,
        )
    }
}

/// The times at which a run of checks looked at `key`, in order.
pub open spec fn times_of(checks: Seq<(Seq<char>, u128)>, key: Seq<char>) -> Seq<u128>
    decreases checks.len(),
{
    if checks.len() == 0 {
        Seq::empty()
    } else if checks.last().0 == key {
        times_of(checks.drop_last(), key).push(checks.last().1)
    } else {
        times_of(checks.drop_last(), key)
    }
}

/// A check of one key changes the record of that key as [`usage_after`] says
/// and no other record.
pub proof fn lemma_check_touches_one_key(
    usage: Map<Seq<char>, UsageState>,
    key: Seq<char>,
    limit: RateLimit,
    now: u128,
    other: Seq<char>,
)
    ensures
        usage_of(usages_after(usage, key, limit, now), key) == usage_after(
            usage_of(usage, key),
            limit,
            now,
        ),
        other != key ==> usage_of(usages_after(usage, key, limit, now), other) == usage_of(
            usage,
            other,
        ),
{
}

/// An unlimited limit allows every attempt and records nothing: with no
/// attempts allowed or an empty window, every check of every key answers
/// `None`, however many there are.
pub proof fn lemma_unlimited_never_refuses(
    usage: Map<Seq<char>, UsageState>,
    limit: RateLimit,
    checks: Seq<(Seq<char>, u128)>,
)
    requires
        limit.unlimited(),
    ensures
        usages_after_all(usage, limit, checks) == usage,
        forall|i: int|
            0 <= i < checks.len() ==> cooldown_at(
                usage_of(#[trigger] usages_after_all(usage, limit, checks.take(i)), checks[i].0),
                limit,
                checks[i].1,
            ) is None,
    decreases checks.len(),
{
    if checks.len() > 0 {
        lemma_unlimited_never_refuses(usage, limit, checks.drop_last());
    }
}

/// The first checks of a window are allowed, as many as the limit has
/// attempts.
///
/// The run begins on a key that was never seen, or whose window is over at the
/// first check. All checks fall within the window that the first one opens,
/// and there are no more of them than the limit allows. Then every check
/// answers `None`, and the record afterwards counts them all in the window
/// that began at the first.
pub proof fn lemma_window_allows_its_attempts(
    prev: Option<UsageState>,
    limit: RateLimit,
    times: Seq<u128>,
)
    requires
        !limit.unlimited(),
        1 <= times.len() <= limit.attempts(),
        prev matches Some(state) ==> window_over(state, limit, times[0]),
        forall|i: int|
            0 <= i < times.len() ==> elapsed_between(times[0], #[trigger] times[i]) < limit.span(),
    ensures
        forall|i: int| 0 <= i < times.len() ==> (#[trigger] answer_at(prev, limit, times, i)) is None,
        usage_after_all(prev, limit, times) == Some(
            UsageState { attempts: times.len() as usize, window_start: times[0] },
        ),
    decreases times.len(),
{
    let head = times.drop_last();
    if times.len() == 1 {
        assert(head.len() == 0);
        assert(times.take(0).len() == 0);
        assert(usage_after_all(prev, limit, head) == prev);
        assert(times.last() == times[0]);
    } else {
        assert(head[0] == times[0]);
        assert forall|i: int| 0 <= i < head.len() implies elapsed_between(
            head[0],
            #[trigger] head[i],
        ) < limit.span() by {
            assert(head[i] == times[i]);
        }
        lemma_window_allows_its_attempts(prev, limit, head);
        assert forall|i: int| 0 <= i < times.len() implies (#[trigger] answer_at(
            prev,
            limit,
            times,
            i,
        )) is None by {
            if i < head.len() {
                assert(times.take(i) =~= head.take(i));
                assert(times[i] == head[i]);
                assert(answer_at(prev, limit, head, i) is None);
            } else {
                assert(times.take(i) =~= head);
                assert(times[i] == times.last());
            }
        }
    }
}

/// A full window refuses, and tells how long is left.
///
/// Once the window has counted all the attempts that the limit allows, a check
/// before the window is over answers the time that is left of it, which is
/// more than nothing and no more than the whole window, and records nothing.
pub proof fn lemma_full_window_refuses(state: UsageState, limit: RateLimit, now: u128)
    requires
        !limit.unlimited(),
        state.attempts >= limit.attempts(),
        !window_over(state, limit, now),
    ensures
        cooldown_at(Some(state), limit, now) == Some(
            (limit.span() - elapsed_between(state.window_start, now)) as u128,
        ),
        0 < cooldown_at(Some(state), limit, now).unwrap() <= limit.span(),
        usage_after(Some(state), limit, now) == Some(state),
{
}

/// A check after the window is over is allowed and opens the next window,
/// whatever the old one had counted.
pub proof fn lemma_window_over_starts_afresh(state: UsageState, limit: RateLimit, now: u128)
    requires
        !limit.unlimited(),
        window_over(state, limit, now),
    ensures
        cooldown_at(Some(state), limit, now) is None,
        usage_after(Some(state), limit, now) == Some(UsageState { attempts: 1, window_start: now }),
{
}

/// The life of one fixed window.
///
/// Take a limit of `n >= 1` attempts per window of length `w > 0`, and a key
/// that is new or whose window is over. Of `n + 1` checks within `w` of the
/// first, the first `n` are allowed and the last is refused with a wait `d`,
/// `0 < d <= w`. A check at `later`, at least `w` after the first, is allowed
/// again and opens a window of its own that has counted one attempt.
pub proof fn lemma_fixed_window(
    prev: Option<UsageState>,
    limit: RateLimit,
    times: Seq<u128>,
    later: u128,
)
    requires
        !limit.unlimited(),
        times.len() == limit.attempts() + 1,
        prev matches Some(state) ==> window_over(state, limit, times[0]),
        forall|i: int|
            0 <= i < times.len() ==> elapsed_between(times[0], #[trigger] times[i]) < limit.span(),
        elapsed_between(times[0], later) >= limit.span(),
    ensures
        forall|i: int|
            0 <= i < times.len() - 1 ==> (#[trigger] answer_at(prev, limit, times, i)) is None,
        answer_at(prev, limit, times, times.len() - 1) matches Some(d) && 0 < d <= limit.span(),
        cooldown_at(usage_after_all(prev, limit, times), limit, later) is None,
        usage_after(usage_after_all(prev, limit, times), limit, later) == Some(
            UsageState { attempts: 1, window_start: later },
        ),
{
    let n = limit.attempts() as int;
    let allowed = times.drop_last();
    assert(allowed[0] == times[0]);
    assert forall|i: int| 0 <= i < allowed.len() implies elapsed_between(
        allowed[0],
        #[trigger] allowed[i],
    ) < limit.span() by {
        assert(allowed[i] == times[i]);
    }
    lemma_window_allows_its_attempts(prev, limit, allowed);
    let full = UsageState { attempts: n as usize, window_start: times[0] };
    assert(usage_after_all(prev, limit, allowed) == Some(full));
    assert forall|i: int| 0 <= i < times.len() - 1 implies (#[trigger] answer_at(
        prev,
        limit,
        times,
        i,
    )) is None by {
        assert(times.take(i) =~= allowed.take(i));
        assert(times[i] == allowed[i]);
        assert(answer_at(prev, limit, allowed, i) is None);
    }
    assert(times.take(n) =~= allowed);
    assert(times[n] == times.last());
    lemma_full_window_refuses(full, limit, times.last());
    assert(usage_after_all(prev, limit, times) == Some(full));
    lemma_window_over_starts_afresh(full, limit, later);
}

/// Keys do not share anything: what a limiter has recorded for a key after any
/// run of checks is what checks of that key alone would have left, whatever
/// happened to other keys in between.
pub proof fn lemma_keys_are_independent(
    usage: Map<Seq<char>, UsageState>,
    limit: RateLimit,
    checks: Seq<(Seq<char>, u128)>,
    key: Seq<char>,
)
    ensures
        usage_of(usages_after_all(usage, limit, checks), key) == usage_after_all(
            usage_of(usage, key),
            limit,
            times_of(checks, key),
        ),
    decreases checks.len(),
{
    if checks.len() > 0 {
        let head = checks.drop_last();
        let last = checks.last();
        lemma_keys_are_independent(usage, limit, head, key);
        lemma_check_touches_one_key(usages_after_all(usage, limit, head), last.0, limit, last.1, key);
        if last.0 == key {
            assert(times_of(checks, key).drop_last() =~= times_of(head, key));
        }
    }
}

/// Using up the limit of one key takes nothing from another: a run of checks
/// that never looks at `key` leaves its record, and so the answer to its next
/// check, as they were.
pub proof fn lemma_other_keys_do_not_count(
    usage: Map<Seq<char>, UsageState>,
    limit: RateLimit,
    checks: Seq<(Seq<char>, u128)>,
    key: Seq<char>,
    now: u128,
)
    requires
        forall|i: int| 0 <= i < checks.len() ==> (#[trigger] checks[i]).0 != key,
    ensures
        usage_of(usages_after_all(usage, limit, checks), key) == usage_of(usage, key),
        cooldown_at(usage_of(usages_after_all(usage, limit, checks), key), limit, now)
            == cooldown_at(usage_of(usage, key), limit, now),
    decreases checks.len(),
{
    if checks.len() > 0 {
        let head = checks.drop_last();
        let last = checks.last();
        assert forall|i: int| 0 <= i < head.len() implies (#[trigger] head[i]).0 != key by {
            assert(head[i] == checks[i]);
        }
        lemma_other_keys_do_not_count(usage, limit, head, key, now);
        assert(last == checks[checks.len() - 1]);
        lemma_check_touches_one_key(usages_after_all(usage, limit, head), last.0, limit, last.1, key);
    }
}

} // verus!
