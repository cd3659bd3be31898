//! What holds of the manager whatever happens to it.

use crate::cert::manager::{backoff_level, counted, doubled, pow2, Action, Event, Phase, State};
use vstd::prelude::*;

verus! {

/// The state after a whole sequence of events.
pub open spec fn run(start: State, events: Seq<Event>) -> State
    decreases events.len(),
{
    if events.len() == 0 {
        start
    } else {
        run(start, events.drop_last()).next(events.last())
    }
}

/// The state after `rounds` renewal attempts in each of which the login
/// failed: the failure, the pause, and the wait for the next attempt.
pub open spec fn after_failed_logins(start: State, rounds: nat) -> State
    decreases rounds,
{
    if rounds == 0 {
        start
    } else {
        after_failed_logins(start, (rounds - 1) as nat).next(Event::LoginFailed).next(
            Event::TimerFired,
        ).next(Event::TimerFired)
    }
}

/// Whether the event reports that a step failed.
pub open spec fn is_failure(event: Event) -> bool {
    event == Event::LoginFailed || event == Event::IssueFailed || event == Event::WriteFailed
        || event == Event::ParseFailed
}

/// Whether the phase is one that publishes.
pub open spec fn publishes(phase: Phase) -> bool {
    phase == Phase::Publish || phase == Phase::StartPublish
}

/// Whether the phase is a sleep.
pub open spec fn sleeps(phase: Phase) -> bool {
    phase == Phase::Waiting || phase == Phase::AuthBackoff || phase == Phase::IssueBackoff
}

proof fn lemma_pow2_grows(n: nat)
    ensures
        pow2(n) > n,
    decreases n,
{
    if n > 0 {
        lemma_pow2_grows((n - 1) as nat);
    }
}

proof fn lemma_pow2_monotone(a: nat, b: nat)
    requires
        a <= b,
    ensures
        pow2(a) <= pow2(b),
    decreases b,
{
    if a < b {
        lemma_pow2_monotone(a, (b - 1) as nat);
    }
}

/// The pause is never shorter than five seconds nor longer than three
/// hundred, and from the seventh failure on it is three hundred.
pub proof fn backoff_is_bounded(failures: nat)
    ensures
        5 <= backoff_level(failures) <= 300,
        failures >= 6 ==> backoff_level(failures) == 300,
        failures < 6 ==> backoff_level(failures) == 5 * pow2(failures),
{
    lemma_pow2_grows(failures);
    assert(pow2(0) == 1);
    assert(pow2(1) == 2);
    assert(pow2(2) == 4);
    assert(pow2(3) == 8);
    assert(pow2(4) == 16);
    assert(pow2(5) == 32);
    assert(pow2(6) == 64);
    if failures >= 6 {
        lemma_pow2_monotone(6, failures);
    } else {
        lemma_pow2_monotone(failures, 5);
    }
}

/// Doubling the pause is what one more failure asks for.
pub proof fn doubling_follows_the_count(failures: u64)
    ensures
        doubled(backoff_level(failures as nat) as u64) == backoff_level(
            counted(failures) as nat,
        ),
{
    backoff_is_bounded(failures as nat);
    if failures < u64::MAX {
        backoff_is_bounded((failures + 1) as nat);
        assert(pow2((failures + 1) as nat) == 2 * pow2(failures as nat));
    }
}

/// In every state that can be reached the pause matches the count of
/// failures: whatever the event, a well-formed state is followed by one.
pub proof fn pause_matches_failures(state: State, event: Event)
    requires
        state.wf(),
    ensures
        state.next(event).wf(),
{
    doubling_follows_the_count(state.failures);
    backoff_is_bounded(0);
    assert(pow2(0) == 1);
}

/// The same over a whole sequence of events.
pub proof fn pause_matches_failures_throughout(start: State, events: Seq<Event>)
    requires
        start.wf(),
    ensures
        run(start, events).wf(),
    decreases events.len(),
{
    if events.len() > 0 {
        pause_matches_failures_throughout(start, events.drop_last());
        pause_matches_failures(run(start, events.drop_last()), events.last());
    }
}

/// Backoff bounds.  When `rounds` logins have failed one after the other, the
/// manager stands at the login again, has counted them, and answers the next
/// failure with a sleep of five seconds doubled `rounds` times, at most three
/// hundred: the k-th failure in a row sleeps min(5 * 2^(k-1), 300) seconds.
pub proof fn backoff_after_consecutive_failures(start: State, rounds: nat, threshold: Seq<u8>)
    requires
        start.wf(),
        start.phase == Phase::Login,
        start.failures == 0,
        rounds <= u64::MAX,
    ensures
        after_failed_logins(start, rounds).phase == Phase::Login,
        after_failed_logins(start, rounds).failures == rounds,
        after_failed_logins(start, rounds).wf(),
        after_failed_logins(start, rounds).next(Event::LoginFailed).pending(threshold)
            == (Action::Sleep { secs: backoff_level(rounds) as u64 }),
    decreases rounds,
{
    if rounds > 0 {
        backoff_after_consecutive_failures(start, (rounds - 1) as nat, threshold);
        let before = after_failed_logins(start, (rounds - 1) as nat);
        pause_matches_failures(before, Event::LoginFailed);
        pause_matches_failures(before.next(Event::LoginFailed), Event::TimerFired);
    }
    backoff_is_bounded(rounds);
}

/// A login that succeeds wipes out the failures before it: whatever came
/// earlier, a failing request that follows it is answered with the shortest
/// pause.
pub proof fn success_resets_the_pause(state: State, threshold: Seq<u8>)
    requires
        state.phase == Phase::Login,
    ensures
        state.next(Event::LoginSucceeded).next(Event::IssueFailed).pending(threshold)
            == (Action::Sleep { secs: 5 }),
        state.next(Event::LoginSucceeded).wf(),
{
    assert(pow2(0) == 1);
}

/// Renewal never degrades.  A failure publishes nothing: it leaves the count
/// of published identities and the lease in force as they were, and it never
/// leads to a phase that publishes.
pub proof fn failure_publishes_nothing(state: State, event: Event)
    requires
        is_failure(event),
    ensures
        state.next(event).published == state.published,
        state.next(event).lease_secs == state.lease_secs,
        !publishes(state.phase) ==> !publishes(state.next(event).phase),
{
}

/// An identity is published only after material was built from it, and the
/// lease changes only when an identity is published.
pub proof fn publishing_follows_parsing(state: State, event: Event)
    ensures
        publishes(state.next(event).phase) && !publishes(state.phase) ==> event == Event::Parsed
            && (state.phase == Phase::Parse || state.phase == Phase::StartParse),
        state.next(event).published != state.published ==> event == Event::Published
            && publishes(state.phase),
        state.next(event).lease_secs != state.lease_secs ==> event == Event::Published
            && publishes(state.phase),
{
}

/// Monotonic identity.  Over any sequence of events the count of published
/// identities never goes down.
pub proof fn published_never_decreases(start: State, events: Seq<Event>)
    ensures
        run(start, events).published >= start.published,
    decreases events.len(),
{
    if events.len() > 0 {
        published_never_decreases(start, events.drop_last());
    }
}

/// Within one renewal each step follows the one before it: the request
/// follows a login that succeeded, the write follows the request, the
/// parsing follows the write.
pub proof fn renewal_steps_in_order(state: State, event: Event)
    requires
        state.next(event) != state,
    ensures
        state.next(event).phase == Phase::Issue ==> state.phase == Phase::Login && event
            == Event::LoginSucceeded,
        state.next(event).phase == Phase::Write ==> state.phase == Phase::Issue && event is Issued,
        state.next(event).phase == Phase::Parse ==> state.phase == Phase::Write,
        state.next(event).phase == Phase::Login ==> state.phase == Phase::Waiting && event
            == Event::TimerFired,
{
}

/// Shutdown ends every sleep at once, and nothing follows it: no event
/// brings a stopped manager to ask for anything but to leave.
pub proof fn shutdown_is_final(state: State, events: Seq<Event>, threshold: Seq<u8>)
    requires
        sleeps(state.phase),
    ensures
        state.next(Event::Shutdown).phase == Phase::Stopped,
        run(state.next(Event::Shutdown), events) == state.next(Event::Shutdown),
        run(state.next(Event::Shutdown), events).pending(threshold) == Action::Exit,
    decreases events.len(),
{
    if events.len() > 0 {
        shutdown_is_final(state, events.drop_last(), threshold);
    }
}

/// The manager stops only when shutdown is signalled during a sleep.
pub proof fn stopped_only_by_shutdown(state: State, event: Event)
    requires
        state.next(event).phase == Phase::Stopped,
        state.phase != Phase::Stopped,
    ensures
        event == Event::Shutdown,
        sleeps(state.phase),
{
}

/// A startup that failed stays failed.
pub proof fn failed_startup_is_final(state: State, events: Seq<Event>, threshold: Seq<u8>)
    requires
        state.phase == Phase::Failed,
    ensures
        run(state, events) == state,
        run(state, events).pending(threshold) == Action::Abort,
    decreases events.len(),
{
    if events.len() > 0 {
        failed_startup_is_final(state, events.drop_last(), threshold);
    }
}

/// During startup every failure is fatal.
pub proof fn startup_failure_aborts(state: State, event: Event, threshold: Seq<u8>)
    requires
        state.phase == Phase::StartLogin && event == Event::LoginFailed || state.phase
            == Phase::StartIssue && event == Event::IssueFailed || state.phase
            == Phase::StartWrite && event == Event::WriteFailed || state.phase
            == Phase::StartParse && event == Event::ParseFailed,
    ensures
        state.next(event).pending(threshold) == Action::Abort,
{
}

} // verus!
