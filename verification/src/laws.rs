//! What holds of the state machine as a whole, proved over the
//! mathematical sessions that the contracts of the operations speak about.

use vstd::prelude::*;
use crate::command::Command;
use crate::session::{Session, POMODOROS_PER_CYCLE};
use crate::state::State;

verus! {

/// A session whose clock was set to zero, so that the next tick finds the
/// phase run out.
pub open spec fn run_out(session: Session) -> Session {
    Session { remaining_time: 0, ..session }
}

/// The session after `n` ticks, each of which found the clock at zero.
pub open spec fn forced_ticks(session: Session, n: nat) -> Session
    decreases n,
{
    if n == 0 {
        session
    } else {
        run_out(forced_ticks(session, (n - 1) as nat)).status()
    }
}

/// The session after `n` ticks.
pub open spec fn ticks(session: Session, n: nat) -> Session
    decreases n,
{
    if n == 0 {
        session
    } else {
        ticks(session, (n - 1) as nat).status()
    }
}

/// The session after `n` uses of the toggle control.
pub open spec fn toggles(session: Session, n: nat) -> Session
    decreases n,
{
    if n == 0 {
        session
    } else {
        toggles(session, (n - 1) as nat).toggle()
    }
}

/// The session after a history of commands, applied one after the other.
/// Each entry pairs a command with the identifier that a reset would give
/// to the new session.
pub open spec fn run(session: Session, history: Seq<(Command, Seq<char>)>) -> Session
    decreases history.len(),
{
    if history.len() == 0 {
        session
    } else {
        run(session, history.drop_last()).step(history.last().0, history.last().1)
    }
}

impl Session {
    /// The session with `phase` as the phase that came before.
    pub open spec fn after(self, phase: State) -> Session {
        Session { last_state: phase, ..self }
    }

    /// The session as a pause and the resumption after it leave it: what
    /// it was, but for the remembered phase, which is now the pause.
    pub open spec fn after_pause(self) -> Session {
        self.after(State::Paused)
    }
}

/// A tick in a timed phase either takes exactly one second off the clock and
/// leaves the phase as it is, or the phase has run out and the tick changes
/// it. In both cases nothing else moves but what the transition is about:
/// the identifier stays.
pub proof fn lemma_tick_counts_down_or_changes_phase(session: Session)
    requires
        session.state.is_timed(),
        session.tick_defined(),
    ensures
        !session.timeout() ==> session.status() == session.count_down(),
        session.timeout() ==> session.status().state != session.state,
        session.status().state != session.state || session.status().remaining_time
            == session.remaining_time - 1,
        session.status().id == session.id,
{
}

/// A timed phase with `r` seconds on the clock lasts for exactly `r` ticks,
/// which do nothing but count down, and ends with the tick after them. For
/// work this asks that the cycle has room for the interval.
pub proof fn lemma_phase_ends_after_its_time(session: Session, n: nat)
    requires
        session.state.is_timed(),
        session.state is Work ==> session.pomodoro_count < POMODOROS_PER_CYCLE,
        0 <= session.remaining_time,
        n <= session.remaining_time,
    ensures
        ticks(session, n).state == session.state,
        ticks(session, n).remaining_time == session.remaining_time - n,
        ticks(session, n).pomodoro_count == session.pomodoro_count,
        ticks(session, n).last_state == session.last_state,
        n == session.remaining_time ==> ticks(session, n + 1).state != session.state,
    decreases n,
{
    if n > 0 {
        lemma_phase_ends_after_its_time(session, (n - 1) as nat);
    }
    assert(ticks(session, n + 1) == ticks(session, ((n + 1) - 1) as nat).status());
}

/// A tick is reported as an event exactly when it changes the phase; a
/// toggle and a reset are always reported.
pub proof fn lemma_events_mark_phase_changes(session: Session)
    requires
        session.tick_defined(),
    ensures
        session.event(Command::Status) is Some <==> session.status().state != session.state,
        session.event(Command::Toggle) is Some,
        session.event(Command::Reset) is Some,
{
}

/// Idle and paused sessions are frozen: a tick changes nothing, whatever the
/// clock shows.
pub proof fn lemma_tick_leaves_frozen_phases(session: Session)
    requires
        !session.state.is_timed(),
    ensures
        session.status() == session,
{
}

/// The count goes up by exactly one when a work interval runs out, falls
/// back to zero only when the long break gives way to work, and is left
/// alone by every other tick and by every toggle.
pub proof fn lemma_count_moves_with_the_cycle(session: Session)
    requires
        session.tick_defined(),
    ensures
        session.state is Work && session.timeout() ==> session.status().pomodoro_count
            == session.pomodoro_count + 1,
        session.state is LongBreak && session.timeout() ==> session.status().pomodoro_count == 0,
        !(session.state is Work && session.timeout()) && !(session.state is LongBreak
            && session.timeout()) ==> session.status().pomodoro_count == session.pomodoro_count,
        session.toggle().pomodoro_count == session.pomodoro_count,
{
}

/// Resetting gives the fresh session of the new identifier, whatever the
/// session was before.
pub proof fn lemma_reset_forgets(before: Session, other: Session, fresh: Seq<char>)
    ensures
        before.step(Command::Reset, fresh) == Session::fresh(fresh),
        before.step(Command::Reset, fresh) == other.step(Command::Reset, fresh),
        Session::fresh(fresh).state is Idle,
        Session::fresh(fresh).last_state is Idle,
        Session::fresh(fresh).pomodoro_count == 0,
        Session::fresh(fresh).remaining_time == 25 * 60,
{
}

/// From idle, the toggle control starts work, then pauses it, then resumes
/// it; the clock shows the full work interval throughout.
pub proof fn lemma_toggle_starts_pauses_resumes(session: Session)
    requires
        session.state is Idle,
    ensures
        session.toggle().state is Work,
        session.toggle().toggle().state is Paused,
        session.toggle().toggle().toggle().state is Work,
        session.toggle().toggle().toggle() == session.toggle().after_pause(),
{
}

/// Pausing and resuming a timed phase restores the phase with its count and
/// its clock; only the memory of the previous phase is spent on the pause.
pub proof fn lemma_pause_then_resume_restores(session: Session)
    requires
        session.state.is_timed(),
    ensures
        session.toggle().state is Paused,
        session.toggle().last_state == session.state,
        session.toggle().toggle() == session.after_pause(),
{
}

/// Any number of toggles from idle: the first starts work, and from then on
/// the session alternates between paused and work. No toggle is lost: the
/// phase after `n` of them tells the parity of `n`, and the count stays
/// where it was.
pub proof fn lemma_toggles_alternate(session: Session, n: nat)
    requires
        session.state is Idle,
    ensures
        n == 0 ==> toggles(session, n) == session,
        n > 0 && n % 2 == 1 ==> toggles(session, n).state is Work,
        n > 0 && n % 2 == 0 ==> toggles(session, n).state is Paused && toggles(
            session,
            n,
        ).last_state is Work,
        toggles(session, n).pomodoro_count == session.pomodoro_count,
        toggles(session, n).id == session.id,
    decreases n,
{
    if n > 0 {
        lemma_toggles_alternate(session, (n - 1) as nat);
    }
}

/// The full cycle. Starting in work with nothing completed and letting
/// every phase run out at once: each odd tick completes a work interval and
/// each even tick ends a break. The first three intervals are followed by
/// short breaks; the seventh tick completes the fourth interval and enters
/// the long break, and the eighth returns to work with the count cleared.
pub proof fn lemma_four_pomodoros_make_a_cycle(session: Session)
    requires
        session.state is Work,
        session.pomodoro_count == 0,
    ensures
        forced_ticks(session, 1).state is ShortBreak,
        forced_ticks(session, 1).pomodoro_count == 1,
        forced_ticks(session, 2).state is Work,
        forced_ticks(session, 2).pomodoro_count == 1,
        forced_ticks(session, 3).state is ShortBreak,
        forced_ticks(session, 3).pomodoro_count == 2,
        forced_ticks(session, 4).state is Work,
        forced_ticks(session, 4).pomodoro_count == 2,
        forced_ticks(session, 5).state is ShortBreak,
        forced_ticks(session, 5).pomodoro_count == 3,
        forced_ticks(session, 6).state is Work,
        forced_ticks(session, 6).pomodoro_count == 3,
        forced_ticks(session, 7).state is LongBreak,
        forced_ticks(session, 7).pomodoro_count == 4,
        forced_ticks(session, 8).state is Work,
        forced_ticks(session, 8).pomodoro_count == 0,
        forced_ticks(session, 8) == Session::fresh(session.id).toggle().after(State::LongBreak),
{
    reveal_with_fuel(forced_ticks, 9);
}

/// A fresh session satisfies the session invariant.
pub proof fn lemma_fresh_session_is_sound(id: Seq<char>)
    ensures
        Session::fresh(id).inv(),
{
}

/// No command leads out of the session invariant.
pub proof fn lemma_commands_keep_the_invariant(
    session: Session,
    command: Command,
    fresh: Seq<char>,
)
    requires
        session.inv(),
    ensures
        session.step(command, fresh).inv(),
{
}

/// Under the session invariant the count stays within the cycle, every tick
/// and every break is defined, the clock of a timed phase is not below
/// zero, and the remembered phase differs from the running one.
pub proof fn lemma_invariant_bounds(session: Session)
    requires
        session.inv(),
    ensures
        session.pomodoro_count <= POMODOROS_PER_CYCLE,
        session.tick_defined(),
        session.break_defined(),
        session.remaining_time >= 0,
        session.state.is_timed() ==> session.last_state != session.state,
        session.state is Paused ==> session.last_state.is_timed(),
{
}

/// A history of commands leads from a session that satisfies the invariant
/// to one that does. Fresh sessions satisfy it, so every session that
/// commands have made out of a fresh one does.
pub proof fn lemma_histories_keep_the_invariant(
    session: Session,
    history: Seq<(Command, Seq<char>)>,
)
    requires
        session.inv(),
    ensures
        run(session, history).inv(),
    decreases history.len(),
{
    if history.len() > 0 {
        lemma_histories_keep_the_invariant(session, history.drop_last());
        lemma_commands_keep_the_invariant(
            run(session, history.drop_last()),
            history.last().0,
            history.last().1,
        );
    }
}

/// Histories compose: running one history after another is running the two
/// in a row. Every command therefore works on the result of all the
/// commands before it, and on nothing else.
pub proof fn lemma_histories_compose(
    session: Session,
    first: Seq<(Command, Seq<char>)>,
    second: Seq<(Command, Seq<char>)>,
)
    ensures
        run(session, first + second) == run(run(session, first), second),
    decreases second.len(),
{
    if second.len() == 0 {
        assert(first + second =~= first);
    } else {
        lemma_histories_compose(session, first, second.drop_last());
        assert((first + second).drop_last() =~= first + second.drop_last());
        assert((first + second).last() == second.last());
    }
}

/// A history of `n` toggles is `n` uses of the toggle control, in whatever
/// order the callers came.
pub proof fn lemma_toggle_history(session: Session, history: Seq<(Command, Seq<char>)>)
    requires
        forall|i: int| 0 <= i < history.len() ==> (#[trigger] history[i]).0 is Toggle,
    ensures
        run(session, history) == toggles(session, history.len()),
    decreases history.len(),
{
    if history.len() > 0 {
        lemma_toggle_history(session, history.drop_last());
    }
}

} // verus!
