//! The supervisor: the processes it looks after, in the order in which they
//! were launched, and what it does after each round of polling.

use vstd::prelude::*;
use crate::logger::Logger;
use crate::runtime::{after_poll, poll_returns, App, PollErr};
use crate::syscall::{Reply, Step};

verus! {

/// Whether the supervisor is still in its steady state.
#[derive(Debug, Clone, Copy, PartialEq, Eq, Structural)]
pub enum Phase {
    /// No interrupt has been acted on.
    Supervising,
    /// The processes have been told to end; the supervisor waits for them.
    ShuttingDown,
}

/// What the main loop does next.
#[derive(Debug, Clone, Copy, PartialEq, Eq, Structural)]
pub enum Directive {
    /// Wait one tick, then poll every process again.
    Continue,
    /// Ask every process that still runs to end, then go on as for
    /// `Continue`.
    Terminate,
    /// Leave the loop; the supervisor exits with this code.
    Exit { code: i32 },
}

/// The exit code of a supervisor all of whose processes have ended.
pub const GRACEFUL_EXIT_CODE: i32 = 0;

/// The supervisor's processes, in the order of their launch. The order
/// decides nothing but the order of polling and of the termination round.
pub struct Runtime {
    pub apps: Vec<App>,
    pub phase: Phase,
}

/// Whether every process has been seen to terminate.
pub open spec fn all_terminated(apps: Seq<App>) -> bool {
    forall|i: int| 0 <= i < apps.len() ==> (#[trigger] apps[i])@.state is Terminated
}

/// The phase after a round of polling and what the loop does next, from the
/// phase before, whether every process has terminated (`done`), and whether
/// an interrupt was received. The loop ends when nothing is left to
/// supervise. Otherwise the first round that sees an interrupt starts the
/// shutdown; every other round just goes on.
pub open spec fn decision(phase: Phase, done: bool, interrupted: bool) -> (Phase, Directive) {
    if done {
        (phase, Directive::Exit { code: GRACEFUL_EXIT_CODE })
    } else if interrupted && phase == Phase::Supervising {
        (Phase::ShuttingDown, Directive::Terminate)
    } else {
        (phase, Directive::Continue)
    }
}

impl Runtime {
    /// A supervisor with no process yet.
    pub fn init() -> (rt: Runtime)
        ensures
            rt.apps@.len() == 0,
            rt.phase == Phase::Supervising,
    {
        Runtime { apps: Vec::new(), phase: Phase::Supervising }
    }

    /// Whether every process has been seen to terminate.
    pub fn all_terminated(&self) -> (done: bool)
        ensures
            done == all_terminated(self.apps@),
    {
        let mut i: usize = 0;
        while i < self.apps.len()
            invariant
                i <= self.apps.len(),
                forall|j: int| 0 <= j < i ==> (#[trigger] self.apps@[j])@.state is Terminated,
            decreases self.apps.len() - i,
        {
            if self.apps[i].is_running() {
                return false;
            }
            i = i + 1;
        }
        true
    }

    /// Takes one step of the poll pass of process number `index`, and
    /// touches no other process: what is logged goes under the name and the
    /// process id of that process and is what its own read received.
    pub fn poll<L: Logger>(&mut self, index: usize, logger: &L, replies: &[Reply]) -> (r: Result<
        Step<'static, ()>,
        PollErr<L::Error>,
    >)
        requires
            index < old(self).apps@.len(),
        ensures
            final(self).phase == old(self).phase,
            final(self).apps@.len() == old(self).apps@.len(),
            final(self).apps@[index as int]@ == after_poll(
                old(self).apps@[index as int]@,
                replies@,
            ),
            forall|j: int|
                0 <= j < old(self).apps@.len() && j != index ==> final(self).apps@[j] == old(
                    self,
                ).apps@[j],
            poll_returns(logger, old(self).apps@[index as int]@, replies@, r),
    {
        self.apps[index].poll(logger, replies)
    }

    /// Decides, after a round of polling, what the main loop does next.
    /// `interrupted` says whether an interrupt has been received by now.
    pub fn decide(&mut self, interrupted: bool) -> (directive: Directive)
        ensures
            (final(self).phase, directive) == decision(
                old(self).phase,
                all_terminated(old(self).apps@),
                interrupted,
            ),
            final(self).apps == old(self).apps,
    {
        if self.all_terminated() {
            return Directive::Exit { code: GRACEFUL_EXIT_CODE };
        }
        match self.phase {
            Phase::Supervising => {
                if interrupted {
                    self.phase = Phase::ShuttingDown;
                    return Directive::Terminate;
                }
            },
            Phase::ShuttingDown => {},
        }
        Directive::Continue
    }
}

/// One round as the loop sees it: whether every process had terminated, and
/// whether an interrupt had been received.
pub struct Round {
    pub done: bool,
    pub interrupted: bool,
}

/// The phase after a series of rounds.
pub open spec fn phase_after(phase: Phase, rounds: Seq<Round>) -> Phase
    decreases rounds.len(),
{
    if rounds.len() == 0 {
        phase
    } else {
        decision(
            phase_after(phase, rounds.drop_last()),
            rounds.last().done,
            rounds.last().interrupted,
        ).0
    }
}

/// How many of a series of rounds ended in a termination round.
pub open spec fn terminations(phase: Phase, rounds: Seq<Round>) -> nat
    decreases rounds.len(),
{
    if rounds.len() == 0 {
        0
    } else {
        let before = terminations(phase, rounds.drop_last());
        let last = decision(
            phase_after(phase, rounds.drop_last()),
            rounds.last().done,
            rounds.last().interrupted,
        ).1;
        if last == Directive::Terminate {
            before + 1
        } else {
            before
        }
    }
}

/// Whether one of the rounds saw an interrupt while a process still ran.
pub open spec fn interrupt_seen(rounds: Seq<Round>) -> bool {
    exists|i: int| 0 <= i < rounds.len() && (#[trigger] rounds[i]).interrupted && !rounds[i].done
}

/// The processes are told to end exactly once if any round sees an
/// interrupt while one of them still runs, and never otherwise, however many
/// rounds run and however often the interrupt is seen: the round that tells
/// them starts the shutdown, and a supervisor that is shutting down never
/// goes back and never tells them again.
pub proof fn law_termination_round_comes_once(phase: Phase, rounds: Seq<Round>)
    ensures
        terminations(phase, rounds) <= 1,
        phase == Phase::ShuttingDown ==> terminations(phase, rounds) == 0 && phase_after(
            phase,
            rounds,
        ) == Phase::ShuttingDown,
        phase == Phase::Supervising ==> (terminations(phase, rounds) == 1 <==> interrupt_seen(
            rounds,
        )),
        phase == Phase::Supervising ==> (phase_after(phase, rounds) == Phase::ShuttingDown
            <==> interrupt_seen(rounds)),
    decreases rounds.len(),
{
    if rounds.len() > 0 {
        let earlier = rounds.drop_last();
        law_termination_round_comes_once(phase, earlier);
        if interrupt_seen(earlier) {
            let i = choose|i: int|
                0 <= i < earlier.len() && (#[trigger] earlier[i]).interrupted && !earlier[i].done;
            assert(rounds[i] == earlier[i]);
        }
        if interrupt_seen(rounds) && !interrupt_seen(earlier) {
            let i = choose|i: int|
                0 <= i < rounds.len() && (#[trigger] rounds[i]).interrupted && !rounds[i].done;
            if i < earlier.len() {
                assert(earlier[i] == rounds[i]);
            }
        }
    }
}

/// In the steady state, the first round that sees an interrupt while a
/// process still runs is a termination round.
pub proof fn law_interrupt_starts_the_shutdown(interrupted: bool)
    ensures
        decision(Phase::Supervising, false, true) == (Phase::ShuttingDown, Directive::Terminate),
        decision(Phase::Supervising, false, false) == (Phase::Supervising, Directive::Continue),
        decision(Phase::ShuttingDown, false, interrupted) == (
            Phase::ShuttingDown,
            Directive::Continue,
        ),
{
}

} // verus!
