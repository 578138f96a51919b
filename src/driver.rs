//! The evaluation's termination state machine. Each substep either continues,
//! ends because the torso or head touched the ground, or ends because the
//! horizon of `TOTAL_SUBSTEPS` substeps was reached. Both ends are terminal.
use vstd::prelude::*;
use crate::schedule::{ControlPoint, TOTAL_SUBSTEPS, SUBSTEPS_PER_CHECKPOINT, control_point};
use crate::topology::{BODY_COUNT, TORSO, HEAD};

verus! {

/// Where an evaluation stands.
#[derive(Clone, Copy, Debug, PartialEq, Eq, Structural)]
pub enum Phase {
    Running,
    Fallen,
    Finished,
}

/// What one substep led to. A terminal outcome carries the score handed in
/// for the substep that ended the evaluation.
#[derive(Clone, Copy, Debug, PartialEq, Eq)]
pub enum Outcome<D> {
    Continue,
    Fallen(D),
    Finished(D),
}

/// The abstract state of an evaluation: substeps completed, and its phase.
pub open spec fn initial_state() -> (nat, Phase) {
    (0, Phase::Running)
}

/// The state after one more substep, given whether it ended in a fall.
/// A terminal state stays as it is.
pub open spec fn advance_spec(s: (nat, Phase), fell: bool) -> (nat, Phase) {
    if s.1 != Phase::Running {
        s
    } else if fell {
        (s.0 + 1, Phase::Fallen)
    } else if s.0 + 1 >= TOTAL_SUBSTEPS {
        (s.0 + 1, Phase::Finished)
    } else {
        (s.0 + 1, Phase::Running)
    }
}

/// The state reached from the start by substeps whose fall flags are `falls`.
pub open spec fn run(falls: Seq<bool>) -> (nat, Phase)
    decreases falls.len(),
{
    if falls.len() == 0 {
        initial_state()
    } else {
        advance_spec(run(falls.drop_last()), falls.last())
    }
}

/// None of the first `n` substeps ended in a fall.
pub open spec fn no_fall_before(falls: Seq<bool>, n: int) -> bool {
    forall|i: int| 0 <= i < n ==> !(#[trigger] falls[i])
}

/// An evaluation in progress.
pub struct Evaluation {
    step: usize,
    phase: Phase,
}

impl View for Evaluation {
    type V = (nat, Phase);

    closed spec fn view(&self) -> (nat, Phase) {
        (self.step as nat, self.phase)
    }
}

impl Evaluation {
    /// The evaluation never runs past the horizon.
    pub closed spec fn wf(&self) -> bool {
        &&& self.step <= TOTAL_SUBSTEPS
        &&& self.phase == Phase::Running ==> self.step < TOTAL_SUBSTEPS
    }

    /// A fresh evaluation, before its first substep.
    pub fn new() -> (r: Evaluation)
        ensures
            r.wf(),
            r@ == initial_state(),
    {
        Evaluation { step: 0, phase: Phase::Running }
    }

    /// Substeps completed so far.
    pub fn steps_taken(&self) -> (r: usize)
        ensures
            r as nat == self@.0,
    {
        self.step
    }

    /// The current phase.
    pub fn phase(&self) -> (r: Phase)
        ensures
            r == self@.1,
    {
        self.phase
    }

    /// Where the next substep sits in the schedule, or none once the
    /// evaluation has ended.
    pub fn next_substep(&self) -> (r: Option<ControlPoint>)
        requires
            self.wf(),
        ensures
            r is None <==> self@.1 != Phase::Running,
            r is Some ==> self@.0 < TOTAL_SUBSTEPS
                && r->0.checkpoint == self@.0 / (SUBSTEPS_PER_CHECKPOINT as nat)
                && r->0.substep == self@.0 % (SUBSTEPS_PER_CHECKPOINT as nat),
    {
        match self.phase {
            Phase::Running => Some(control_point(self.step)),
            _ => None,
        }
    }

    /// Records one substep: `fell` tells whether the torso or head was in
    /// ground contact during it, and `score` is the score at its end.
    pub fn advance<D>(&mut self, fell: bool, score: D) -> (r: Outcome<D>)
        requires
            old(self).wf(),
            old(self)@.1 == Phase::Running,
        ensures
            final(self).wf(),
            final(self)@ == advance_spec(old(self)@, fell),
            final(self)@.1 == Phase::Running ==> r == Outcome::<D>::Continue,
            final(self)@.1 == Phase::Fallen ==> r == Outcome::Fallen(score),
            final(self)@.1 == Phase::Finished ==> r == Outcome::Finished(score),
    {
        self.step = self.step + 1;
        if fell {
            self.phase = Phase::Fallen;
            Outcome::Fallen(score)
        } else if self.step >= TOTAL_SUBSTEPS {
            self.phase = Phase::Finished;
            Outcome::Finished(score)
        } else {
            Outcome::Continue
        }
    }
}

/// Whether the contact flags of a substep end the evaluation: the torso or
/// the head touches the ground.
pub fn is_fall(contact: &[bool; 6]) -> (r: bool)
    ensures
        r == (contact@[TORSO as int] || contact@[HEAD as int]),
{
    contact[TORSO] || contact[HEAD]
}

/// Every run stops at the substep of its first fall, or at the horizon if
/// none of the first `TOTAL_SUBSTEPS` substeps falls, and never later: a
/// running evaluation has seen no fall and is short of the horizon; a fallen
/// one stopped right after its first fall; a finished one ran exactly
/// `TOTAL_SUBSTEPS` substeps without a fall.
pub proof fn lemma_run_stops_at_first_fall(falls: Seq<bool>)
    ensures
        run(falls).0 <= falls.len(),
        run(falls).0 <= TOTAL_SUBSTEPS,
        run(falls).1 == Phase::Running ==> run(falls).0 == falls.len()
            && falls.len() < TOTAL_SUBSTEPS && no_fall_before(falls, falls.len() as int),
        run(falls).1 == Phase::Fallen ==> run(falls).0 >= 1
            && falls[run(falls).0 - 1] && no_fall_before(falls, run(falls).0 - 1),
        run(falls).1 == Phase::Finished ==> run(falls).0 == TOTAL_SUBSTEPS
            && no_fall_before(falls, TOTAL_SUBSTEPS as int),
    decreases falls.len(),
{
    if falls.len() > 0 {
        let prev = falls.drop_last();
        lemma_run_stops_at_first_fall(prev);
        assert forall|i: int| 0 <= i < prev.len() implies prev[i] == falls[i] by {}
    }
}

/// No evaluation runs more than `TOTAL_SUBSTEPS` substeps: after that many
/// substeps, whatever their outcomes, it has ended.
pub proof fn lemma_bounded_execution(falls: Seq<bool>)
    requires
        falls.len() >= TOTAL_SUBSTEPS,
    ensures
        run(falls).1 != Phase::Running,
        run(falls).0 <= TOTAL_SUBSTEPS,
{
    lemma_run_stops_at_first_fall(falls);
}

/// Once an evaluation has ended, later substeps change nothing: its result
/// reflects no substep after the one that ended it.
pub proof fn lemma_terminal_absorbs(falls: Seq<bool>, later: Seq<bool>)
    requires
        run(falls).1 != Phase::Running,
    ensures
        run(falls + later) == run(falls),
    decreases later.len(),
{
    if later.len() > 0 {
        lemma_terminal_absorbs(falls, later.drop_last());
        assert((falls + later).drop_last() =~= falls + later.drop_last());
    } else {
        assert(falls + later =~= falls);
    }
}

} // verus!
