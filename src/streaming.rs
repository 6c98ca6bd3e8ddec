//! The decisions of the streaming loop. The loop itself, which submits
//! messages to an ingestion session and sleeps, runs outside; at each turn it
//! asks this state machine what to do and reports what happened.
//!
//! `Running` hands out the pool's messages in cycle order until the
//! cancellation flag is seen or a submission fails; both lead to `Draining`,
//! whose only step is to close the session once. Closing consumes the machine
//! and yields the run's result.
use vstd::prelude::*;
use crate::pacer::pause_for;
use crate::pacer::Pacer;
use crate::pool::PoolCycle;

verus! {

/// Where the loop stands.
#[derive(Clone, Copy, Debug, PartialEq, Eq, Structural)]
pub enum Phase {
    /// Ready to submit the next message.
    Running,
    /// A submission is in flight.
    Submitting,
    /// The loop has stopped; the session is to be closed.
    Draining,
}

/// What the loop is to do next.
#[derive(Clone, Copy, Debug, PartialEq, Eq, Structural)]
pub enum Step {
    /// Submit the pool's message at this index.
    Submit(usize),
    /// Close the session, once, and stop.
    Close,
}

/// Why a run failed. A submission failure is the primary cause; a failure to
/// close after it is reported beside it, not in its place.
#[derive(Debug)]
pub enum RunError<E> {
    /// A submission failed; the session was then closed without error.
    Submit(E),
    /// Every submission succeeded, but closing the session failed.
    Close(E),
    /// A submission failed, and closing the session failed too.
    SubmitAndClose { submit: E, close: E },
}

/// The result of a run, from the submission failure that stopped the loop (if
/// one did) and the result of closing the session.
pub open spec fn run_outcome<E>(failure: Option<E>, closed: Result<(), E>) -> Result<(), RunError<E>> {
    match (failure, closed) {
        (None, Ok(())) => Ok(()),
        (None, Err(c)) => Err(RunError::Close(c)),
        (Some(s), Ok(())) => Err(RunError::Submit(s)),
        (Some(s), Err(c)) => Err(RunError::SubmitAndClose { submit: s, close: c }),
    }
}

/// The state of one streaming run over a pool of `pool_len` messages.
pub struct StreamLoop<E> {
    phase: Phase,
    cycle: PoolCycle,
    pacer: Pacer,
    failure: Option<E>,
}

impl<E> StreamLoop<E> {
    /// Where the loop stands.
    pub closed spec fn spec_phase(&self) -> Phase {
        self.phase
    }

    /// How many submissions the loop has asked for.
    pub closed spec fn submissions(&self) -> nat {
        self.cycle.taken()
    }

    /// The number of messages in the pool being cycled.
    pub closed spec fn pool_len(&self) -> nat {
        self.cycle.spec_len()
    }

    /// The delay between message starts, in nanoseconds.
    pub closed spec fn delay(&self) -> nat {
        self.pacer.spec_delay()
    }

    /// The submission failure that stopped the loop, if one did.
    pub closed spec fn failure(&self) -> Option<E> {
        self.failure
    }

    /// The machine's invariant: a failure is only ever held while draining.
    pub closed spec fn wf(&self) -> bool {
        &&& self.cycle.wf()
        &&& self.failure is Some ==> self.phase == Phase::Draining
    }

    /// A run that has submitted nothing, over a pool of `pool_len` messages,
    /// paced by `pacer`.
    pub fn new(pool_len: usize, pacer: Pacer) -> (r: StreamLoop<E>)
        requires
            pool_len > 0,
        ensures
            r.wf(),
            r.spec_phase() == Phase::Running,
            r.submissions() == 0,
            r.pool_len() == pool_len,
            r.delay() == pacer.spec_delay(),
            r.failure() is None,
    {
        StreamLoop { phase: Phase::Running, cycle: PoolCycle::new(pool_len), pacer, failure: None }
    }

    /// Where the loop stands.
    pub fn phase(&self) -> (r: Phase)
        ensures
            r == self.spec_phase(),
    {
        self.phase
    }

    /// Decides the next step, given whether the cancellation flag is raised.
    /// While running, a raised flag stops the loop; otherwise the next message
    /// of the cycle, `submissions mod pool_len`, is to be submitted. Once
    /// draining, the only step is to close.
    pub fn next_step(&mut self, cancelled: bool) -> (r: Step)
        requires
            old(self).wf(),
            old(self).spec_phase() != Phase::Submitting,
        ensures
            final(self).wf(),
            final(self).pool_len() == old(self).pool_len(),
            final(self).delay() == old(self).delay(),
            final(self).failure() == old(self).failure(),
            old(self).spec_phase() == Phase::Running && !cancelled ==> {
                &&& r == Step::Submit((old(self).submissions() % old(self).pool_len()) as usize)
                &&& final(self).spec_phase() == Phase::Submitting
                &&& final(self).submissions() == old(self).submissions() + 1
            },
            old(self).spec_phase() == Phase::Running && cancelled ==> {
                &&& r == Step::Close
                &&& final(self).spec_phase() == Phase::Draining
                &&& final(self).submissions() == old(self).submissions()
            },
            old(self).spec_phase() == Phase::Draining ==> {
                &&& r == Step::Close
                &&& final(self).spec_phase() == Phase::Draining
                &&& final(self).submissions() == old(self).submissions()
            },
    {
        match self.phase {
            Phase::Running => {
                if cancelled {
                    self.phase = Phase::Draining;
                    Step::Close
                } else {
                    let index = self.cycle.next();
                    self.phase = Phase::Submitting;
                    Step::Submit(index)
                }
            },
            _ => Step::Close,
        }
    }

    /// Records how the submission in flight ended, `elapsed_ns` nanoseconds
    /// after it started, and returns how long to pause before the next step.
    /// A success resumes running after the rest of the pacer's delay; a
    /// failure stops the loop at once and is kept as the run's cause.
    pub fn record_submission(&mut self, outcome: Result<(), E>, elapsed_ns: u64) -> (pause_ns: u64)
        requires
            old(self).wf(),
            old(self).spec_phase() == Phase::Submitting,
        ensures
            final(self).wf(),
            final(self).pool_len() == old(self).pool_len(),
            final(self).delay() == old(self).delay(),
            final(self).submissions() == old(self).submissions(),
            outcome is Ok ==> {
                &&& final(self).spec_phase() == Phase::Running
                &&& final(self).failure() is None
                &&& pause_ns == pause_for(old(self).delay(), elapsed_ns as nat)
            },
            outcome matches Err(e) ==> {
                &&& final(self).spec_phase() == Phase::Draining
                &&& final(self).failure() == Some(e)
                &&& pause_ns == 0
            },
    {
        match outcome {
            Ok(()) => {
                self.phase = Phase::Running;
                self.pacer.pause_ns(elapsed_ns)
            },
            Err(e) => {
                self.phase = Phase::Draining;
                self.failure = Some(e);
                0
            },
        }
    }

    /// Records the result of closing the session and ends the run. The run
    /// succeeds only if no submission failed and the close succeeded.
    pub fn record_close(self, closed: Result<(), E>) -> (r: Result<(), RunError<E>>)
        requires
            self.wf(),
            self.spec_phase() == Phase::Draining,
        ensures
            r == run_outcome(self.failure(), closed),
    {
        match (self.failure, closed) {
            (None, Ok(())) => Ok(()),
            (None, Err(c)) => Err(RunError::Close(c)),
            (Some(s), Ok(())) => Err(RunError::Submit(s)),
            (Some(s), Err(c)) => Err(RunError::SubmitAndClose { submit: s, close: c }),
        }
    }
}

} // verus!
