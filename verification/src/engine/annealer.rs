//! The annealing engine: the bookkeeping of a run, as a machine that its
//! caller drives.
//!
//! A run alternates work that belongs to the caller (proposing a neighbour,
//! evaluating its cost, drawing a random number, computing the next
//! temperature) with decisions that belong to the engine. The engine is in one
//! [`Phase`] at a time, and the phase says which piece of work it waits for:
//!
//! * `Proposing`: a neighbour of the current candidate and its cost, handed in
//!   by [`Annealer::propose`]. A strictly better proposal is accepted at once.
//!   Any other one has to wait for a random draw.
//! * `Drawing`: a uniform draw and the Boltzmann factor of the waiting
//!   proposal, handed in by [`Annealer::settle`], which makes the Metropolis
//!   test on them.
//! * `Cooling`: the temperature for the next iteration, handed in by
//!   [`Annealer::cool`], which ends the iteration.
//! * `Finished`: all iterations are done and [`Annealer::result`] gives the
//!   snapshot of the run.
use crate::engine::scalar::{is_nan_bits, rank_of, Scalar};
use vstd::prelude::*;

verus! {

/// What the engine waits for.
#[derive(Clone, Copy, PartialEq, Eq, Structural, Debug)]
pub enum Phase {
    /// No run has begun.
    Idle,
    /// A proposal for the current iteration.
    Proposing,
    /// A random draw to test the waiting proposal with.
    Drawing,
    /// The temperature for the next iteration.
    Cooling,
    /// Nothing: the run is complete.
    Finished,
}

/// An event arrived in a phase that does not wait for it.
#[derive(Clone, Copy, PartialEq, Eq, Structural, Debug)]
pub struct OutOfPhase {
    /// The phase in which the event is taken.
    pub expected: Phase,
    /// The phase the engine was in.
    pub found: Phase,
}

/// The numbers of a run: where it stands, what it has counted, and the costs
/// and temperatures it carries.
#[derive(Clone, Copy, Debug)]
pub struct RunState {
    /// What the engine waits for.
    pub phase: Phase,
    /// How many iterations a run has.
    pub max_iters: usize,
    /// The 0-based index of the iteration in progress: as many are complete.
    pub iteration: usize,
    /// How many proposals of this run were accepted.
    pub accepted_moves: usize,
    /// How many proposals of this run were rejected.
    pub rejected_moves: usize,
    /// The cost of the candidate the run began with.
    pub start_energy: Scalar,
    /// The cost of the current candidate.
    pub current_energy: Scalar,
    /// The lowest cost seen in this run.
    pub best_energy: Scalar,
    /// The cost of the proposal that waits for a draw, while one does.
    pub pending_energy: Scalar,
    /// Whether the latest decision was an acceptance.
    pub last_accepted: bool,
    /// The temperature the run began with.
    pub initial_temp: Scalar,
    /// The temperature of the iteration in progress.
    pub current_temp: Scalar,
}

impl RunState {
    /// What holds of the numbers in every phase: every decision was counted
    /// once, and the best cost is no higher than the current cost or the cost
    /// the run began with.
    pub open spec fn wf(self) -> bool {
        &&& self.accepted_moves + self.rejected_moves == self.iteration + (if self.phase
            == Phase::Cooling {
            1int
        } else {
            0int
        })
        &&& match self.phase {
            Phase::Idle => self.iteration == 0,
            Phase::Finished => self.iteration == self.max_iters,
            _ => self.iteration < self.max_iters,
        }
        &&& self.best_energy.rank() <= self.current_energy.rank()
        &&& self.best_energy.rank() <= self.start_energy.rank()
    }

    /// The numbers of an engine that was made and has not run. It has no
    /// temperature yet: both temperatures are 0 until a run begins.
    pub open spec fn fresh(initial_energy: Scalar, max_iters: usize) -> RunState {
        RunState {
            phase: Phase::Idle,
            max_iters,
            iteration: 0,
            accepted_moves: 0,
            rejected_moves: 0,
            start_energy: initial_energy,
            current_energy: initial_energy,
            best_energy: initial_energy,
            pending_energy: initial_energy,
            last_accepted: false,
            initial_temp: Scalar::of_bits(0),
            current_temp: Scalar::of_bits(0),
        }
    }

    /// A run begins: the counters are reset, the cost of the current
    /// candidate is the best so far, and a run of no iterations is complete.
    pub open spec fn begun(self, initial_temp: Scalar, energy: Scalar) -> RunState {
        RunState {
            phase: if self.max_iters == 0 {
                Phase::Finished
            } else {
                Phase::Proposing
            },
            max_iters: self.max_iters,
            iteration: 0,
            accepted_moves: 0,
            rejected_moves: 0,
            start_energy: energy,
            current_energy: energy,
            best_energy: energy,
            pending_energy: energy,
            last_accepted: false,
            initial_temp,
            current_temp: initial_temp,
        }
    }

    /// Whether a proposal of this cost is accepted without a random draw: it
    /// is strictly better than the current candidate.
    pub open spec fn improves(self, energy: Scalar) -> bool {
        energy.rank() < self.current_energy.rank()
    }

    /// A proposal of this cost is accepted: it becomes the current candidate,
    /// and the best one if its cost is strictly below the best so far.
    pub open spec fn accepting(self, energy: Scalar) -> RunState {
        RunState {
            phase: Phase::Cooling,
            accepted_moves: (self.accepted_moves + 1) as usize,
            current_energy: energy,
            best_energy: if energy.rank() < self.best_energy.rank() {
                energy
            } else {
                self.best_energy
            },
            last_accepted: true,
            ..self
        }
    }

    /// The waiting proposal is rejected: the current candidate stays.
    pub open spec fn rejecting(self) -> RunState {
        RunState {
            phase: Phase::Cooling,
            rejected_moves: (self.rejected_moves + 1) as usize,
            last_accepted: false,
            ..self
        }
    }

    /// A proposal of this cost arrives: accepted at once if it improves on
    /// the current candidate, else kept waiting for a draw.
    pub open spec fn proposed(self, energy: Scalar) -> RunState {
        if self.improves(energy) {
            self.accepting(energy)
        } else {
            RunState { phase: Phase::Drawing, pending_energy: energy, ..self }
        }
    }

    /// Whether a draw passes the Metropolis test: it lies strictly below the
    /// threshold, which is the Boltzmann factor of the proposal, given by its
    /// bit pattern. No draw passes a threshold that is a NaN.
    pub open spec fn passes(draw: Scalar, threshold: u64) -> bool {
        !is_nan_bits(threshold) && draw.rank() < rank_of(threshold)
    }

    /// The random test on the waiting proposal is made: the proposal is
    /// accepted if the draw passes, else rejected.
    pub open spec fn settled(self, draw: Scalar, threshold: u64) -> RunState {
        if RunState::passes(draw, threshold) {
            self.accepting(self.pending_energy)
        } else {
            self.rejecting()
        }
    }

    /// The iteration ends with the temperature for the next one.
    pub open spec fn cooled(self, next_temp: Scalar) -> RunState {
        RunState {
            phase: if self.iteration + 1 == self.max_iters {
                Phase::Finished
            } else {
                Phase::Proposing
            },
            iteration: (self.iteration + 1) as usize,
            current_temp: next_temp,
            ..self
        }
    }
}

/// What the caller hands to the engine in the course of a run.
pub enum Event {
    /// A run begins at this temperature from the current candidate, which
    /// has this cost.
    Begin { initial_temp: Scalar, energy: Scalar },
    /// A neighbour of the current candidate with this cost.
    Proposal { energy: Scalar },
    /// A uniform draw from `[0, 1)` and the threshold it is held against:
    /// the bit pattern of the Boltzmann factor `exp(-delta / temperature)` of
    /// the waiting proposal, which is a NaN where both cost difference and
    /// temperature are 0.
    Draw { draw: Scalar, threshold: u64 },
    /// The temperature for the next iteration.
    Temperature { next_temp: Scalar },
}

impl RunState {
    /// The numbers after an event. An event that the phase does not wait for
    /// changes nothing; a run may begin in any phase.
    pub open spec fn step(self, event: Event) -> RunState {
        match event {
            Event::Begin { initial_temp, energy } => self.begun(initial_temp, energy),
            Event::Proposal { energy } => if self.phase == Phase::Proposing {
                self.proposed(energy)
            } else {
                self
            },
            Event::Draw { draw, threshold } => if self.phase == Phase::Drawing {
                self.settled(draw, threshold)
            } else {
                self
            },
            Event::Temperature { next_temp } => if self.phase == Phase::Cooling {
                self.cooled(next_temp)
            } else {
                self
            },
        }
    }

    /// The numbers after a sequence of events, taken in order.
    pub open spec fn after(self, events: Seq<Event>) -> RunState
        decreases events.len(),
    {
        if events.len() == 0 {
            self
        } else {
            self.after(events.drop_last()).step(events.last())
        }
    }

    /// No event breaks the bookkeeping: from well-formed numbers every event
    /// leads to well-formed numbers, and the length of a run never changes.
    pub proof fn lemma_step_preserves_wf(self, event: Event)
        requires
            self.wf(),
        ensures
            self.step(event).wf(),
            self.step(event).max_iters == self.max_iters,
    {
    }

    /// Whatever the caller hands in, in whatever order, the bookkeeping
    /// holds: every decision is counted once, and the best cost is no higher
    /// than the current cost or the cost the run began with.
    pub proof fn lemma_after_preserves_wf(self, events: Seq<Event>)
        requires
            self.wf(),
        ensures
            self.after(events).wf(),
            self.after(events).max_iters == self.max_iters,
        decreases events.len(),
    {
        if events.len() > 0 {
            self.lemma_after_preserves_wf(events.drop_last());
            self.after(events.drop_last()).lemma_step_preserves_wf(events.last());
        }
    }

    /// The best cost is a running minimum: within a run it never rises, and
    /// after every event it is the lower of what it was and the current cost.
    pub proof fn lemma_best_is_running_minimum(self, event: Event)
        requires
            self.wf(),
            !(event is Begin),
        ensures
            self.step(event).best_energy.rank() <= self.best_energy.rank(),
            self.step(event).best_energy.rank() == if self.step(event).current_energy.rank()
                < self.best_energy.rank() {
                self.step(event).current_energy.rank()
            } else {
                self.best_energy.rank()
            },
            self.step(event).start_energy == self.start_energy,
    {
    }

    /// A run is determined by its events: two engines made for the same
    /// number of iterations that are handed the same events, from the
    /// beginning of a run on, hold the same numbers, whatever either did
    /// before.
    pub proof fn lemma_run_is_determined(
        self,
        other: RunState,
        initial_temp: Scalar,
        energy: Scalar,
        events: Seq<Event>,
    )
        requires
            self.max_iters == other.max_iters,
        ensures
            self.step(Event::Begin { initial_temp, energy }).after(events) == other.step(
                Event::Begin { initial_temp, energy },
            ).after(events),
    {
    }

    /// Counter law of a complete run: however it went, accepted and rejected
    /// moves add up to the number of iterations, and the best cost is no
    /// higher than the final cost or the cost the run began with.
    pub proof fn lemma_complete_run_counts(self, events: Seq<Event>)
        requires
            self.wf(),
            self.after(events).phase == Phase::Finished,
        ensures
            self.after(events).accepted_moves + self.after(events).rejected_moves
                == self.max_iters,
            self.after(events).iteration == self.max_iters,
            self.after(events).best_energy.rank() <= self.after(events).current_energy.rank(),
            self.after(events).best_energy.rank() <= self.after(events).start_energy.rank(),
    {
        self.lemma_after_preserves_wf(events);
    }

    /// A strictly better proposal is accepted at every temperature and
    /// without a random draw: the engine goes straight on to cooling, with
    /// the proposal as the current candidate.
    pub proof fn lemma_improvement_always_accepted(self, energy: Scalar)
        requires
            self.phase == Phase::Proposing,
            energy.rank() < self.current_energy.rank(),
        ensures
            self.step(Event::Proposal { energy }).phase == Phase::Cooling,
            self.step(Event::Proposal { energy }).last_accepted,
            self.step(Event::Proposal { energy }).current_energy == energy,
    {
    }

    /// A proposal that is not strictly better, one of equal cost included, is
    /// never decided without a draw.
    pub proof fn lemma_tie_needs_draw(self, energy: Scalar)
        requires
            self.phase == Phase::Proposing,
            energy.rank() >= self.current_energy.rank(),
        ensures
            self.step(Event::Proposal { energy }).phase == Phase::Drawing,
            self.step(Event::Proposal { energy }).pending_energy == energy,
            self.step(Event::Proposal { energy }).accepted_moves == self.accepted_moves,
            self.step(Event::Proposal { energy }).rejected_moves == self.rejected_moves,
    {
    }

    /// The Metropolis test: a waiting proposal is accepted exactly if the draw
    /// lies strictly below the threshold, and it is counted either way.
    pub proof fn lemma_draw_decides(self, draw: Scalar, threshold: u64)
        requires
            self.wf(),
            self.phase == Phase::Drawing,
        ensures
            self.step(Event::Draw { draw, threshold }).phase == Phase::Cooling,
            self.step(Event::Draw { draw, threshold }).last_accepted == RunState::passes(
                draw,
                threshold,
            ),
            self.step(Event::Draw { draw, threshold }).accepted_moves + self.step(
                Event::Draw { draw, threshold },
            ).rejected_moves == self.accepted_moves + self.rejected_moves + 1,
            RunState::passes(draw, threshold) ==> self.step(
                Event::Draw { draw, threshold },
            ).current_energy == self.pending_energy,
            !RunState::passes(draw, threshold) ==> self.step(
                Event::Draw { draw, threshold },
            ).current_energy == self.current_energy,
    {
    }

    /// A run of no iterations is complete as it begins: nothing is counted,
    /// and the best and the final cost are the cost it began with. No later
    /// event but a new beginning changes that.
    pub proof fn lemma_empty_run(self, initial_temp: Scalar, energy: Scalar, event: Event)
        requires
            self.max_iters == 0,
        ensures
            self.begun(initial_temp, energy).phase == Phase::Finished,
            self.begun(initial_temp, energy).accepted_moves == 0,
            self.begun(initial_temp, energy).rejected_moves == 0,
            self.begun(initial_temp, energy).best_energy == energy,
            self.begun(initial_temp, energy).current_energy == energy,
            self.begun(initial_temp, energy).current_temp == initial_temp,
            !(event is Begin) ==> self.begun(initial_temp, energy).step(event) == self.begun(
                initial_temp,
                energy,
            ),
    {
    }

    /// One iteration: a proposal, a draw (which is skipped where the proposal
    /// was accepted outright) and a temperature, in this order, count one
    /// decision, end the iteration, and leave the engine waiting for the next
    /// proposal or, after the last iteration, finished.
    pub proof fn lemma_one_iteration(
        self,
        energy: Scalar,
        draw: Scalar,
        threshold: u64,
        next_temp: Scalar,
    )
        requires
            self.wf(),
            self.phase == Phase::Proposing,
        ensures
            ({
                let end = self.step(Event::Proposal { energy }).step(
                    Event::Draw { draw, threshold },
                ).step(Event::Temperature { next_temp });
                &&& end.wf()
                &&& end.iteration == self.iteration + 1
                &&& end.accepted_moves + end.rejected_moves == self.accepted_moves
                    + self.rejected_moves + 1
                &&& end.last_accepted == (energy.rank() < self.current_energy.rank()
                    || RunState::passes(draw, threshold))
                &&& end.current_energy == if end.last_accepted {
                    energy
                } else {
                    self.current_energy
                }
                &&& end.current_temp == next_temp
                &&& end.phase == if self.iteration + 1 == self.max_iters {
                    Phase::Finished
                } else {
                    Phase::Proposing
                }
            }),
    {
    }

    /// A run of `max_iters` iterations takes exactly that many temperature
    /// events: each one ends one iteration.
    pub proof fn lemma_cooling_ends_iteration(self, next_temp: Scalar)
        requires
            self.wf(),
            self.phase == Phase::Cooling,
        ensures
            self.cooled(next_temp).iteration == self.iteration + 1,
            self.cooled(next_temp).phase == Phase::Finished <==> self.iteration + 1
                == self.max_iters,
            self.cooled(next_temp).accepted_moves == self.accepted_moves,
            self.cooled(next_temp).rejected_moves == self.rejected_moves,
    {
    }
}

/// What a call that hands in an event returns: the phase the engine went on
/// to, or the phase it was in where that is not the one the event is for.
pub open spec fn outcome(expected: Phase, found: Phase, next: Phase) -> Result<Phase, OutOfPhase> {
    if found == expected {
        Ok(next)
    } else {
        Err(OutOfPhase { expected, found })
    }
}

/// The snapshot of a complete run.
#[derive(Clone, Debug)]
pub struct AnnealingResult<S> {
    /// The best candidate found during the run.
    pub best_state: S,
    /// The cost of the best candidate.
    pub best_energy: Scalar,
    /// The candidate the run ended on, which may not be the best.
    pub final_state: S,
    /// The cost of the final candidate.
    pub final_energy: Scalar,
    /// The number of iterations performed.
    pub iterations: usize,
    /// The number of accepted moves.
    pub accepted_moves: usize,
    /// The number of rejected moves.
    pub rejected_moves: usize,
    /// The temperature the run began with.
    pub initial_temp: Scalar,
    /// The temperature after the last iteration.
    pub final_temp: Scalar,
}

/// What an [`Annealer`] holds.
pub struct AnnealerView<S> {
    /// The current candidate.
    pub state: S,
    /// The best candidate of the run, once a run has begun.
    pub best_state: Option<S>,
    /// The proposal that waits for a draw, while one does.
    pub pending_state: Option<S>,
    /// Whether detailed statistics were asked for.
    pub collect_stats: bool,
    /// The numbers of the run.
    pub run: RunState,
}

/// The engine: the current candidate, the best one seen, and the numbers of
/// the run.
pub struct Annealer<S: Clone> {
    state: S,
    best_state: Option<S>,
    pending_state: Option<S>,
    collect_stats: bool,
    run: RunState,
}

impl<S: Clone> View for Annealer<S> {
    type V = AnnealerView<S>;

    closed spec fn view(&self) -> AnnealerView<S> {
        AnnealerView {
            state: self.state,
            best_state: self.best_state,
            pending_state: self.pending_state,
            collect_stats: self.collect_stats,
            run: self.run,
        }
    }
}

impl<S> AnnealerView<S> {
    /// What holds of every engine: its numbers are well formed, a best
    /// candidate is held once a run has begun, and a proposal waits while a
    /// draw is awaited.
    pub open spec fn wf(self) -> bool {
        &&& self.run.wf()
        &&& self.run.phase != Phase::Idle ==> self.best_state.is_some()
        &&& self.run.phase == Phase::Drawing ==> self.pending_state.is_some()
    }
}

impl<S: Clone> Annealer<S> {
    #[verifier::type_invariant]
    spec fn inv(self) -> bool {
        self@.wf()
    }

    /// Creates an engine on an initial candidate of the given cost, for runs
    /// of `max_iters` iterations. No iteration is run yet.
    pub fn new(initial_state: S, initial_energy: Scalar, max_iters: usize) -> (r: Self)
        ensures
            r@ == (AnnealerView {
                state: initial_state,
                best_state: None,
                pending_state: None,
                collect_stats: false,
                run: RunState::fresh(initial_energy, max_iters),
            }),
    {
        Annealer {
            state: initial_state,
            best_state: None,
            pending_state: None,
            collect_stats: false,
            run: RunState {
                phase: Phase::Idle,
                max_iters,
                iteration: 0,
                accepted_moves: 0,
                rejected_moves: 0,
                start_energy: initial_energy,
                current_energy: initial_energy,
                best_energy: initial_energy,
                pending_energy: initial_energy,
                last_accepted: false,
                initial_temp: Scalar::zero(),
                current_temp: Scalar::zero(),
            },
        }
    }

    /// Asks for detailed statistics. Nothing else changes.
    pub fn with_stats(self) -> (r: Self)
        ensures
            r@ == (AnnealerView { collect_stats: true, ..self@ }),
    {
        proof {
            use_type_invariant(&self);
        }
        Annealer {
            state: self.state,
            best_state: self.best_state,
            pending_state: self.pending_state,
            collect_stats: true,
            run: self.run,
        }
    }

    /// Begins a run from the current candidate, whose cost is `energy`, at
    /// the temperature `initial_temp`. The counters start from zero and a copy
    /// of the current candidate is the best so far. A proposal that was
    /// waiting is dropped.
    pub fn begin(&mut self, initial_temp: Scalar, energy: Scalar) -> (next: Phase)
        ensures
            final(self)@.run == old(self)@.run.step(Event::Begin { initial_temp, energy }),
            final(self)@.state == old(self)@.state,
            final(self)@.best_state matches Some(best) && cloned(old(self)@.state, best),
            final(self)@.pending_state.is_none(),
            final(self)@.collect_stats == old(self)@.collect_stats,
            next == final(self)@.run.phase,
    {
        proof {
            use_type_invariant(&*self);
        }
        let phase = if self.run.max_iters == 0 {
            Phase::Finished
        } else {
            Phase::Proposing
        };
        self.best_state = Some(self.state.clone());
        self.run = RunState {
            phase,
            max_iters: self.run.max_iters,
            iteration: 0,
            accepted_moves: 0,
            rejected_moves: 0,
            start_energy: energy,
            current_energy: energy,
            best_energy: energy,
            pending_energy: energy,
            last_accepted: false,
            initial_temp,
            current_temp: initial_temp,
        };
        self.pending_state = None;
        phase
    }

    /// Takes a proposal for the iteration in progress: a neighbour of the
    /// current candidate and its cost.
    ///
    /// In the phase `Proposing`, a proposal that is strictly better than the
    /// current candidate is accepted at once, whatever the temperature, and no
    /// random draw is asked for: the engine goes on to `Cooling`. Any other
    /// proposal is kept and the engine goes on to `Drawing`. In any other
    /// phase nothing changes and the proposal is dropped.
    pub fn propose(&mut self, proposal: S, energy: Scalar) -> (r: Result<Phase, OutOfPhase>)
        ensures
            final(self)@.run == old(self)@.run.step(Event::Proposal { energy }),
            final(self)@.collect_stats == old(self)@.collect_stats,
            r == outcome(Phase::Proposing, old(self)@.run.phase, final(self)@.run.phase),
            old(self)@.run.phase != Phase::Proposing ==> *final(self) == *old(self),
            old(self)@.run.phase == Phase::Proposing && old(self)@.run.improves(energy) ==> {
                &&& final(self)@.state == proposal
                &&& final(self)@.pending_state == old(self)@.pending_state
                &&& if energy.rank() < old(self)@.run.best_energy.rank() {
                    final(self)@.best_state matches Some(best) && cloned(proposal, best)
                } else {
                    final(self)@.best_state == old(self)@.best_state
                }
            },
            old(self)@.run.phase == Phase::Proposing && !old(self)@.run.improves(energy) ==> {
                &&& final(self)@.state == old(self)@.state
                &&& final(self)@.best_state == old(self)@.best_state
                &&& final(self)@.pending_state == Some(proposal)
            },
    {
        proof {
            use_type_invariant(&*self);
        }
        if self.run.phase != Phase::Proposing {
            return Err(OutOfPhase { expected: Phase::Proposing, found: self.run.phase });
        }
        if energy.lt(&self.run.current_energy) {
            self.accept(proposal, energy);
            Ok(Phase::Cooling)
        } else {
            self.pending_state = Some(proposal);
            self.run.pending_energy = energy;
            self.run.phase = Phase::Drawing;
            Ok(Phase::Drawing)
        }
    }

    /// Makes the Metropolis test on the waiting proposal, from a uniform draw
    /// and the threshold it is held against: the bit pattern of the Boltzmann
    /// factor `exp(-delta / temperature)` of the proposal.
    ///
    /// In the phase `Drawing`, the proposal is accepted exactly if the
    /// threshold is a number and the draw lies strictly below it. An accepted proposal becomes the
    /// current candidate, and a copy of it the best one where its cost is
    /// strictly below the best so far; a rejected one is dropped. Either way
    /// the decision is counted and the engine goes on to `Cooling`. In any
    /// other phase nothing changes.
    pub fn settle(&mut self, draw: Scalar, threshold: u64) -> (r: Result<Phase, OutOfPhase>)
        ensures
            final(self)@.run == old(self)@.run.step(Event::Draw { draw, threshold }),
            final(self)@.collect_stats == old(self)@.collect_stats,
            r == outcome(Phase::Drawing, old(self)@.run.phase, final(self)@.run.phase),
            old(self)@.run.phase != Phase::Drawing ==> *final(self) == *old(self),
            old(self)@.run.phase == Phase::Drawing ==> final(self)@.pending_state.is_none(),
            old(self)@.run.phase == Phase::Drawing && RunState::passes(draw, threshold) ==> {
                &&& Some(final(self)@.state) == old(self)@.pending_state
                &&& if old(self)@.run.pending_energy.rank() < old(self)@.run.best_energy.rank() {
                    final(self)@.best_state matches Some(best) && cloned(final(self)@.state, best)
                } else {
                    final(self)@.best_state == old(self)@.best_state
                }
            },
            old(self)@.run.phase == Phase::Drawing && !RunState::passes(draw, threshold) ==> {
                &&& final(self)@.state == old(self)@.state
                &&& final(self)@.best_state == old(self)@.best_state
            },
    {
        proof {
            use_type_invariant(&*self);
        }
        if self.run.phase != Phase::Drawing {
            return Err(OutOfPhase { expected: Phase::Drawing, found: self.run.phase });
        }
        let energy = self.run.pending_energy;
        // The draw is over: the proposal leaves its slot before it is decided.
        self.run.phase = Phase::Proposing;
        let mut waiting: Option<S> = None;
        std::mem::swap(&mut self.pending_state, &mut waiting);
        match waiting {
            Some(proposal) => {
                if draw.below_bits(threshold) {
                    self.accept(proposal, energy);
                } else {
                    let run = self.run;
                    self.run = RunState {
                        phase: Phase::Cooling,
                        rejected_moves: run.rejected_moves + 1,
                        last_accepted: false,
                        ..run
                    };
                }
            },
            None => {
                vstd::pervasive::unreached::<()>();
            },
        }
        Ok(Phase::Cooling)
    }

    /// Takes the temperature for the next iteration, which ends the one in
    /// progress.
    ///
    /// In the phase `Cooling`, the engine goes on to `Proposing`, or to
    /// `Finished` after the last iteration. In any other phase nothing
    /// changes.
    pub fn cool(&mut self, next_temp: Scalar) -> (r: Result<Phase, OutOfPhase>)
        ensures
            final(self)@.run == old(self)@.run.step(Event::Temperature { next_temp }),
            final(self)@.state == old(self)@.state,
            final(self)@.best_state == old(self)@.best_state,
            final(self)@.pending_state == old(self)@.pending_state,
            final(self)@.collect_stats == old(self)@.collect_stats,
            r == outcome(Phase::Cooling, old(self)@.run.phase, final(self)@.run.phase),
    {
        proof {
            use_type_invariant(&*self);
        }
        if self.run.phase != Phase::Cooling {
            return Err(OutOfPhase { expected: Phase::Cooling, found: self.run.phase });
        }
        let run = self.run;
        let iteration: usize = run.iteration + 1;
        let phase = if iteration == run.max_iters {
            Phase::Finished
        } else {
            Phase::Proposing
        };
        self.run = RunState { phase, iteration, current_temp: next_temp, ..run };
        Ok(phase)
    }

    /// The snapshot of the run, once it is complete: `None` in every phase
    /// but `Finished`.
    ///
    /// The snapshot holds copies of the best and of the final candidate. Its
    /// counters add up to the number of iterations, and its best cost is no
    /// higher than its final cost or the cost the run began with.
    pub fn result(&self) -> (r: Option<AnnealingResult<S>>)
        ensures
            r.is_some() == (self@.run.phase == Phase::Finished),
            r matches Some(snapshot) ==> {
                &&& self@.best_state matches Some(best) && cloned(best, snapshot.best_state)
                &&& cloned(self@.state, snapshot.final_state)
                &&& snapshot.best_energy == self@.run.best_energy
                &&& snapshot.final_energy == self@.run.current_energy
                &&& snapshot.iterations == self@.run.max_iters
                &&& snapshot.accepted_moves == self@.run.accepted_moves
                &&& snapshot.rejected_moves == self@.run.rejected_moves
                &&& snapshot.initial_temp == self@.run.initial_temp
                &&& snapshot.final_temp == self@.run.current_temp
                &&& snapshot.accepted_moves + snapshot.rejected_moves == snapshot.iterations
                &&& snapshot.best_energy.rank() <= snapshot.final_energy.rank()
                &&& snapshot.best_energy.rank() <= self@.run.start_energy.rank()
            },
    {
        proof {
            use_type_invariant(self);
        }
        if self.run.phase != Phase::Finished {
            return None;
        }
        match &self.best_state {
            Some(best) => Some(
                AnnealingResult {
                    best_state: best.clone(),
                    best_energy: self.run.best_energy,
                    final_state: self.state.clone(),
                    final_energy: self.run.current_energy,
                    iterations: self.run.max_iters,
                    accepted_moves: self.run.accepted_moves,
                    rejected_moves: self.run.rejected_moves,
                    initial_temp: self.run.initial_temp,
                    final_temp: self.run.current_temp,
                },
            ),
            None => vstd::pervasive::unreached(),
        }
    }

    /// The numbers of the run as they stand, which are well formed.
    pub fn run_state(&self) -> (r: RunState)
        ensures
            r == self@.run,
            r.wf(),
    {
        proof {
            use_type_invariant(self);
        }
        self.run
    }

    /// What the engine waits for.
    pub fn phase(&self) -> (r: Phase)
        ensures
            r == self@.run.phase,
    {
        self.run.phase
    }

    /// The current candidate.
    pub fn state(&self) -> (r: &S)
        ensures
            *r == self@.state,
    {
        &self.state
    }

    /// The best candidate of the run, once a run has begun.
    pub fn best_state(&self) -> (r: Option<&S>)
        ensures
            r.is_some() == self@.best_state.is_some(),
            r matches Some(best) ==> Some(*best) == self@.best_state,
            self@.run.phase != Phase::Idle ==> r.is_some(),
    {
        proof {
            use_type_invariant(self);
        }
        self.best_state.as_ref()
    }

    /// Makes an accepted proposal the current candidate, and a copy of it the
    /// best one where its cost is strictly below the best so far.
    fn accept(&mut self, proposal: S, energy: Scalar)
        requires
            old(self)@.run.phase == Phase::Proposing || old(self)@.run.phase == Phase::Drawing,
        ensures
            final(self)@.run == old(self)@.run.accepting(energy),
            final(self)@.state == proposal,
            final(self)@.pending_state == old(self)@.pending_state,
            final(self)@.collect_stats == old(self)@.collect_stats,
            if energy.rank() < old(self)@.run.best_energy.rank() {
                final(self)@.best_state matches Some(best) && cloned(proposal, best)
            } else {
                final(self)@.best_state == old(self)@.best_state
            },
    {
        proof {
            use_type_invariant(&*self);
        }
        let improved = energy.lt(&self.run.best_energy);
        if improved {
            self.best_state = Some(proposal.clone());
        }
        self.state = proposal;
        let run = self.run;
        self.run = RunState {
            phase: Phase::Cooling,
            accepted_moves: run.accepted_moves + 1,
            current_energy: energy,
            best_energy: if improved { energy } else { run.best_energy },
            last_accepted: true,
            ..run
        };
    }
}

} // verus!
