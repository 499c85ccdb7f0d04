//! The frame loop: which piece of outside work comes next, given what the
//! last one reported.
//!
//! The controller performs no work itself. Each call of [`FrameLoop::step`]
//! takes one event and answers with the action to perform; the result of
//! that action comes back as the next event.

use vstd::prelude::*;
use crate::pipeline::WorkgroupGrid;
use crate::swapchain::{Extent, ImageHandle, Swapchain, SwapchainCreationError, SwapchainPlan};

verus! {

/// Where in a tick the loop stands: the work whose result it waits for.
#[derive(Clone, Copy, Debug, PartialEq, Eq, Structural)]
pub enum Phase {
    /// Between ticks.
    Idle,
    /// Finished submissions are being released.
    Reclaim,
    /// The chain is being renewed.
    Recreate,
    /// The next presentable image is being acquired.
    Acquire,
    /// The frame's commands are being submitted and presented.
    Submit,
}

/// The future that gates the next submission.
#[derive(Clone, Copy, Debug, PartialEq, Eq, Structural)]
pub enum Retained {
    /// A future that is complete already.
    Satisfied,
    /// The future of the last frame that was submitted and presented.
    InFlight,
    /// None: the future has moved into the submission that is under way.
    Taken,
}

/// How renewing the chain ended.
#[derive(Clone, Copy, Debug, PartialEq, Eq, Structural)]
pub enum RecreateOutcome {
    /// The surface made a chain of `image_count` images.
    Created { image_count: u32 },
    Rejected,
}

/// How acquiring an image ended.
#[derive(Clone, Copy, Debug, PartialEq, Eq, Structural)]
pub enum AcquireOutcome {
    Ready { index: u32, suboptimal: bool },
    OutOfDate,
    Failed,
}

/// How submitting and presenting a frame ended.
#[derive(Clone, Copy, Debug, PartialEq, Eq, Structural)]
pub enum SubmitOutcome {
    Presented,
    OutOfDate,
    Failed,
}

/// What the loop is told.
#[derive(Clone, Copy, Debug, PartialEq, Eq, Structural)]
pub enum Event {
    /// The window changed its size.
    Resize,
    CloseRequested,
    /// The display asks for a frame; `window` is the window's size now.
    RefreshTick { window: Extent },
    Reclaimed,
    Recreated(RecreateOutcome),
    Acquired(AcquireOutcome),
    Submitted(SubmitOutcome),
}

/// A failure that ends the loop.
#[derive(Clone, Copy, Debug, PartialEq, Eq, Structural)]
pub enum FrameError {
    Swapchain(SwapchainCreationError),
    /// Acquiring failed otherwise than by a stale chain, or named an image
    /// that the chain does not have.
    AcquireFailed,
}

/// What the loop asks for.
#[derive(Clone, Copy, Debug, PartialEq, Eq)]
pub enum Action {
    /// Nothing: wait for the next event.
    Rest,
    /// Leave the loop.
    Exit,
    /// Release what finished submissions hold, without blocking.
    Reclaim,
    /// Renew the chain by `plan`.
    Recreate { plan: SwapchainPlan },
    /// Acquire the next presentable image, without a timeout.
    Acquire,
    /// Compute into the off-screen target with `grid` groups, copy the target
    /// into `image` and present it. The commands run after `after` and after
    /// the image was acquired; the image is presented after the commands.
    Submit { image: ImageHandle, after: Retained, grid: WorkgroupGrid },
    /// Stop with an error.
    Abort(FrameError),
}

/// The state of the frame loop.
#[derive(Clone, Copy, Debug, PartialEq, Eq)]
pub struct FrameLoop {
    pub chain: Swapchain,
    /// The dispatch grid, fixed by the off-screen target.
    pub grid: WorkgroupGrid,
    pub phase: Phase,
    /// The chain has to be renewed before the next image is acquired.
    pub recreate_pending: bool,
    pub retained: Retained,
    /// The window's size at the tick under way.
    pub window: Extent,
}

impl FrameLoop {
    /// The chain is well formed; the retained future is out of the loop's
    /// hands exactly while a submission is under way; a tick is under way
    /// only for a window with an area.
    pub open spec fn wf(self) -> bool {
        &&& self.chain.wf()
        &&& (self.phase == Phase::Submit) == (self.retained == Retained::Taken)
        &&& self.phase != Phase::Idle ==> !self.window.is_empty_of()
    }

    /// Whether the state is well formed.
    pub fn is_wf(&self) -> (b: bool)
        ensures
            b == self.wf(),
    {
        let submitting = match self.phase {
            Phase::Submit => true,
            _ => false,
        };
        let taken = match self.retained {
            Retained::Taken => true,
            _ => false,
        };
        let idle = match self.phase {
            Phase::Idle => true,
            _ => false,
        };
        self.chain.is_wf() && submitting == taken && (idle || !self.window.is_empty())
    }

    /// How many futures the loop retains: never more than one.
    pub open spec fn retained_count(self) -> nat {
        if self.retained == Retained::Taken {
            0
        } else {
            1
        }
    }

    /// The image that an acquire names, where the chain has it.
    pub open spec fn acquired_image(self, index: u32) -> Option<ImageHandle> {
        if index < self.chain.image_count {
            Some(ImageHandle { generation: self.chain.generation, index })
        } else {
            None
        }
    }

    /// The state after `event`.
    pub open spec fn after(self, event: Event) -> FrameLoop {
        match (self.phase, event) {
            (_, Event::Resize) => FrameLoop { recreate_pending: true, ..self },
            (Phase::Idle, Event::RefreshTick { window }) => if window.is_empty_of() {
                self
            } else {
                FrameLoop { phase: Phase::Reclaim, window, ..self }
            },
            (Phase::Reclaim, Event::Reclaimed) => if self.recreate_pending {
                FrameLoop { phase: Phase::Recreate, ..self }
            } else {
                FrameLoop { phase: Phase::Acquire, ..self }
            },
            (Phase::Recreate, Event::Recreated(RecreateOutcome::Created { image_count })) => if image_count
                >= self.chain.plan.min_image_count {
                FrameLoop {
                    chain: self.chain.recreated_of(self.window, image_count),
                    phase: Phase::Acquire,
                    recreate_pending: false,
                    ..self
                }
            } else {
                FrameLoop { phase: Phase::Idle, ..self }
            },
            (Phase::Recreate, Event::Recreated(RecreateOutcome::Rejected)) => FrameLoop {
                phase: Phase::Idle,
                ..self
            },
            (Phase::Acquire, Event::Acquired(AcquireOutcome::Ready { index, suboptimal })) => if index
                < self.chain.image_count {
                FrameLoop {
                    phase: Phase::Submit,
                    recreate_pending: self.recreate_pending || suboptimal,
                    retained: Retained::Taken,
                    ..self
                }
            } else {
                FrameLoop { phase: Phase::Idle, ..self }
            },
            (Phase::Acquire, Event::Acquired(AcquireOutcome::OutOfDate)) => FrameLoop {
                phase: Phase::Idle,
                recreate_pending: true,
                ..self
            },
            (Phase::Acquire, Event::Acquired(AcquireOutcome::Failed)) => FrameLoop {
                phase: Phase::Idle,
                ..self
            },
            (Phase::Submit, Event::Submitted(SubmitOutcome::Presented)) => FrameLoop {
                phase: Phase::Idle,
                retained: Retained::InFlight,
                ..self
            },
            (Phase::Submit, Event::Submitted(SubmitOutcome::OutOfDate)) => FrameLoop {
                phase: Phase::Idle,
                recreate_pending: true,
                retained: Retained::Satisfied,
                ..self
            },
            (Phase::Submit, Event::Submitted(SubmitOutcome::Failed)) => FrameLoop {
                phase: Phase::Idle,
                retained: Retained::Satisfied,
                ..self
            },
            _ => self,
        }
    }

    /// The action that answers `event`.
    pub open spec fn answer(self, event: Event) -> Action {
        match (self.phase, event) {
            (_, Event::CloseRequested) => Action::Exit,
            (Phase::Idle, Event::RefreshTick { window }) => if window.is_empty_of() {
                Action::Rest
            } else {
                Action::Reclaim
            },
            (Phase::Reclaim, Event::Reclaimed) => if self.recreate_pending {
                Action::Recreate { plan: self.chain.plan.resized_of(self.window) }
            } else {
                Action::Acquire
            },
            (Phase::Recreate, Event::Recreated(RecreateOutcome::Created { image_count })) => if image_count
                >= self.chain.plan.min_image_count {
                Action::Acquire
            } else {
                Action::Abort(FrameError::Swapchain(SwapchainCreationError::Rejected))
            },
            (Phase::Recreate, Event::Recreated(RecreateOutcome::Rejected)) => Action::Abort(
                FrameError::Swapchain(SwapchainCreationError::Rejected),
            ),
            (Phase::Acquire, Event::Acquired(AcquireOutcome::Ready { index, suboptimal })) => match self.acquired_image(
                index,
            ) {
                Some(image) => Action::Submit { image, after: self.retained, grid: self.grid },
                None => Action::Abort(FrameError::AcquireFailed),
            },
            (Phase::Acquire, Event::Acquired(AcquireOutcome::Failed)) => Action::Abort(
                FrameError::AcquireFailed,
            ),
            _ => Action::Rest,
        }
    }

    /// The loop before its first tick: idle, with nothing to wait for.
    pub fn new(chain: Swapchain, grid: WorkgroupGrid) -> (state: FrameLoop)
        requires
            chain.wf(),
        ensures
            state == (FrameLoop {
                chain,
                grid,
                phase: Phase::Idle,
                recreate_pending: false,
                retained: Retained::Satisfied,
                window: chain.plan.image_extent,
            }),
            state.wf(),
    {
        FrameLoop {
            chain,
            grid,
            phase: Phase::Idle,
            recreate_pending: false,
            retained: Retained::Satisfied,
            window: chain.plan.image_extent,
        }
    }

    /// Takes one event, moves to the state after it and answers with the
    /// action to perform.
    pub fn step(&mut self, event: Event) -> (action: Action)
        requires
            old(self).wf(),
            old(self).chain.generation < u64::MAX,
        ensures
            *final(self) == old(self).after(event),
            action == old(self).answer(event),
            final(self).wf(),
            final(self).retained_count() <= 1,
    {
        match event {
            Event::Resize => {
                self.recreate_pending = true;
                Action::Rest
            },
            Event::CloseRequested => Action::Exit,
            Event::RefreshTick { window } => self.on_refresh(window),
            Event::Reclaimed => self.on_reclaimed(),
            Event::Recreated(outcome) => self.on_recreated(outcome),
            Event::Acquired(outcome) => self.on_acquired(outcome),
            Event::Submitted(outcome) => self.on_submitted(outcome),
        }
    }

    /// A refresh starts a tick, unless the window has no area or a tick is
    /// under way.
    pub fn on_refresh(&mut self, window: Extent) -> (action: Action)
        requires
            old(self).wf(),
        ensures
            *final(self) == old(self).after(Event::RefreshTick { window }),
            action == old(self).answer(Event::RefreshTick { window }),
            final(self).wf(),
            window.is_empty_of() ==> action == Action::Rest && *final(self) == *old(self),
    {
        match self.phase {
            Phase::Idle => {
                if window.is_empty() {
                    Action::Rest
                } else {
                    self.phase = Phase::Reclaim;
                    self.window = window;
                    Action::Reclaim
                }
            },
            _ => Action::Rest,
        }
    }

    /// After reclaiming, a pending renewal comes before any acquire.
    pub fn on_reclaimed(&mut self) -> (action: Action)
        requires
            old(self).wf(),
        ensures
            *final(self) == old(self).after(Event::Reclaimed),
            action == old(self).answer(Event::Reclaimed),
            final(self).wf(),
    {
        match self.phase {
            Phase::Reclaim => {
                if self.recreate_pending {
                    self.phase = Phase::Recreate;
                    Action::Recreate { plan: self.chain.plan.resized(self.window) }
                } else {
                    self.phase = Phase::Acquire;
                    Action::Acquire
                }
            },
            _ => Action::Rest,
        }
    }

    /// A renewed chain replaces the old one and clears the pending renewal;
    /// a refusal ends the loop.
    pub fn on_recreated(&mut self, outcome: RecreateOutcome) -> (action: Action)
        requires
            old(self).wf(),
            old(self).chain.generation < u64::MAX,
        ensures
            *final(self) == old(self).after(Event::Recreated(outcome)),
            action == old(self).answer(Event::Recreated(outcome)),
            final(self).wf(),
    {
        match self.phase {
            Phase::Recreate => {
                let renewed = match outcome {
                    RecreateOutcome::Created { image_count } => self.chain.recreate(
                        self.window,
                        image_count,
                    ),
                    RecreateOutcome::Rejected => Err(SwapchainCreationError::Rejected),
                };
                match renewed {
                    Ok(chain) => {
                        self.chain = chain;
                        self.recreate_pending = false;
                        self.phase = Phase::Acquire;
                        Action::Acquire
                    },
                    Err(e) => {
                        self.phase = Phase::Idle;
                        Action::Abort(FrameError::Swapchain(e))
                    },
                }
            },
            _ => Action::Rest,
        }
    }

    /// An acquired image is submitted to, behind the retained future; a
    /// stale chain gives the frame up and asks for a renewal; any other
    /// failure ends the loop.
    pub fn on_acquired(&mut self, outcome: AcquireOutcome) -> (action: Action)
        requires
            old(self).wf(),
        ensures
            *final(self) == old(self).after(Event::Acquired(outcome)),
            action == old(self).answer(Event::Acquired(outcome)),
            final(self).wf(),
    {
        match self.phase {
            Phase::Acquire => {
                match outcome {
                    AcquireOutcome::Ready { index, suboptimal } => {
                        match self.chain.image(index) {
                            Some(image) => {
                                let after = self.retained;
                                if suboptimal {
                                    self.recreate_pending = true;
                                }
                                self.retained = Retained::Taken;
                                self.phase = Phase::Submit;
                                Action::Submit { image, after, grid: self.grid }
                            },
                            None => {
                                self.phase = Phase::Idle;
                                Action::Abort(FrameError::AcquireFailed)
                            },
                        }
                    },
                    AcquireOutcome::OutOfDate => {
                        self.recreate_pending = true;
                        self.phase = Phase::Idle;
                        Action::Rest
                    },
                    AcquireOutcome::Failed => {
                        self.phase = Phase::Idle;
                        Action::Abort(FrameError::AcquireFailed)
                    },
                }
            },
            _ => Action::Rest,
        }
    }

    /// The frame's future replaces the retained one where the frame was
    /// presented; otherwise a satisfied future does, and a stale chain asks
    /// for a renewal.
    pub fn on_submitted(&mut self, outcome: SubmitOutcome) -> (action: Action)
        requires
            old(self).wf(),
        ensures
            *final(self) == old(self).after(Event::Submitted(outcome)),
            action == old(self).answer(Event::Submitted(outcome)),
            action == Action::Rest,
            final(self).wf(),
    {
        match self.phase {
            Phase::Submit => {
                match outcome {
                    SubmitOutcome::Presented => {
                        self.retained = Retained::InFlight;
                    },
                    SubmitOutcome::OutOfDate => {
                        self.recreate_pending = true;
                        self.retained = Retained::Satisfied;
                    },
                    SubmitOutcome::Failed => {
                        self.retained = Retained::Satisfied;
                    },
                }
                self.phase = Phase::Idle;
                Action::Rest
            },
            _ => Action::Rest,
        }
    }
}

/// Acquiring, submitting and presenting: the actions that a frame consists of.
pub open spec fn is_frame_work(action: Action) -> bool {
    action is Acquire || action is Submit
}

/// A refresh of a window without area changes nothing and asks for nothing,
/// in whatever state it arrives and however often.
pub proof fn empty_window_is_skipped(state: FrameLoop, window: Extent)
    requires
        window.is_empty_of(),
    ensures
        state.after(Event::RefreshTick { window }) == state,
        state.answer(Event::RefreshTick { window }) == Action::Rest,
        !is_frame_work(state.answer(Event::RefreshTick { window })),
{
}

/// Every step keeps the state well formed, and the loop never retains more
/// than one future.
pub proof fn step_keeps_one_future(state: FrameLoop, event: Event)
    requires
        state.wf(),
    ensures
        state.after(event).wf(),
        state.after(event).retained_count() <= 1,
{
}

/// The state after a whole run of events, taken in order.
pub open spec fn after_all(state: FrameLoop, events: Seq<Event>) -> FrameLoop
    decreases events.len(),
{
    if events.len() == 0 {
        state
    } else {
        after_all(state.after(events[0]), events.subrange(1, events.len() as int))
    }
}

/// However long the loop runs and whatever it is told, it stays well formed,
/// retains at most one future, holds a chain of at least two images, and
/// keeps the dispatch grid it was made with.
pub proof fn run_keeps_one_future(state: FrameLoop, events: Seq<Event>)
    requires
        state.wf(),
    ensures
        after_all(state, events).wf(),
        after_all(state, events).retained_count() <= 1,
        after_all(state, events).chain.image_count >= 2,
        after_all(state, events).grid == state.grid,
    decreases events.len(),
{
    if events.len() > 0 {
        run_keeps_one_future(state.after(events[0]), events.subrange(1, events.len() as int));
    }
}

/// The chain is replaced only by a renewal that succeeded: any other step
/// leaves it as it is, and no step changes the grid.
pub proof fn chain_changes_by_renewal_alone(state: FrameLoop, event: Event)
    ensures
        state.after(event).grid == state.grid,
        state.after(event).chain != state.chain ==> {
            &&& state.phase == Phase::Recreate
            &&& event matches Event::Recreated(RecreateOutcome::Created { image_count })
            &&& state.after(event).chain == state.chain.recreated_of(state.window, image_count)
            &&& state.answer(event) == Action::Acquire
        },
{
}

/// What is retained after a submission depends on how the submission ended
/// alone: nothing of what was retained before stays.
pub proof fn retained_is_replaced(a: FrameLoop, b: FrameLoop, outcome: SubmitOutcome)
    requires
        a.phase == Phase::Submit,
        b.phase == Phase::Submit,
    ensures
        a.after(Event::Submitted(outcome)).retained == b.after(Event::Submitted(outcome)).retained,
        a.after(Event::Submitted(outcome)).retained == if outcome == SubmitOutcome::Presented {
            Retained::InFlight
        } else {
            Retained::Satisfied
        },
{
}

/// After a present that found the chain stale, the next tick renews the
/// chain, for the window's size at that tick, before it acquires anything.
pub proof fn stale_present_forces_recreate(state: FrameLoop, window: Extent)
    requires
        state.phase == Phase::Submit,
        !window.is_empty_of(),
    ensures
        ({
            let idle = state.after(Event::Submitted(SubmitOutcome::OutOfDate));
            let tick = Event::RefreshTick { window };
            &&& idle.phase == Phase::Idle
            &&& idle.recreate_pending
            &&& idle.answer(tick) == Action::Reclaim
            &&& idle.after(tick).answer(Event::Reclaimed) == Action::Recreate {
                plan: state.chain.plan.resized_of(window),
            }
            &&& idle.after(tick).after(Event::Reclaimed).phase == Phase::Recreate
        }),
{
}

/// The same holds after an acquire that found the chain stale; that frame
/// is given up without a submission.
pub proof fn stale_acquire_forces_recreate(state: FrameLoop, window: Extent)
    requires
        state.phase == Phase::Acquire,
        !window.is_empty_of(),
    ensures
        ({
            let idle = state.after(Event::Acquired(AcquireOutcome::OutOfDate));
            let tick = Event::RefreshTick { window };
            &&& state.answer(Event::Acquired(AcquireOutcome::OutOfDate)) == Action::Rest
            &&& idle.phase == Phase::Idle
            &&& idle.retained == state.retained
            &&& idle.answer(tick) == Action::Reclaim
            &&& idle.after(tick).answer(Event::Reclaimed) == Action::Recreate {
                plan: state.chain.plan.resized_of(window),
            }
        }),
{
}

/// While a renewal is pending, no image is acquired: an acquire is asked for
/// only with no renewal pending, or as the answer to a renewal that succeeded.
pub proof fn acquire_follows_recreate(state: FrameLoop, event: Event)
    requires
        state.recreate_pending,
        state.answer(event) == Action::Acquire,
    ensures
        state.phase == Phase::Recreate,
        event is Recreated,
        !state.after(event).recreate_pending,
{
}

/// The image that is submitted to after a renewal is an image of the new
/// chain: the old chain never had it, nor any chain before.
pub proof fn acquire_after_recreate_is_fresh(
    state: FrameLoop,
    image_count: u32,
    outcome: AcquireOutcome,
    earlier: ImageHandle,
)
    requires
        state.wf(),
        state.chain.generation < u64::MAX,
        state.phase == Phase::Recreate,
        state.chain.has_seen(earlier),
        state.answer(Event::Recreated(RecreateOutcome::Created { image_count })) == Action::Acquire,
    ensures
        state.after(Event::Recreated(RecreateOutcome::Created { image_count })).answer(
            Event::Acquired(outcome),
        ) matches Action::Submit { image, .. } ==> image != earlier && !state.chain.owns(image),
{
}

/// A frame is submitted only in answer to an image that was acquired; it
/// writes to that image, which the chain in use owns, and runs behind the
/// future that was retained, which leaves the loop's hands with it.
pub proof fn submit_is_gated(state: FrameLoop, event: Event)
    requires
        state.wf(),
        state.answer(event) is Submit,
    ensures
        state.phase == Phase::Acquire,
        event matches Event::Acquired(AcquireOutcome::Ready { index, .. }) && state.answer(event)
            == (Action::Submit {
            image: ImageHandle { generation: state.chain.generation, index },
            after: state.retained,
            grid: state.grid,
        }) && state.chain.owns(ImageHandle { generation: state.chain.generation, index }),
        state.retained != Retained::Taken,
        state.after(event).retained == Retained::Taken,
        state.after(event).phase == Phase::Submit,
{
}

} // verus!
