//! The per-frame protocol between the CPU and the GPU, as a state
//! machine. The caller reports what the driver did as an event; the
//! machine answers with the next thing to ask of the driver.
//!
//! A frame runs: advance the slot and acquire an image; wait for the
//! slot's fence; reset the fence and record the image's command buffer;
//! submit; present. A stale chain sends the machine to `Recreating`, from
//! which only a new chain brings it back.

use crate::device::{NO_TIMEOUT, STAGE_COLOR_ATTACHMENT_OUTPUT};
use crate::queue::Queues;
use crate::swapchain::{next_slot, SwapchainView, VulkanSwapchain};
use vstd::prelude::*;

verus! {

/// Where the machine stands in a frame.
#[derive(Clone, Copy, Debug, PartialEq, Eq, Structural)]
pub enum FramePhase {
    /// Between two frames.
    Ready,
    /// An image has been asked for.
    Acquiring,
    /// The image is known; the slot's fence is being waited for.
    WaitingForFence { image_index: u32 },
    /// The fence was seen signaled; the command buffer is being recorded.
    Recording { image_index: u32 },
    /// The command buffer is being submitted.
    Submitting { image_index: u32 },
    /// The image is being presented.
    Presenting { image_index: u32 },
    /// The chain is stale and is being rebuilt.
    Recreating,
    /// The device failed; nothing more can be done.
    Lost,
}

/// How a presentation ended.
#[derive(Clone, Copy, Debug, PartialEq, Eq, Structural)]
pub enum PresentOutcome {
    Presented,
    /// The image was shown; the chain no longer matches the surface
    /// exactly.
    Suboptimal,
    /// The image was shown or dropped; the chain can no longer be used.
    OutOfDate,
}

/// What the caller reports.
#[derive(Clone, Copy, Debug, PartialEq, Eq, Structural)]
pub enum FrameEvent {
    /// A frame is due.
    Begin,
    /// The driver handed out an image. `suboptimal` is what the driver
    /// said of the chain; the machine does not act on it, and a chain
    /// that stays suboptimal is caught at presentation.
    ImageAcquired { image_index: u32, suboptimal: bool },
    /// The driver refused to hand out an image: the chain is out of date.
    AcquireOutOfDate,
    /// The fence waited for is signaled.
    FenceSignaled,
    /// The fence is reset and the command buffer is recorded.
    Recorded,
    /// The command buffer is submitted.
    Submitted,
    /// The presentation returned.
    Presented(PresentOutcome),
    /// A wait, a reset, a submission or another driver call failed.
    DeviceFailure,
}

/// Why the machine gave up on an event.
#[derive(Clone, Copy, Debug, PartialEq, Eq, Structural)]
pub enum FrameError {
    /// The event does not belong to the phase the machine is in.
    UnexpectedEvent,
    /// The driver named an image the chain does not have.
    ImageIndexOutOfRange,
    /// The device failed.
    DeviceLost,
    /// The chain lacks framebuffers, or the command buffers are not one
    /// per image.
    ChainIncomplete,
}

/// What the machine asks of the caller.
#[derive(Clone, Copy, Debug, PartialEq, Eq, Structural)]
pub enum FrameAction {
    /// Acquire the next image, signaling `semaphore`, with no fence.
    AcquireImage { swapchain: u64, semaphore: u64, timeout: u64 },
    /// Block until `fence` is signaled.
    WaitForFence { fence: u64, timeout: u64 },
    /// Reset `fence`, then record the frame for image `image_index` into
    /// `command_buffer`.
    ResetAndRecord { fence: u64, image_index: u32, command_buffer: u64 },
    /// Submit `command_buffer` to `queue`: it waits for `wait_semaphore`
    /// at the stages `wait_stage`, and signals `signal_semaphore` and
    /// `fence` when done.
    Submit {
        queue: u64,
        wait_semaphore: u64,
        wait_stage: u32,
        command_buffer: u64,
        signal_semaphore: u64,
        fence: u64,
    },
    /// Present image `image_index` on `queue` once `wait_semaphore` is
    /// signaled.
    Present { queue: u64, swapchain: u64, wait_semaphore: u64, image_index: u32 },
    /// Rebuild the chain and everything made for it.
    RecreateSwapchain,
    /// The frame is complete.
    FrameDone,
    /// Nothing to do: the event was refused, or the device is lost.
    Abort(FrameError),
}

/// The machine as contracts see it.
pub struct FrameState {
    pub chain: SwapchainView,
    pub commandbuffers: Seq<u64>,
    pub queues: Queues,
    /// The window was resized since the chain was built.
    pub resized: bool,
    pub phase: FramePhase,
}

/// The frame driver.
#[derive(Debug)]
pub struct FrameDriver {
    swapchain: VulkanSwapchain,
    commandbuffers: Vec<u64>,
    queues: Queues,
    is_framebuffer_resized: bool,
    phase: FramePhase,
}

impl FramePhase {
    /// The image the phase works on, if it has one.
    pub open spec fn image(self) -> Option<u32> {
        match self {
            FramePhase::WaitingForFence { image_index } => Some(image_index),
            FramePhase::Recording { image_index } => Some(image_index),
            FramePhase::Submitting { image_index } => Some(image_index),
            FramePhase::Presenting { image_index } => Some(image_index),
            _ => None,
        }
    }
}

impl FrameState {
    /// The chain is well formed and has its framebuffers, there is one
    /// command buffer per image, and the image being worked on is one of
    /// the chain's.
    pub open spec fn wf(self) -> bool {
        &&& self.chain.wf()
        &&& self.chain.framebuffers.len() == self.chain.images.len()
        &&& self.commandbuffers.len() == self.chain.images.len()
        &&& self.phase.image() matches Some(i) ==> i < self.chain.images.len()
    }

    /// The state with another phase.
    pub open spec fn at(self, phase: FramePhase) -> FrameState {
        FrameState { phase, ..self }
    }

    /// The state after the slot has moved on by one.
    pub open spec fn advanced(self) -> FrameState {
        FrameState {
            chain: SwapchainView {
                current_image: next_slot(self.chain.current_image, self.chain.amount_of_images),
                ..self.chain
            },
            ..self
        }
    }

    /// The fence of the current slot.
    pub open spec fn slot_fence(self) -> u64 {
        self.chain.current_sync().may_begin_drawing
    }

    /// The submission of the frame for image `image_index`: it waits for
    /// the slot's image-available semaphore at the colour output stage,
    /// and signals the slot's rendering-finished semaphore and fence.
    pub open spec fn submission(self, image_index: u32) -> FrameAction {
        FrameAction::Submit {
            queue: self.queues.graphics_queue,
            wait_semaphore: self.chain.current_sync().image_available,
            wait_stage: STAGE_COLOR_ATTACHMENT_OUTPUT,
            command_buffer: self.commandbuffers[image_index as int],
            signal_semaphore: self.chain.current_sync().rendering_finished,
            fence: self.slot_fence(),
        }
    }

    /// The presentation of image `image_index`: it waits for the slot's
    /// rendering-finished semaphore.
    pub open spec fn presentation(self, image_index: u32) -> FrameAction {
        FrameAction::Present {
            queue: self.queues.graphics_queue,
            swapchain: self.chain.swapchain,
            wait_semaphore: self.chain.current_sync().rendering_finished,
            image_index,
        }
    }

    /// One step of the machine: the next state and what to do.
    pub open spec fn step(self, event: FrameEvent) -> (FrameState, FrameAction) {
        match (self.phase, event) {
            (FramePhase::Lost, _) => (self, FrameAction::Abort(FrameError::DeviceLost)),
            (_, FrameEvent::DeviceFailure) => (
                self.at(FramePhase::Lost),
                FrameAction::Abort(FrameError::DeviceLost),
            ),
            (FramePhase::Ready, FrameEvent::Begin) => {
                let next = self.advanced().at(FramePhase::Acquiring);
                (
                    next,
                    FrameAction::AcquireImage {
                        swapchain: next.chain.swapchain,
                        semaphore: next.chain.current_sync().image_available,
                        timeout: NO_TIMEOUT,
                    },
                )
            },
            (FramePhase::Acquiring, FrameEvent::AcquireOutOfDate) => (
                self.at(FramePhase::Recreating),
                FrameAction::RecreateSwapchain,
            ),
            (FramePhase::Acquiring, FrameEvent::ImageAcquired { image_index, suboptimal }) => {
                if image_index < self.chain.images.len() {
                    (
                        self.at(FramePhase::WaitingForFence { image_index }),
                        FrameAction::WaitForFence { fence: self.slot_fence(), timeout: NO_TIMEOUT },
                    )
                } else {
                    (self.at(FramePhase::Lost), FrameAction::Abort(FrameError::ImageIndexOutOfRange))
                }
            },
            (FramePhase::WaitingForFence { image_index }, FrameEvent::FenceSignaled) => (
                self.at(FramePhase::Recording { image_index }),
                FrameAction::ResetAndRecord {
                    fence: self.slot_fence(),
                    image_index,
                    command_buffer: self.commandbuffers[image_index as int],
                },
            ),
            (FramePhase::Recording { image_index }, FrameEvent::Recorded) => (
                self.at(FramePhase::Submitting { image_index }),
                self.submission(image_index),
            ),
            (FramePhase::Submitting { image_index }, FrameEvent::Submitted) => (
                self.at(FramePhase::Presenting { image_index }),
                self.presentation(image_index),
            ),
            (FramePhase::Presenting { image_index }, FrameEvent::Presented(outcome)) => {
                if outcome != PresentOutcome::Presented || self.resized {
                    (
                        FrameState { resized: false, phase: FramePhase::Recreating, ..self },
                        FrameAction::RecreateSwapchain,
                    )
                } else {
                    (self.at(FramePhase::Ready), FrameAction::FrameDone)
                }
            },
            _ => (self, FrameAction::Abort(FrameError::UnexpectedEvent)),
        }
    }

    /// The state after a run of events.
    pub open spec fn after(self, events: Seq<FrameEvent>) -> FrameState
        decreases events.len(),
    {
        if events.len() == 0 {
            self
        } else {
            self.after(events.drop_last()).step(events.last()).0
        }
    }

    /// What the machine asks in answer to the last of a run of events.
    pub open spec fn answer(self, events: Seq<FrameEvent>) -> FrameAction
        recommends
            events.len() > 0,
    {
        self.after(events.drop_last()).step(events.last()).1
    }
}

/// A step keeps the state well formed.
pub proof fn lemma_step_wf(state: FrameState, event: FrameEvent)
    requires
        state.wf(),
    ensures
        state.step(event).0.wf(),
{
    let n = state.chain.amount_of_images as int;
    let c = state.chain.current_image as int;
    assert(0 <= (c + 1) % n < n) by (nonlinear_arith)
        requires
            n > 0,
            c >= 0,
    ;
}

/// The slot changes only when a frame begins, and then to the next slot;
/// the chain's objects and the command buffers never change.
pub proof fn lemma_step_slot(state: FrameState, event: FrameEvent)
    requires
        state.wf(),
    ensures
        state.step(event).0.commandbuffers == state.commandbuffers,
        state.step(event).0.queues == state.queues,
        state.step(event).1 is AcquireImage ==> state.step(event).0.chain == state.advanced().chain,
        !(state.step(event).1 is AcquireImage) ==> state.step(event).0.chain == state.chain,
        state.step(event).0.chain.current_image < state.chain.amount_of_images,
{
    lemma_step_wf(state, event);
}

/// Recording begins only in answer to the signaled fence of the current
/// slot: the machine was waiting for that fence, the event says it is
/// signaled, and it is the fence the recording resets.
pub proof fn lemma_record_follows_fence(state: FrameState, event: FrameEvent)
    requires
        state.wf(),
    ensures
        state.step(event).1 matches FrameAction::ResetAndRecord { fence, image_index, command_buffer } ==> {
            &&& event == FrameEvent::FenceSignaled
            &&& state.phase == FramePhase::WaitingForFence { image_index }
            &&& fence == state.slot_fence()
            &&& image_index < state.chain.images.len()
            &&& command_buffer == state.commandbuffers[image_index as int]
        },
{
}

/// The machine comes to wait for a fence only by asking the caller to
/// wait for the fence of the current slot.
pub proof fn lemma_wait_names_slot_fence(state: FrameState, event: FrameEvent)
    requires
        state.wf(),
    ensures
        state.step(event).0.phase is WaitingForFence && !(state.phase is WaitingForFence) ==> state.step(
            event,
        ).1 == (FrameAction::WaitForFence { fence: state.slot_fence(), timeout: NO_TIMEOUT }),
        state.step(event).0.phase is WaitingForFence ==> state.step(event).0.slot_fence()
            == state.slot_fence(),
{
}

/// A submission signals the fence and the semaphores of the current
/// slot, and follows the recording of the same image.
pub proof fn lemma_submit_uses_slot(state: FrameState, event: FrameEvent)
    requires
        state.wf(),
    ensures
        state.step(event).1 matches FrameAction::Submit {
            queue,
            wait_semaphore,
            wait_stage,
            command_buffer,
            signal_semaphore,
            fence,
        } ==> {
            &&& event == FrameEvent::Recorded
            &&& state.phase matches FramePhase::Recording { image_index } && command_buffer
                == state.commandbuffers[image_index as int]
            &&& fence == state.slot_fence()
            &&& wait_semaphore == state.chain.current_sync().image_available
            &&& signal_semaphore == state.chain.current_sync().rendering_finished
        },
{
}

/// A stale chain at acquisition drops the frame: the machine goes to
/// `Recreating` and asks for nothing but the rebuild.
pub proof fn lemma_out_of_date_drops_frame(state: FrameState)
    requires
        state.wf(),
        state.phase == FramePhase::Acquiring,
    ensures
        state.step(FrameEvent::AcquireOutOfDate) == (
            state.at(FramePhase::Recreating),
            FrameAction::RecreateSwapchain,
        ),
{
}

/// While the chain is being rebuilt, and once the device is lost, no
/// event makes the machine ask for a recording, a submission or a
/// presentation.
pub proof fn lemma_no_work_while_recreating(state: FrameState, event: FrameEvent)
    requires
        state.phase == FramePhase::Recreating || state.phase == FramePhase::Lost,
    ensures
        state.step(event).1 is Abort,
        state.step(event).0.phase == FramePhase::Recreating || state.step(event).0.phase == FramePhase::Lost,
{
}

/// Over any run of events from a well-formed state that is not waiting
/// for a fence: whenever the machine asks for a recording, an earlier
/// event of the run made it ask to wait for the very fence the recording
/// resets, and the event that triggers the recording reports that fence
/// signaled. So a slot's command buffer is never recorded again before
/// the fence of the slot's previous submission has been seen signaled.
pub proof fn lemma_recording_waits_for_fence(start: FrameState, events: Seq<FrameEvent>)
    requires
        start.wf(),
        !(start.phase is WaitingForFence),
        events.len() > 0,
    ensures
        start.answer(events) matches FrameAction::ResetAndRecord { fence, image_index, command_buffer } ==> {
            &&& events.last() == FrameEvent::FenceSignaled
            &&& exists|n: int|
                0 < n < events.len() && start.answer(#[trigger] events.take(n)) == (FrameAction::WaitForFence {
                    fence,
                    timeout: NO_TIMEOUT,
                })
        },
{
    let before = events.drop_last();
    lemma_run_wf(start, before);
    let state = start.after(before);
    lemma_record_follows_fence(state, events.last());
    if start.answer(events) is ResetAndRecord {
        lemma_waiting_was_asked(start, before);
        let n = choose|n: int|
            0 < n <= before.len() && start.answer(#[trigger] before.take(n)) == (FrameAction::WaitForFence {
                fence: start.after(before).slot_fence(),
                timeout: NO_TIMEOUT,
            });
        assert(before.take(n) =~= events.take(n));
    }
}

/// A run of events keeps the state well formed.
pub proof fn lemma_run_wf(start: FrameState, events: Seq<FrameEvent>)
    requires
        start.wf(),
    ensures
        start.after(events).wf(),
    decreases events.len(),
{
    if events.len() > 0 {
        lemma_run_wf(start, events.drop_last());
        lemma_step_wf(start.after(events.drop_last()), events.last());
    }
}

/// A machine found waiting for a fence after a run of events was made to
/// ask, by some event of the run, to wait for the fence of the slot it
/// is now in.
pub proof fn lemma_waiting_was_asked(start: FrameState, events: Seq<FrameEvent>)
    requires
        start.wf(),
        !(start.phase is WaitingForFence),
        start.after(events).phase is WaitingForFence,
    ensures
        exists|n: int|
            0 < n <= events.len() && start.answer(#[trigger] events.take(n)) == (FrameAction::WaitForFence {
                fence: start.after(events).slot_fence(),
                timeout: NO_TIMEOUT,
            }),
    decreases events.len(),
{
    if events.len() > 0 {
        let before = events.drop_last();
        let state = start.after(before);
        lemma_run_wf(start, before);
        lemma_wait_names_slot_fence(state, events.last());
        if state.phase is WaitingForFence {
            lemma_waiting_was_asked(start, before);
            let n = choose|n: int|
                0 < n <= before.len() && start.answer(#[trigger] before.take(n)) == (FrameAction::WaitForFence {
                    fence: state.slot_fence(),
                    timeout: NO_TIMEOUT,
                });
            assert(before.take(n) =~= events.take(n));
        } else {
            assert(events.take(events.len() as int) =~= events);
        }
    }
}

impl View for FrameDriver {
    type V = FrameState;

    closed spec fn view(&self) -> FrameState {
        FrameState {
            chain: self.swapchain@,
            commandbuffers: self.commandbuffers@,
            queues: self.queues,
            resized: self.is_framebuffer_resized,
            phase: self.phase,
        }
    }
}

impl FrameDriver {
    /// Every driver is well formed.
    #[verifier::type_invariant]
    pub open spec fn inv(&self) -> bool {
        self@.wf()
    }

    /// A driver at rest on a chain. It fails when the chain has no
    /// framebuffers or the command buffers are not one per image.
    pub fn new(swapchain: VulkanSwapchain, commandbuffers: Vec<u64>, queues: Queues) -> (r: Result<
        FrameDriver,
        FrameError,
    >)
        ensures
            swapchain@.framebuffers.len() == swapchain@.images.len() && commandbuffers@.len()
                == swapchain@.images.len() ==> (r matches Ok(driver) && driver@ == (FrameState {
                chain: swapchain@,
                commandbuffers: commandbuffers@,
                queues,
                resized: false,
                phase: FramePhase::Ready,
            }) && driver@.wf()),
            !(swapchain@.framebuffers.len() == swapchain@.images.len() && commandbuffers@.len()
                == swapchain@.images.len()) ==> r == Err::<FrameDriver, FrameError>(
                FrameError::ChainIncomplete,
            ),
    {
        proof {
            use_type_invariant(&swapchain);
        }
        let amount = swapchain.amount_of_images();
        if swapchain.framebuffers().len() != amount || commandbuffers.len() != amount {
            return Err(FrameError::ChainIncomplete);
        }
        Ok(FrameDriver { swapchain, commandbuffers, queues, is_framebuffer_resized: false, phase: FramePhase::Ready })
    }

    /// Takes one event and answers with the next action.
    pub fn step(&mut self, event: FrameEvent) -> (r: FrameAction)
        ensures
            (final(self)@, r) == old(self)@.step(event),
            final(self)@.wf(),
    {
        proof {
            use_type_invariant(&*self);
            lemma_step_wf(self@, event);
        }
        match (self.phase, event) {
            (FramePhase::Lost, _) => FrameAction::Abort(FrameError::DeviceLost),
            (_, FrameEvent::DeviceFailure) => {
                self.phase = FramePhase::Lost;
                FrameAction::Abort(FrameError::DeviceLost)
            },
            (FramePhase::Ready, FrameEvent::Begin) => {
                let slot = self.swapchain.advance();
                self.phase = FramePhase::Acquiring;
                FrameAction::AcquireImage {
                    swapchain: self.swapchain.handle(),
                    semaphore: self.swapchain.current_sync().image_available,
                    timeout: NO_TIMEOUT,
                }
            },
            (FramePhase::Acquiring, FrameEvent::AcquireOutOfDate) => {
                self.phase = FramePhase::Recreating;
                FrameAction::RecreateSwapchain
            },
            (FramePhase::Acquiring, FrameEvent::ImageAcquired { image_index, suboptimal }) => {
                if (image_index as usize) < self.swapchain.amount_of_images() {
                    self.phase = FramePhase::WaitingForFence { image_index };
                    FrameAction::WaitForFence {
                        fence: self.swapchain.current_sync().may_begin_drawing,
                        timeout: NO_TIMEOUT,
                    }
                } else {
                    self.phase = FramePhase::Lost;
                    FrameAction::Abort(FrameError::ImageIndexOutOfRange)
                }
            },
            (FramePhase::WaitingForFence { image_index }, FrameEvent::FenceSignaled) => {
                self.phase = FramePhase::Recording { image_index };
                FrameAction::ResetAndRecord {
                    fence: self.swapchain.current_sync().may_begin_drawing,
                    image_index,
                    command_buffer: self.commandbuffers[image_index as usize],
                }
            },
            (FramePhase::Recording { image_index }, FrameEvent::Recorded) => {
                self.phase = FramePhase::Submitting { image_index };
                let sync = self.swapchain.current_sync();
                FrameAction::Submit {
                    queue: self.queues.graphics_queue,
                    wait_semaphore: sync.image_available,
                    wait_stage: STAGE_COLOR_ATTACHMENT_OUTPUT,
                    command_buffer: self.commandbuffers[image_index as usize],
                    signal_semaphore: sync.rendering_finished,
                    fence: sync.may_begin_drawing,
                }
            },
            (FramePhase::Submitting { image_index }, FrameEvent::Submitted) => {
                self.phase = FramePhase::Presenting { image_index };
                FrameAction::Present {
                    queue: self.queues.graphics_queue,
                    swapchain: self.swapchain.handle(),
                    wait_semaphore: self.swapchain.current_sync().rendering_finished,
                    image_index,
                }
            },
            (FramePhase::Presenting { image_index }, FrameEvent::Presented(outcome)) => {
                let stale = match outcome {
                    PresentOutcome::Presented => false,
                    PresentOutcome::Suboptimal => true,
                    PresentOutcome::OutOfDate => true,
                };
                if stale || self.is_framebuffer_resized {
                    self.is_framebuffer_resized = false;
                    self.phase = FramePhase::Recreating;
                    FrameAction::RecreateSwapchain
                } else {
                    self.phase = FramePhase::Ready;
                    FrameAction::FrameDone
                }
            },
            _ => FrameAction::Abort(FrameError::UnexpectedEvent),
        }
    }

    /// Installs the rebuilt chain and its command buffers, and returns
    /// to `Ready`. It fails, and changes nothing, when the machine is
    /// not rebuilding, or else when the chain has no framebuffers or the
    /// command buffers are not one per image.
    pub fn install(&mut self, swapchain: VulkanSwapchain, commandbuffers: Vec<u64>) -> (r: Result<
        (),
        FrameError,
    >)
        ensures
            final(self)@.wf(),
            old(self)@.phase != FramePhase::Recreating ==> r == Err::<(), FrameError>(
                FrameError::UnexpectedEvent,
            ) && final(self)@ == old(self)@,
            old(self)@.phase == FramePhase::Recreating && !(swapchain@.framebuffers.len()
                == swapchain@.images.len() && commandbuffers@.len() == swapchain@.images.len()) ==> r == Err::<
                (),
                FrameError,
            >(FrameError::ChainIncomplete) && final(self)@ == old(self)@,
            old(self)@.phase == FramePhase::Recreating && swapchain@.framebuffers.len()
                == swapchain@.images.len() && commandbuffers@.len() == swapchain@.images.len() ==> r is Ok
                && final(self)@ == (FrameState {
                chain: swapchain@,
                commandbuffers: commandbuffers@,
                phase: FramePhase::Ready,
                ..old(self)@
            }),
    {
        proof {
            use_type_invariant(&*self);
        }
        match self.phase {
            FramePhase::Recreating => {},
            _ => {
                return Err(FrameError::UnexpectedEvent);
            },
        }
        proof {
            use_type_invariant(&swapchain);
        }
        let amount = swapchain.amount_of_images();
        if swapchain.framebuffers().len() != amount || commandbuffers.len() != amount {
            return Err(FrameError::ChainIncomplete);
        }
        let queues = self.queues;
        let resized = self.is_framebuffer_resized;
        *self = FrameDriver {
            swapchain,
            commandbuffers,
            queues,
            is_framebuffer_resized: resized,
            phase: FramePhase::Ready,
        };
        Ok(())
    }

    /// Notes that the window was resized: the chain is rebuilt after the
    /// next presentation.
    pub fn set_framebuffer_resized(&mut self)
        ensures
            final(self)@ == (FrameState { resized: true, ..old(self)@ }),
            final(self)@.wf(),
    {
        proof {
            use_type_invariant(&*self);
        }
        self.is_framebuffer_resized = true;
    }

    /// Tells whether a resize is pending.
    pub fn is_framebuffer_resized(&self) -> (r: bool)
        ensures
            r == self@.resized,
    {
        self.is_framebuffer_resized
    }

    /// The phase the machine is in.
    pub fn phase(&self) -> (r: FramePhase)
        ensures
            r == self@.phase,
    {
        self.phase
    }

    /// The chain.
    pub fn swapchain(&self) -> (r: &VulkanSwapchain)
        ensures
            r@ == self@.chain,
            self@.wf(),
    {
        proof {
            use_type_invariant(self);
        }
        &self.swapchain
    }

    /// The command buffers, one per image.
    pub fn commandbuffers(&self) -> (r: &[u64])
        ensures
            r@ == self@.commandbuffers,
            r@.len() == self@.chain.images.len(),
    {
        proof {
            use_type_invariant(self);
        }
        self.commandbuffers.as_slice()
    }

    /// The queues work is submitted to.
    pub fn queues(&self) -> (r: Queues)
        ensures
            r == self@.queues,
    {
        self.queues
    }
}

} // verus!
