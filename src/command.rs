use vstd::prelude::*;

use crate::swapchain::Extent2D;

verus! {

/// The synchronisation objects for a fixed number of frames in flight: for
/// each frame slot, a semaphore signalled when a swapchain image is acquired,
/// one signalled when rendering has finished, and a fence that the CPU waits on.
pub struct FrameSyncSet<S, F> {
    pub image_available: Vec<S>,
    pub render_finished: Vec<S>,
    pub in_flight: Vec<F>,
}

impl<S, F> FrameSyncSet<S, F> {
    /// The three collections have one entry per frame slot.
    pub open spec fn wf(&self) -> bool {
        &&& self.image_available@.len() == self.in_flight@.len()
        &&& self.render_finished@.len() == self.in_flight@.len()
    }

    pub open spec fn slots(&self) -> nat {
        self.in_flight@.len()
    }

    /// The number of frame slots.
    pub fn frames_in_flight(&self) -> (r: usize)
        requires
            self.wf(),
        ensures
            r == self.slots(),
    {
        self.in_flight.len()
    }
}

/// Creates the synchronisation objects for `max_frames_in_flight` frame slots.
/// `make_semaphore` creates one semaphore; `make_fence(signaled)` creates one
/// fence, and every fence is asked for already signalled so that the first
/// wait on it returns at once.
pub fn create_sync_objects<S, F, MS: Fn() -> S, MF: Fn(bool) -> F>(
    max_frames_in_flight: usize,
    make_semaphore: MS,
    make_fence: MF,
) -> (r: FrameSyncSet<S, F>)
    requires
        make_semaphore.requires(()),
        make_fence.requires((true,)),
    ensures
        r.wf(),
        r.slots() == max_frames_in_flight,
        r.image_available@.len() == max_frames_in_flight,
        r.render_finished@.len() == max_frames_in_flight,
        r.in_flight@.len() == max_frames_in_flight,
        forall|i: int|
            0 <= i < max_frames_in_flight ==> make_semaphore.ensures(
                (),
                #[trigger] r.image_available@[i],
            ),
        forall|i: int|
            0 <= i < max_frames_in_flight ==> make_semaphore.ensures(
                (),
                #[trigger] r.render_finished@[i],
            ),
        forall|i: int|
            0 <= i < max_frames_in_flight ==> make_fence.ensures((true,), #[trigger] r.in_flight@[i]),
{
    let mut image_available: Vec<S> = Vec::new();
    let mut render_finished: Vec<S> = Vec::new();
    let mut in_flight: Vec<F> = Vec::new();
    let mut i: usize = 0;
    while i < max_frames_in_flight
        invariant
            0 <= i <= max_frames_in_flight,
            make_semaphore.requires(()),
            make_fence.requires((true,)),
            image_available@.len() == i,
            render_finished@.len() == i,
            in_flight@.len() == i,
            forall|j: int| 0 <= j < i ==> make_semaphore.ensures((), #[trigger] image_available@[j]),
            forall|j: int| 0 <= j < i ==> make_semaphore.ensures((), #[trigger] render_finished@[j]),
            forall|j: int| 0 <= j < i ==> make_fence.ensures((true,), #[trigger] in_flight@[j]),
        decreases max_frames_in_flight - i,
    {
        image_available.push(make_semaphore());
        render_finished.push(make_semaphore());
        in_flight.push(make_fence(true));
        i += 1;
    }
    FrameSyncSet { image_available, render_finished, in_flight }
}

/// A colour with 8 bits per channel.
#[derive(Clone, Copy, Debug, PartialEq, Eq, Structural)]
pub struct ClearColor {
    pub r: u8,
    pub g: u8,
    pub b: u8,
    pub a: u8,
}

/// An axis-aligned rectangle in pixels.
#[derive(Clone, Copy, Debug, PartialEq, Eq, Structural)]
pub struct Rect2D {
    pub x: i32,
    pub y: i32,
    pub extent: Extent2D,
}

/// One step of recording a command buffer.
#[derive(Clone, Copy, Debug, PartialEq, Eq, Structural)]
pub enum RecordStep {
    Begin,
    BeginRenderPass { render_area: Rect2D, clear_color: ClearColor },
    EndRenderPass,
    End,
}

pub open spec fn opaque_black() -> ClearColor {
    ClearColor { r: 0, g: 0, b: 0, a: 255 }
}

/// Recording a frame: begin, one render pass over the whole target cleared to
/// opaque black, end.
pub open spec fn frame_steps(extent: Extent2D) -> Seq<RecordStep> {
    seq![
        RecordStep::Begin,
        RecordStep::BeginRenderPass {
            render_area: Rect2D { x: 0, y: 0, extent },
            clear_color: opaque_black(),
        },
        RecordStep::EndRenderPass,
        RecordStep::End,
    ]
}

/// The steps that record one frame into a command buffer whose target has the
/// given size.
pub fn record_commands(extent: Extent2D) -> (r: Vec<RecordStep>)
    ensures
        r@ == frame_steps(extent),
{
    let mut r: Vec<RecordStep> = Vec::new();
    r.push(RecordStep::Begin);
    r.push(
        RecordStep::BeginRenderPass {
            render_area: Rect2D { x: 0, y: 0, extent },
            clear_color: ClearColor { r: 0, g: 0, b: 0, a: 255 },
        },
    );
    r.push(RecordStep::EndRenderPass);
    r.push(RecordStep::End);
    r
}

} // verus!
