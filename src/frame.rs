//! The frame-in-flight ring: fences, image reuse, recreation and shutdown.
//!
//! `FrameSync` decides what the host does next. The host performs the action
//! (a fence wait, an acquire, a submit, a present, a swapchain rebuild) and
//! reports the result as an `Event`.

use vstd::prelude::*;
use crate::surface::{
    configure_spec, Extent2D, PresentMode, SurfaceCapabilities, SurfaceConfig, SurfaceFormat,
};

verus! {

/// Depth of the frame ring.
pub const MAX_FRAMES_IN_FLIGHT: usize = 2;

/// Bound on every fence wait, in nanoseconds; expiry is fatal.
pub const FENCE_TIMEOUT_NS: u64 = 1_000_000_000;

#[derive(Clone, Copy, Debug, PartialEq, Eq, Structural)]
pub enum Phase {
    /// Between frames.
    Idle,
    /// Waiting on the current slot's in-flight fence.
    WaitingSlotFence,
    /// An image was requested with the slot's image-available semaphore.
    Acquiring,
    /// Waiting on the fence of the slot that last rendered to `image`.
    WaitingImageFence { image: usize, slot: usize },
    /// Commands for `image` are being recorded.
    Recording { image: usize },
    /// Recorded; the slot's fence is to be reset and the buffer submitted.
    Submitting { image: usize },
    /// Submitted; the present is to be issued.
    Presenting { image: usize },
    /// The swapchain and what depends on it are being rebuilt.
    Recreating,
    /// Shutdown came after submit: the present is completed first.
    ShutdownPresenting { image: usize },
    /// Waiting for the device to go idle before teardown.
    WaitingIdle,
    /// Torn down.
    Finished,
}

#[derive(Clone, Copy, Debug, PartialEq, Eq, Structural)]
pub enum AcquireOutcome {
    Image { index: usize, suboptimal: bool },
    OutOfDate,
    Failed,
}

#[derive(Clone, Copy, Debug, PartialEq, Eq, Structural)]
pub enum PresentOutcome {
    Presented { suboptimal: bool },
    OutOfDate,
    Failed,
}

/// What the host did when it rebuilt the swapchain: the views and framebuffers
/// of the old images it destroyed, and what it built for the new ones. The ring
/// accepts a rebuild only where every old view and framebuffer was destroyed
/// and each new image has exactly one of each, so none leak across resizes.
#[derive(Clone, Copy, Debug, PartialEq, Eq, Structural)]
pub struct SwapchainReport {
    pub config: SurfaceConfig,
    pub retired_views: usize,
    pub retired_framebuffers: usize,
    pub images: usize,
    pub views: usize,
    pub framebuffers: usize,
}

#[derive(Clone, Copy, Debug, PartialEq, Eq, Structural)]
pub enum Event {
    /// The window asks for a frame.
    Redraw,
    /// The drawable extent changed.
    Resized(Extent2D),
    /// A fence wait ended: `signaled` is false on timeout or error.
    FenceWaited { signaled: bool },
    Acquired(AcquireOutcome),
    /// All sub-renderers have appended their commands.
    Recorded,
    Submitted { ok: bool },
    Presented(PresentOutcome),
    SwapchainRebuilt(SwapchainReport),
    /// The surface has no drawable extent now; recreation waits.
    SurfaceUnavailable,
    /// A native error other than a stale surface.
    Fatal,
    ShutdownRequested,
    DeviceIdle,
}

#[derive(Clone, Copy, Debug, PartialEq, Eq, Structural)]
pub enum Action {
    Nothing,
    /// Wait on the slot's in-flight fence, at most `FENCE_TIMEOUT_NS`.
    WaitFence { slot: usize },
    /// Acquire the next image, signalling the slot's image-available semaphore.
    Acquire { slot: usize },
    /// Update the slot's uniforms and record into the image's framebuffer.
    Record { slot: usize, image: usize },
    /// Reset the slot's fence; submit waiting on image-available (color output
    /// stage), signalling render-finished and the fence.
    Submit { slot: usize, image: usize },
    /// Present the image, waiting on the slot's render-finished semaphore.
    Present { slot: usize, image: usize },
    /// Wait idle, destroy framebuffers and views, create the swapchain from
    /// `configure` with the old one as hint, destroy the old one, rebuild.
    /// The frame then goes on: a rebuilt swapchain is answered with the slot's
    /// fence wait, which returns at once on an idle device.
    Recreate { extent: Extent2D },
    WaitIdle,
    /// Destroy everything, in `teardown_order`.
    Teardown,
}

#[derive(Clone, Copy, Debug, PartialEq, Eq, Structural)]
pub enum FrameError {
    /// The event does not fit the current phase.
    OutOfOrder,
    /// The acquired index names no image of the swapchain.
    ImageOutOfRange,
    /// Images, views and framebuffers differ in number, there are none, or
    /// not every old view and framebuffer was destroyed.
    CountMismatch,
}

/// The state of `FrameSync` as mathematics.
pub struct FrameModel {
    pub current: usize,
    /// Per slot: submitted, and not yet seen signaled.
    pub fence_pending: Seq<bool>,
    /// Per slot: the image of its latest submission.
    pub slot_image: Seq<usize>,
    /// Per image: the slot whose fence last guarded it.
    pub images_in_flight: Seq<Option<usize>>,
    pub phase: Phase,
    pub extent: Extent2D,
    pub config: Option<SurfaceConfig>,
    pub needs_recreate: bool,
    pub minimized: bool,
    pub failed: bool,
    pub presents: u64,
    pub swapchains_created: u64,
}

pub open spec fn next_slot_spec(slot: usize) -> usize {
    ((slot + 1) % (MAX_FRAMES_IN_FLIGHT as int)) as usize
}

pub open spec fn bump(n: u64) -> u64 {
    if n < u64::MAX {
        (n + 1) as u64
    } else {
        n
    }
}

pub open spec fn no_pending() -> Seq<bool> {
    Seq::new(MAX_FRAMES_IN_FLIGHT as nat, |i: int| false)
}

pub open spec fn no_images(n: nat) -> Seq<Option<usize>> {
    Seq::new(n, |i: int| None::<usize>)
}

impl FrameModel {
    pub open spec fn image_count(self) -> nat {
        self.images_in_flight.len()
    }

    pub open spec fn wf(self) -> bool {
        &&& self.current < MAX_FRAMES_IN_FLIGHT
        &&& self.fence_pending.len() == MAX_FRAMES_IN_FLIGHT
        &&& self.slot_image.len() == MAX_FRAMES_IN_FLIGHT
        &&& forall|i: int|
            0 <= i < self.image_count() && (#[trigger] self.images_in_flight[i]).is_some()
                ==> self.images_in_flight[i].unwrap() < MAX_FRAMES_IN_FLIGHT
        &&& forall|s: int|
            0 <= s < MAX_FRAMES_IN_FLIGHT && #[trigger] self.fence_pending[s] ==> {
                &&& self.slot_image[s] < self.image_count()
                &&& self.images_in_flight[self.slot_image[s] as int] == Some(s as usize)
            }
        &&& match self.phase {
            Phase::Acquiring => !self.fence_pending[self.current as int],
            Phase::WaitingImageFence { image, slot } => {
                &&& image < self.image_count()
                &&& slot < MAX_FRAMES_IN_FLIGHT
                &&& self.images_in_flight[image as int] == Some(slot)
                &&& self.fence_pending[slot as int]
                &&& !self.fence_pending[self.current as int]
            },
            Phase::Recording { image } | Phase::Submitting { image } => {
                &&& image < self.image_count()
                &&& self.images_in_flight[image as int] == Some(self.current)
                &&& !self.fence_pending[self.current as int]
            },
            Phase::Presenting { image } | Phase::ShutdownPresenting { image } => {
                &&& self.fence_pending[self.current as int]
                &&& self.slot_image[self.current as int] == image
            },
            Phase::Finished => forall|s: int|
                0 <= s < MAX_FRAMES_IN_FLIGHT ==> !#[trigger] self.fence_pending[s],
            _ => true,
        }
    }

    /// The model `FrameSync::new` starts from: no swapchain yet, one to build.
    pub open spec fn initial(extent: Extent2D) -> FrameModel {
        FrameModel {
            current: 0,
            fence_pending: no_pending(),
            slot_image: Seq::new(MAX_FRAMES_IN_FLIGHT as nat, |i: int| 0usize),
            images_in_flight: no_images(0),
            phase: Phase::Idle,
            extent,
            config: None,
            needs_recreate: true,
            minimized: extent.zero_sized(),
            failed: false,
            presents: 0,
            swapchains_created: 0,
        }
    }

    /// Orderly shutdown after an unrecoverable error.
    pub open spec fn fatal(self) -> (FrameModel, Action) {
        (FrameModel { phase: Phase::WaitingIdle, failed: true, ..self }, Action::WaitIdle)
    }

    /// While minimized a redraw asks for nothing, whatever the phase.
    pub open spec fn on_redraw(self) -> Result<(FrameModel, Action), FrameError> {
        if self.minimized {
            Ok((self, Action::Nothing))
        } else if self.phase != Phase::Idle {
            Err(FrameError::OutOfOrder)
        } else if self.needs_recreate {
            Ok((FrameModel { phase: Phase::Recreating, ..self }, Action::Recreate { extent: self.extent }))
        } else {
            Ok((FrameModel { phase: Phase::WaitingSlotFence, ..self }, Action::WaitFence { slot: self.current }))
        }
    }

    pub open spec fn on_resized(self, e: Extent2D) -> Result<(FrameModel, Action), FrameError> {
        if e.zero_sized() {
            Ok((FrameModel { minimized: true, ..self }, Action::Nothing))
        } else {
            Ok((FrameModel { minimized: false, extent: e, needs_recreate: true, ..self }, Action::Nothing))
        }
    }

    pub open spec fn on_fence_waited(self, signaled: bool) -> Result<(FrameModel, Action), FrameError> {
        match self.phase {
            Phase::WaitingSlotFence => if signaled {
                Ok((
                    FrameModel {
                        fence_pending: self.fence_pending.update(self.current as int, false),
                        phase: Phase::Acquiring,
                        ..self
                    },
                    Action::Acquire { slot: self.current },
                ))
            } else {
                Ok(self.fatal())
            },
            Phase::WaitingImageFence { image, slot } => if signaled {
                Ok((
                    FrameModel {
                        fence_pending: self.fence_pending.update(slot as int, false),
                        images_in_flight: self.images_in_flight.update(image as int, Some(self.current)),
                        phase: Phase::Recording { image },
                        ..self
                    },
                    Action::Record { slot: self.current, image },
                ))
            } else {
                Ok(self.fatal())
            },
            _ => Err(FrameError::OutOfOrder),
        }
    }

    pub open spec fn on_acquired(self, o: AcquireOutcome) -> Result<(FrameModel, Action), FrameError> {
        if self.phase != Phase::Acquiring {
            Err(FrameError::OutOfOrder)
        } else {
            match o {
                AcquireOutcome::Image { index, suboptimal } => if index >= self.image_count() {
                    Err(FrameError::ImageOutOfRange)
                } else {
                    let m = FrameModel { needs_recreate: self.needs_recreate || suboptimal, ..self };
                    let prior = self.images_in_flight[index as int];
                    if prior.is_some() && self.fence_pending[prior.unwrap() as int] {
                        Ok((
                            FrameModel {
                                phase: Phase::WaitingImageFence { image: index, slot: prior.unwrap() },
                                ..m
                            },
                            Action::WaitFence { slot: prior.unwrap() },
                        ))
                    } else {
                        Ok((
                            FrameModel {
                                images_in_flight: self.images_in_flight.update(index as int, Some(self.current)),
                                phase: Phase::Recording { image: index },
                                ..m
                            },
                            Action::Record { slot: self.current, image: index },
                        ))
                    }
                },
                AcquireOutcome::OutOfDate => Ok(
                    (FrameModel { needs_recreate: true, phase: Phase::Idle, ..self }, Action::Nothing),
                ),
                AcquireOutcome::Failed => Ok(self.fatal()),
            }
        }
    }

    pub open spec fn on_recorded(self) -> Result<(FrameModel, Action), FrameError> {
        match self.phase {
            Phase::Recording { image } => Ok((
                FrameModel { phase: Phase::Submitting { image }, ..self },
                Action::Submit { slot: self.current, image },
            )),
            _ => Err(FrameError::OutOfOrder),
        }
    }

    pub open spec fn on_submitted(self, ok: bool) -> Result<(FrameModel, Action), FrameError> {
        match self.phase {
            Phase::Submitting { image } => if ok {
                Ok((
                    FrameModel {
                        fence_pending: self.fence_pending.update(self.current as int, true),
                        slot_image: self.slot_image.update(self.current as int, image),
                        phase: Phase::Presenting { image },
                        ..self
                    },
                    Action::Present { slot: self.current, image },
                ))
            } else {
                Ok(self.fatal())
            },
            _ => Err(FrameError::OutOfOrder),
        }
    }

    pub open spec fn on_presented(self, o: PresentOutcome) -> Result<(FrameModel, Action), FrameError> {
        match self.phase {
            Phase::Presenting { image } => match o {
                PresentOutcome::Presented { suboptimal } => Ok((
                    FrameModel {
                        presents: bump(self.presents),
                        needs_recreate: self.needs_recreate || suboptimal,
                        current: next_slot_spec(self.current),
                        phase: Phase::Idle,
                        ..self
                    },
                    Action::Nothing,
                )),
                PresentOutcome::OutOfDate => Ok((
                    FrameModel {
                        needs_recreate: true,
                        current: next_slot_spec(self.current),
                        phase: Phase::Idle,
                        ..self
                    },
                    Action::Nothing,
                )),
                PresentOutcome::Failed => Ok(self.fatal()),
            },
            Phase::ShutdownPresenting { image } => {
                let presents = match o {
                    PresentOutcome::Presented { suboptimal } => bump(self.presents),
                    _ => self.presents,
                };
                Ok((FrameModel { presents, phase: Phase::WaitingIdle, ..self }, Action::WaitIdle))
            },
            _ => Err(FrameError::OutOfOrder),
        }
    }

    pub open spec fn on_swapchain_rebuilt(self, r: SwapchainReport) -> Result<(FrameModel, Action), FrameError> {
        if self.phase != Phase::Recreating {
            Err(FrameError::OutOfOrder)
        } else if r.images == 0 || r.views != r.images || r.framebuffers != r.images
            || r.retired_views != self.image_count() || r.retired_framebuffers != self.image_count() {
            Err(FrameError::CountMismatch)
        } else {
            Ok((
                FrameModel {
                    fence_pending: no_pending(),
                    images_in_flight: no_images(r.images as nat),
                    config: Some(r.config),
                    needs_recreate: false,
                    swapchains_created: bump(self.swapchains_created),
                    phase: Phase::WaitingSlotFence,
                    ..self
                },
                Action::WaitFence { slot: self.current },
            ))
        }
    }

    pub open spec fn on_surface_unavailable(self) -> Result<(FrameModel, Action), FrameError> {
        if self.phase != Phase::Recreating {
            Err(FrameError::OutOfOrder)
        } else {
            Ok((FrameModel { minimized: true, phase: Phase::Idle, ..self }, Action::Nothing))
        }
    }

    pub open spec fn on_fatal(self) -> Result<(FrameModel, Action), FrameError> {
        match self.phase {
            Phase::WaitingIdle | Phase::Finished => Err(FrameError::OutOfOrder),
            _ => Ok(self.fatal()),
        }
    }

    pub open spec fn on_shutdown(self) -> Result<(FrameModel, Action), FrameError> {
        match self.phase {
            Phase::Presenting { image } => Ok((
                FrameModel { phase: Phase::ShutdownPresenting { image }, ..self },
                Action::Present { slot: self.current, image },
            )),
            Phase::ShutdownPresenting { .. } | Phase::WaitingIdle | Phase::Finished => Err(
                FrameError::OutOfOrder,
            ),
            _ => Ok((FrameModel { phase: Phase::WaitingIdle, ..self }, Action::WaitIdle)),
        }
    }

    pub open spec fn on_device_idle(self) -> Result<(FrameModel, Action), FrameError> {
        if self.phase != Phase::WaitingIdle {
            Err(FrameError::OutOfOrder)
        } else {
            Ok((FrameModel { fence_pending: no_pending(), phase: Phase::Finished, ..self }, Action::Teardown))
        }
    }

    /// The next state and action for an event; an error leaves the state as it was.
    pub open spec fn step(self, e: Event) -> Result<(FrameModel, Action), FrameError> {
        match e {
            Event::Redraw => self.on_redraw(),
            Event::Resized(x) => self.on_resized(x),
            Event::FenceWaited { signaled } => self.on_fence_waited(signaled),
            Event::Acquired(o) => self.on_acquired(o),
            Event::Recorded => self.on_recorded(),
            Event::Submitted { ok } => self.on_submitted(ok),
            Event::Presented(o) => self.on_presented(o),
            Event::SwapchainRebuilt(r) => self.on_swapchain_rebuilt(r),
            Event::SurfaceUnavailable => self.on_surface_unavailable(),
            Event::Fatal => self.on_fatal(),
            Event::ShutdownRequested => self.on_shutdown(),
            Event::DeviceIdle => self.on_device_idle(),
        }
    }
}


/// Every event keeps the ring consistent: per-slot vectors stay ring-sized,
/// each pending fence is the one recorded for the image it renders to, and each
/// phase holds what it promises (for instance, an image is recorded into only
/// when no pending submission uses it).
pub proof fn lemma_step_keeps_wf(m: FrameModel, e: Event)
    requires
        m.wf(),
    ensures
        m.step(e) matches Ok((n, a)) ==> n.wf(),
{
    match e {
        Event::Acquired(AcquireOutcome::Image { index, suboptimal }) => {
            if m.phase == Phase::Acquiring && index < m.image_count() {
                let prior = m.images_in_flight[index as int];
                if !(prior.is_some() && m.fence_pending[prior.unwrap() as int]) {
                    let n = m.step(e)->Ok_0.0;
                    assert forall|s: int|
                        0 <= s < MAX_FRAMES_IN_FLIGHT && #[trigger] n.fence_pending[s] implies {
                            &&& n.slot_image[s] < n.image_count()
                            &&& n.images_in_flight[n.slot_image[s] as int] == Some(s as usize)
                        } by {
                        assert(m.images_in_flight[m.slot_image[s] as int] == Some(s as usize));
                    }
                }
            }
        },
        Event::FenceWaited { signaled } => {
            if let Phase::WaitingImageFence { image, slot } = m.phase {
                if signaled {
                    let n = m.step(e)->Ok_0.0;
                    assert forall|s: int|
                        0 <= s < MAX_FRAMES_IN_FLIGHT && #[trigger] n.fence_pending[s] implies {
                            &&& n.slot_image[s] < n.image_count()
                            &&& n.images_in_flight[n.slot_image[s] as int] == Some(s as usize)
                        } by {
                        assert(m.images_in_flight[m.slot_image[s] as int] == Some(s as usize));
                    }
                }
            }
        },
        Event::Presented(o) => {
            if m.phase is Presenting && !(o is Failed) {
                let n = m.step(e)->Ok_0.0;
                assert(n.current < MAX_FRAMES_IN_FLIGHT);
            }
        },
        _ => {},
    }
}


/// The slot after `slot` in the ring.
pub fn next_slot(slot: usize) -> (r: usize)
    requires
        slot < MAX_FRAMES_IN_FLIGHT,
    ensures
        r == next_slot_spec(slot),
        r < MAX_FRAMES_IN_FLIGHT,
{
    (slot + 1) % MAX_FRAMES_IN_FLIGHT
}

fn bump_count(n: u64) -> (r: u64)
    ensures
        r == bump(n),
{
    if n < u64::MAX {
        n + 1
    } else {
        n
    }
}

fn fresh_fences() -> (r: Vec<bool>)
    ensures
        r@ == no_pending(),
{
    let mut v: Vec<bool> = Vec::new();
    let mut i: usize = 0;
    while i < MAX_FRAMES_IN_FLIGHT
        invariant
            i <= MAX_FRAMES_IN_FLIGHT,
            v@ == Seq::new(i as nat, |k: int| false),
        decreases MAX_FRAMES_IN_FLIGHT - i,
    {
        v.push(false);
        i = i + 1;
        assert(v@ =~= Seq::new(i as nat, |k: int| false));
    }
    v
}

fn fresh_images(n: usize) -> (r: Vec<Option<usize>>)
    ensures
        r@ == no_images(n as nat),
{
    let mut v: Vec<Option<usize>> = Vec::new();
    let mut i: usize = 0;
    while i < n
        invariant
            i <= n,
            v@ == no_images(i as nat),
        decreases n - i,
    {
        v.push(None);
        i = i + 1;
        assert(v@ =~= no_images(i as nat));
    }
    v
}

/// The frame-in-flight ring and the decisions around it.
pub struct FrameSync {
    current: usize,
    fence_pending: Vec<bool>,
    slot_image: Vec<usize>,
    images_in_flight: Vec<Option<usize>>,
    phase: Phase,
    extent: Extent2D,
    config: Option<SurfaceConfig>,
    needs_recreate: bool,
    minimized: bool,
    failed: bool,
    presents: u64,
    swapchains_created: u64,
}

impl View for FrameSync {
    type V = FrameModel;

    closed spec fn view(&self) -> FrameModel {
        FrameModel {
            current: self.current,
            fence_pending: self.fence_pending@,
            slot_image: self.slot_image@,
            images_in_flight: self.images_in_flight@,
            phase: self.phase,
            extent: self.extent,
            config: self.config,
            needs_recreate: self.needs_recreate,
            minimized: self.minimized,
            failed: self.failed,
            presents: self.presents,
            swapchains_created: self.swapchains_created,
        }
    }
}

/// `r` and the new model are what `s` prescribes; on an error nothing changed.
pub open spec fn follows(
    before: FrameModel,
    after: FrameModel,
    r: Result<Action, FrameError>,
    s: Result<(FrameModel, Action), FrameError>,
) -> bool {
    match s {
        Ok((m, a)) => r == Ok::<Action, FrameError>(a) && after == m,
        Err(e) => r == Err::<Action, FrameError>(e) && after == before,
    }
}

impl FrameSync {
    /// A ring for a window of the given extent. The first `Redraw` asks for the
    /// swapchain to be built.
    pub fn new(extent: Extent2D) -> (r: FrameSync)
        ensures
            r@ == FrameModel::initial(extent),
            r@.wf(),
    {
        let mut slot_image: Vec<usize> = Vec::new();
        slot_image.push(0);
        slot_image.push(0);
        assert(slot_image@ =~= Seq::new(MAX_FRAMES_IN_FLIGHT as nat, |i: int| 0usize));
        let r = FrameSync {
            current: 0,
            fence_pending: fresh_fences(),
            slot_image,
            images_in_flight: fresh_images(0),
            phase: Phase::Idle,
            extent,
            config: None,
            needs_recreate: true,
            minimized: extent.is_zero(),
            failed: false,
            presents: 0,
            swapchains_created: 0,
        };
        assert(r@ == FrameModel::initial(extent));
        r
    }

    fn fatal(&mut self) -> (r: Action)
        ensures
            (final(self)@, r) == old(self)@.fatal(),
    {
        self.phase = Phase::WaitingIdle;
        self.failed = true;
        Action::WaitIdle
    }

    fn redraw(&mut self) -> (r: Result<Action, FrameError>)
        ensures
            follows(old(self)@, final(self)@, r, old(self)@.on_redraw()),
    {
        if self.minimized {
            Ok(Action::Nothing)
        } else if self.phase != Phase::Idle {
            Err(FrameError::OutOfOrder)
        } else if self.needs_recreate {
            self.phase = Phase::Recreating;
            Ok(Action::Recreate { extent: self.extent })
        } else {
            self.phase = Phase::WaitingSlotFence;
            Ok(Action::WaitFence { slot: self.current })
        }
    }

    fn resized(&mut self, e: Extent2D) -> (r: Result<Action, FrameError>)
        ensures
            follows(old(self)@, final(self)@, r, old(self)@.on_resized(e)),
    {
        if e.is_zero() {
            self.minimized = true;
        } else {
            self.minimized = false;
            self.extent = e;
            self.needs_recreate = true;
        }
        Ok(Action::Nothing)
    }

    fn fence_waited(&mut self, signaled: bool) -> (r: Result<Action, FrameError>)
        requires
            old(self)@.wf(),
        ensures
            follows(old(self)@, final(self)@, r, old(self)@.on_fence_waited(signaled)),
    {
        match self.phase {
            Phase::WaitingSlotFence => {
                if signaled {
                    self.fence_pending.set(self.current, false);
                    self.phase = Phase::Acquiring;
                    Ok(Action::Acquire { slot: self.current })
                } else {
                    Ok(self.fatal())
                }
            },
            Phase::WaitingImageFence { image, slot } => {
                if signaled {
                    self.fence_pending.set(slot, false);
                    self.images_in_flight.set(image, Some(self.current));
                    self.phase = Phase::Recording { image };
                    Ok(Action::Record { slot: self.current, image })
                } else {
                    Ok(self.fatal())
                }
            },
            _ => Err(FrameError::OutOfOrder),
        }
    }

    fn acquired(&mut self, o: AcquireOutcome) -> (r: Result<Action, FrameError>)
        requires
            old(self)@.wf(),
        ensures
            follows(old(self)@, final(self)@, r, old(self)@.on_acquired(o)),
    {
        if self.phase != Phase::Acquiring {
            return Err(FrameError::OutOfOrder);
        }
        match o {
            AcquireOutcome::Image { index, suboptimal } => {
                if index >= self.images_in_flight.len() {
                    return Err(FrameError::ImageOutOfRange);
                }
                self.needs_recreate = self.needs_recreate || suboptimal;
                match self.images_in_flight[index] {
                    Some(prior) if self.fence_pending[prior] => {
                        self.phase = Phase::WaitingImageFence { image: index, slot: prior };
                        Ok(Action::WaitFence { slot: prior })
                    },
                    _ => {
                        self.images_in_flight.set(index, Some(self.current));
                        self.phase = Phase::Recording { image: index };
                        Ok(Action::Record { slot: self.current, image: index })
                    },
                }
            },
            AcquireOutcome::OutOfDate => {
                self.needs_recreate = true;
                self.phase = Phase::Idle;
                Ok(Action::Nothing)
            },
            AcquireOutcome::Failed => Ok(self.fatal()),
        }
    }

    fn recorded(&mut self) -> (r: Result<Action, FrameError>)
        ensures
            follows(old(self)@, final(self)@, r, old(self)@.on_recorded()),
    {
        match self.phase {
            Phase::Recording { image } => {
                self.phase = Phase::Submitting { image };
                Ok(Action::Submit { slot: self.current, image })
            },
            _ => Err(FrameError::OutOfOrder),
        }
    }

    fn submitted(&mut self, ok: bool) -> (r: Result<Action, FrameError>)
        requires
            old(self)@.wf(),
        ensures
            follows(old(self)@, final(self)@, r, old(self)@.on_submitted(ok)),
    {
        match self.phase {
            Phase::Submitting { image } => {
                if ok {
                    self.fence_pending.set(self.current, true);
                    self.slot_image.set(self.current, image);
                    self.phase = Phase::Presenting { image };
                    Ok(Action::Present { slot: self.current, image })
                } else {
                    Ok(self.fatal())
                }
            },
            _ => Err(FrameError::OutOfOrder),
        }
    }

    fn presented(&mut self, o: PresentOutcome) -> (r: Result<Action, FrameError>)
        requires
            old(self)@.wf(),
        ensures
            follows(old(self)@, final(self)@, r, old(self)@.on_presented(o)),
    {
        match self.phase {
            Phase::Presenting { image } => match o {
                PresentOutcome::Presented { suboptimal } => {
                    self.presents = bump_count(self.presents);
                    self.needs_recreate = self.needs_recreate || suboptimal;
                    self.current = next_slot(self.current);
                    self.phase = Phase::Idle;
                    Ok(Action::Nothing)
                },
                PresentOutcome::OutOfDate => {
                    self.needs_recreate = true;
                    self.current = next_slot(self.current);
                    self.phase = Phase::Idle;
                    Ok(Action::Nothing)
                },
                PresentOutcome::Failed => Ok(self.fatal()),
            },
            Phase::ShutdownPresenting { image } => {
                if let PresentOutcome::Presented { suboptimal } = o {
                    self.presents = bump_count(self.presents);
                }
                self.phase = Phase::WaitingIdle;
                Ok(Action::WaitIdle)
            },
            _ => Err(FrameError::OutOfOrder),
        }
    }

    fn swapchain_rebuilt(&mut self, rep: SwapchainReport) -> (r: Result<Action, FrameError>)
        ensures
            follows(old(self)@, final(self)@, r, old(self)@.on_swapchain_rebuilt(rep)),
    {
        if self.phase != Phase::Recreating {
            Err(FrameError::OutOfOrder)
        } else if rep.images == 0 || rep.views != rep.images || rep.framebuffers != rep.images
            || rep.retired_views != self.images_in_flight.len()
            || rep.retired_framebuffers != self.images_in_flight.len() {
            Err(FrameError::CountMismatch)
        } else {
            self.fence_pending = fresh_fences();
            self.images_in_flight = fresh_images(rep.images);
            self.config = Some(rep.config);
            self.needs_recreate = false;
            self.swapchains_created = bump_count(self.swapchains_created);
            self.phase = Phase::WaitingSlotFence;
            Ok(Action::WaitFence { slot: self.current })
        }
    }

    fn surface_unavailable(&mut self) -> (r: Result<Action, FrameError>)
        ensures
            follows(old(self)@, final(self)@, r, old(self)@.on_surface_unavailable()),
    {
        if self.phase != Phase::Recreating {
            Err(FrameError::OutOfOrder)
        } else {
            self.minimized = true;
            self.phase = Phase::Idle;
            Ok(Action::Nothing)
        }
    }

    fn fatal_error(&mut self) -> (r: Result<Action, FrameError>)
        ensures
            follows(old(self)@, final(self)@, r, old(self)@.on_fatal()),
    {
        match self.phase {
            Phase::WaitingIdle | Phase::Finished => Err(FrameError::OutOfOrder),
            _ => Ok(self.fatal()),
        }
    }

    fn shutdown(&mut self) -> (r: Result<Action, FrameError>)
        ensures
            follows(old(self)@, final(self)@, r, old(self)@.on_shutdown()),
    {
        match self.phase {
            Phase::Presenting { image } => {
                self.phase = Phase::ShutdownPresenting { image };
                Ok(Action::Present { slot: self.current, image })
            },
            Phase::ShutdownPresenting { .. } | Phase::WaitingIdle | Phase::Finished => Err(
                FrameError::OutOfOrder,
            ),
            _ => {
                self.phase = Phase::WaitingIdle;
                Ok(Action::WaitIdle)
            },
        }
    }

    fn device_idle(&mut self) -> (r: Result<Action, FrameError>)
        ensures
            follows(old(self)@, final(self)@, r, old(self)@.on_device_idle()),
    {
        if self.phase != Phase::WaitingIdle {
            Err(FrameError::OutOfOrder)
        } else {
            self.fence_pending = fresh_fences();
            self.phase = Phase::Finished;
            Ok(Action::Teardown)
        }
    }

    /// Takes in what happened and says what to do next. An event that does not
    /// fit the current phase is refused and changes nothing.
    pub fn handle(&mut self, e: Event) -> (r: Result<Action, FrameError>)
        requires
            old(self)@.wf(),
        ensures
            follows(old(self)@, final(self)@, r, old(self)@.step(e)),
            final(self)@.wf(),
    {
        proof {
            lemma_step_keeps_wf(self@, e);
        }
        match e {
            Event::Redraw => self.redraw(),
            Event::Resized(x) => self.resized(x),
            Event::FenceWaited { signaled } => self.fence_waited(signaled),
            Event::Acquired(o) => self.acquired(o),
            Event::Recorded => self.recorded(),
            Event::Submitted { ok } => self.submitted(ok),
            Event::Presented(o) => self.presented(o),
            Event::SwapchainRebuilt(rep) => self.swapchain_rebuilt(rep),
            Event::SurfaceUnavailable => self.surface_unavailable(),
            Event::Fatal => self.fatal_error(),
            Event::ShutdownRequested => self.shutdown(),
            Event::DeviceIdle => self.device_idle(),
        }
    }

    pub fn phase(&self) -> (r: Phase)
        ensures
            r == self@.phase,
    {
        self.phase
    }

    pub fn current_slot(&self) -> (r: usize)
        ensures
            r == self@.current,
    {
        self.current
    }

    pub fn presents(&self) -> (r: u64)
        ensures
            r == self@.presents,
    {
        self.presents
    }

    pub fn swapchains_created(&self) -> (r: u64)
        ensures
            r == self@.swapchains_created,
    {
        self.swapchains_created
    }

    /// The number of slots whose submission is not yet seen complete.
    pub fn pending_fences(&self) -> (r: usize)
        requires
            self@.wf(),
        ensures
            r == pending_count(self@.fence_pending),
            r <= MAX_FRAMES_IN_FLIGHT,
    {
        let mut n: usize = 0;
        let mut i: usize = 0;
        while i < self.fence_pending.len()
            invariant
                i <= self.fence_pending@.len(),
                self.fence_pending@.len() == MAX_FRAMES_IN_FLIGHT,
                n == pending_count(self.fence_pending@.take(i as int)),
                n <= i,
            decreases self.fence_pending@.len() - i,
        {
            assert(self.fence_pending@.take(i + 1).drop_last() =~= self.fence_pending@.take(i as int));
            if self.fence_pending[i] {
                n = n + 1;
            }
            i = i + 1;
        }
        assert(self.fence_pending@.take(i as int) =~= self.fence_pending@);
        n
    }

    pub fn is_failed(&self) -> (r: bool)
        ensures
            r == self@.failed,
    {
        self.failed
    }

    pub fn config(&self) -> (r: Option<SurfaceConfig>)
        ensures
            r == self@.config,
    {
        self.config
    }

    pub fn image_count(&self) -> (r: usize)
        ensures
            r == self@.image_count(),
    {
        self.images_in_flight.len()
    }
}

pub open spec fn pending_count(p: Seq<bool>) -> nat
    decreases p.len(),
{
    if p.len() == 0 {
        0
    } else {
        pending_count(p.drop_last()) + if p.last() {
            1nat
        } else {
            0nat
        }
    }
}


/// The slot reached after `n` completed frames from slot `start`.
pub open spec fn slot_after(start: usize, n: nat) -> usize
    decreases n,
{
    if n == 0 {
        start
    } else {
        next_slot_spec(slot_after(start, (n - 1) as nat))
    }
}

/// The current slot changes only when a frame's present has been issued, and
/// then to the next slot of the ring.
pub proof fn lemma_slot_moves_only_on_present(m: FrameModel, e: Event)
    requires
        m.wf(),
    ensures
        m.step(e) matches Ok((n, a)) ==> {
            ||| n.current == m.current
            ||| {
                &&& m.phase is Presenting
                &&& e is Presented
                &&& n.current == next_slot_spec(m.current)
            }
        },
{
}

/// From slot 0 the ring visits 0, 1, 0, 1, ...: after `n` frames it is at `n`
/// modulo the ring depth.
pub proof fn lemma_slots_cycle(n: nat)
    ensures
        slot_after(0, n) == n % (MAX_FRAMES_IN_FLIGHT as nat),
    decreases n,
{
    if n > 0 {
        lemma_slots_cycle((n - 1) as nat);
    }
}

pub proof fn lemma_pending_count_bounded(p: Seq<bool>)
    ensures
        pending_count(p) <= p.len(),
    decreases p.len(),
{
    if p.len() > 0 {
        lemma_pending_count_bounded(p.drop_last());
    }
}

/// A fence starts being awaited only through the submission of its own slot,
/// and never while that slot still has a submission outstanding; so no more
/// than `MAX_FRAMES_IN_FLIGHT` fences are ever awaited at once.
pub proof fn lemma_one_submission_per_slot(m: FrameModel, e: Event)
    requires
        m.wf(),
    ensures
        m.step(e) matches Ok((n, a)) ==> {
            &&& forall|s: int|
                0 <= s < MAX_FRAMES_IN_FLIGHT && #[trigger] n.fence_pending[s]
                    && !m.fence_pending[s] ==> s == m.current && e == (Event::Submitted { ok: true })
            &&& a matches Action::Submit { slot, image } ==> slot == m.current && !m.fence_pending[
                slot as int]
            &&& pending_count(n.fence_pending) <= MAX_FRAMES_IN_FLIGHT
        },
{
    lemma_step_keeps_wf(m, e);
    if let Ok((n, a)) = m.step(e) {
        lemma_pending_count_bounded(n.fence_pending);
    }
}

/// While commands are recorded into an image (and until they are submitted),
/// no outstanding submission renders to that image.
pub proof fn lemma_recording_image_is_free(m: FrameModel)
    requires
        m.wf(),
    ensures
        m.phase matches Phase::Recording { image } ==> forall|s: int|
            0 <= s < MAX_FRAMES_IN_FLIGHT && #[trigger] m.fence_pending[s] ==> m.slot_image[s]
                != image,
        m.phase matches Phase::Submitting { image } ==> forall|s: int|
            0 <= s < MAX_FRAMES_IN_FLIGHT && #[trigger] m.fence_pending[s] ==> m.slot_image[s]
                != image,
{
}

/// Recording is only ever asked of the current slot while its fence is not
/// awaited: uniform data written for that slot is read by no submission in flight.
pub proof fn lemma_record_slot_is_idle(m: FrameModel, e: Event)
    requires
        m.wf(),
    ensures
        m.step(e) matches Ok((n, Action::Record { slot, image })) ==> {
            &&& slot == m.current
            &&& slot == n.current
            &&& !n.fence_pending[slot as int]
            &&& n.phase == (Phase::Recording { image })
        },
{
}

/// An image handed out again while the submission that last used it is
/// outstanding is not recorded into: that submission's fence is waited on first.
pub proof fn lemma_reused_image_waits(m: FrameModel, index: usize, suboptimal: bool)
    requires
        m.wf(),
        m.phase == Phase::Acquiring,
        index < m.image_count(),
        m.images_in_flight[index as int] matches Some(s) && m.fence_pending[s as int],
    ensures
        m.step(Event::Acquired(AcquireOutcome::Image { index, suboptimal })) matches Ok((n, a)) && {
            let s = m.images_in_flight[index as int].unwrap();
            &&& a == (Action::WaitFence { slot: s })
            &&& n.phase == (Phase::WaitingImageFence { image: index, slot: s })
        },
{
}

/// A zero-sized resize only marks the window minimized: the swapchain is kept,
/// and while minimized a redraw, in whatever phase, is answered with nothing to
/// do and changes nothing (no fence wait, acquire, submit or present; no error).
pub proof fn lemma_zero_resize_is_noop(m: FrameModel, e: Extent2D)
    requires
        m.wf(),
        e.zero_sized(),
    ensures
        m.step(Event::Resized(e)) == Ok::<(FrameModel, Action), FrameError>(
            (FrameModel { minimized: true, ..m }, Action::Nothing),
        ),
        ({
            let n = FrameModel { minimized: true, ..m };
            n.step(Event::Redraw) == Ok::<(FrameModel, Action), FrameError>((n, Action::Nothing))
        }),
{
}

/// Shutdown from any running phase reaches teardown: a frame already
/// submitted is presented first, then the device is waited idle, then
/// everything is destroyed, with no fence left awaited.
pub proof fn lemma_shutdown_reaches_teardown(m: FrameModel, o: PresentOutcome)
    requires
        m.wf(),
        !(m.phase is ShutdownPresenting),
        m.phase != Phase::WaitingIdle,
        m.phase != Phase::Finished,
    ensures
        m.step(Event::ShutdownRequested) matches Ok((n1, a1)) && {
            let n2 = if a1 is Present {
                n1.step(Event::Presented(o))->Ok_0.0
            } else {
                n1
            };
            &&& (m.phase is Presenting) == (a1 is Present)
            &&& (a1 is Present) ==> n1.step(Event::Presented(o)) is Ok
                && n1.step(Event::Presented(o))->Ok_0.1 == Action::WaitIdle
            &&& (a1 is Present) || a1 == Action::WaitIdle
            &&& n2.step(Event::DeviceIdle) matches Ok((n3, Action::Teardown)) && {
                &&& n3.phase == Phase::Finished
                &&& n3.wf()
                &&& forall|s: int| 0 <= s < MAX_FRAMES_IN_FLIGHT ==> !#[trigger] n3.fence_pending[s]
            }
        },
{
    lemma_step_keeps_wf(m, Event::ShutdownRequested);
    let n1 = m.step(Event::ShutdownRequested)->Ok_0.0;
    if m.phase is Presenting {
        lemma_step_keeps_wf(n1, Event::Presented(o));
    }
}

/// The state after feeding `events` one by one; a refused event changes nothing.
pub open spec fn run(m: FrameModel, events: Seq<Event>) -> FrameModel
    decreases events.len(),
{
    if events.len() == 0 {
        m
    } else {
        let prev = run(m, events.drop_last());
        match prev.step(events.last()) {
            Ok((n, _)) => n,
            Err(_) => prev,
        }
    }
}

/// Whether `e` completes a frame of `m`: its present was issued and did not fail.
pub open spec fn completes_frame(m: FrameModel, e: Event) -> bool {
    &&& m.phase is Presenting
    &&& e matches Event::Presented(o)
    &&& !(o is Failed)
}

/// How many frames `events` complete from `m`.
pub open spec fn frames_done(m: FrameModel, events: Seq<Event>) -> nat
    decreases events.len(),
{
    if events.len() == 0 {
        0
    } else {
        let prev = run(m, events.drop_last());
        frames_done(m, events.drop_last()) + if completes_frame(prev, events.last()) {
            1nat
        } else {
            0nat
        }
    }
}

/// Over any sequence of events: the ring stays consistent, never more than
/// `MAX_FRAMES_IN_FLIGHT` fences are awaited at once, and the current slot is
/// the start slot moved on once per completed frame, so from slot 0 it runs
/// 0, 1, 0, 1, ...
pub proof fn lemma_ring_over_any_run(m: FrameModel, events: Seq<Event>)
    requires
        m.wf(),
    ensures
        run(m, events).wf(),
        pending_count(run(m, events).fence_pending) <= MAX_FRAMES_IN_FLIGHT,
        run(m, events).current == slot_after(m.current, frames_done(m, events)),
        m.current == 0 ==> run(m, events).current == frames_done(m, events) % (
        MAX_FRAMES_IN_FLIGHT as nat),
    decreases events.len(),
{
    if events.len() > 0 {
        lemma_ring_over_any_run(m, events.drop_last());
        let prev = run(m, events.drop_last());
        lemma_step_keeps_wf(prev, events.last());
        lemma_slot_moves_only_on_present(prev, events.last());
    }
    lemma_pending_count_bounded(run(m, events).fence_pending);
    if m.current == 0 {
        lemma_slots_cycle(frames_done(m, events));
    }
}

/// How many submissions `events` make from `m`.
pub open spec fn submissions(m: FrameModel, events: Seq<Event>) -> nat
    decreases events.len(),
{
    if events.len() == 0 {
        0
    } else {
        let prev = run(m, events.drop_last());
        submissions(m, events.drop_last()) + if prev.phase is Submitting && events.last() == (
        Event::Submitted { ok: true }) {
            1nat
        } else {
            0nat
        }
    }
}

/// Whether the ring is still running, not shutting down.
pub open spec fn running(m: FrameModel) -> bool {
    !(m.phase is ShutdownPresenting) && m.phase != Phase::WaitingIdle && m.phase != Phase::Finished
}

/// Counted in submissions: from slot 0, submission number `k` (from 0) is made
/// by slot `k` modulo the ring depth, so the slots submit 0, 1, 0, 1, ...; every
/// submission but the one being presented has completed its frame.
pub proof fn lemma_submissions_cycle(m: FrameModel, events: Seq<Event>)
    requires
        m.wf(),
        m.phase == Phase::Idle,
        m.current == 0,
    ensures
        running(run(m, events)) ==> {
            let n = run(m, events);
            let k = submissions(m, events);
            &&& k == frames_done(m, events) + if n.phase is Presenting {
                1nat
            } else {
                0nat
            }
            &&& n.phase is Submitting ==> n.current == k % (MAX_FRAMES_IN_FLIGHT as nat)
            &&& n.phase is Presenting ==> k >= 1 && n.current == (k - 1) % (
            MAX_FRAMES_IN_FLIGHT as int)
        },
    decreases events.len(),
{
    lemma_ring_over_any_run(m, events);
    if events.len() > 0 {
        let prev = run(m, events.drop_last());
        lemma_submissions_cycle(m, events.drop_last());
        lemma_ring_over_any_run(m, events.drop_last());
        lemma_step_keeps_wf(prev, events.last());
    }
}

/// The swapchain report of a host that destroyed the `old` views and
/// framebuffers and built one view and one framebuffer per new image.
pub open spec fn full_report(config: SurfaceConfig, old: nat, images: usize) -> SwapchainReport {
    SwapchainReport {
        config,
        retired_views: old as usize,
        retired_framebuffers: old as usize,
        images,
        views: images,
        framebuffers: images,
    }
}

/// The rest of a frame from the slot's fence wait on, every step succeeding
/// and the swapchain handing out image 0.
pub open spec fn finish_frame(m: FrameModel) -> Option<FrameModel> {
    match m.step(Event::FenceWaited { signaled: true }) {
        Ok((m1, _)) => match m1.step(Event::Acquired(AcquireOutcome::Image { index: 0, suboptimal: false })) {
            Ok((m2, _)) => match m2.step(Event::Recorded) {
                Ok((m3, _)) => match m3.step(Event::Submitted { ok: true }) {
                    Ok((m4, _)) => match m4.step(Event::Presented(PresentOutcome::Presented { suboptimal: false })) {
                        Ok((m5, _)) => Some(m5),
                        Err(_) => None,
                    },
                    Err(_) => None,
                },
                Err(_) => None,
            },
            Err(_) => None,
        },
        Err(_) => None,
    }
}

/// The window is resized to `e`; the next redraw asks for recreation; the host
/// configures the surface for the extent asked, builds `images` images, and the
/// frame of that redraw is then drawn and presented.
pub open spec fn resize_and_rebuild(
    m: FrameModel,
    caps: SurfaceCapabilities,
    formats: Seq<SurfaceFormat>,
    modes: Seq<PresentMode>,
    e: Extent2D,
    images: usize,
) -> Option<FrameModel> {
    match m.step(Event::Resized(e)) {
        Ok((m1, _)) => match m1.step(Event::Redraw) {
            Ok((m2, Action::Recreate { extent })) => match configure_spec(caps, formats, modes, extent) {
                Ok(cfg) => match m2.step(
                    Event::SwapchainRebuilt(full_report(cfg, m2.image_count(), images)),
                ) {
                    Ok((m3, a)) => if a == (Action::WaitFence { slot: m3.current }) {
                        finish_frame(m3)
                    } else {
                        None
                    },
                    Err(_) => None,
                },
                Err(_) => None,
            },
            _ => None,
        },
        Err(_) => None,
    }
}

proof fn lemma_resize_and_rebuild(
    m: FrameModel,
    caps: SurfaceCapabilities,
    formats: Seq<SurfaceFormat>,
    modes: Seq<PresentMode>,
    e: Extent2D,
    images: usize,
)
    requires
        m.wf(),
        m.phase == Phase::Idle,
        m.image_count() <= usize::MAX,
        configure_spec(caps, formats, modes, e) is Ok,
        images > 0,
    ensures
        resize_and_rebuild(m, caps, formats, modes, e, images) matches Some(n) && {
            &&& n.wf()
            &&& n.phase == Phase::Idle
            &&& n.config == Some(configure_spec(caps, formats, modes, e)->Ok_0)
            &&& n.image_count() == images
            &&& n.presents == bump(m.presents)
            &&& n.swapchains_created == bump(m.swapchains_created)
        },
{
    let cfg = configure_spec(caps, formats, modes, e)->Ok_0;
    assert(!e.zero_sized());
    let m1 = m.step(Event::Resized(e))->Ok_0.0;
    lemma_step_keeps_wf(m, Event::Resized(e));
    assert(m1.phase == Phase::Idle && !m1.minimized && m1.needs_recreate && m1.extent == e);
    let m2 = m1.step(Event::Redraw)->Ok_0.0;
    assert(m1.step(Event::Redraw)->Ok_0.1 == (Action::Recreate { extent: e }));
    lemma_step_keeps_wf(m1, Event::Redraw);
    let ev = Event::SwapchainRebuilt(full_report(cfg, m2.image_count(), images));
    let m3 = m2.step(ev)->Ok_0.0;
    assert(m2.step(ev) is Ok);
    lemma_step_keeps_wf(m2, ev);
    assert(m3.phase == Phase::WaitingSlotFence && m3.image_count() == images);
    let e4 = Event::FenceWaited { signaled: true };
    let m4 = m3.step(e4)->Ok_0.0;
    lemma_step_keeps_wf(m3, e4);
    assert(m4.phase == Phase::Acquiring);
    assert(m4.images_in_flight[0] is None);
    let e5 = Event::Acquired(AcquireOutcome::Image { index: 0, suboptimal: false });
    let m5 = m4.step(e5)->Ok_0.0;
    lemma_step_keeps_wf(m4, e5);
    assert(m5.phase == (Phase::Recording { image: 0 }));
    let m6 = m5.step(Event::Recorded)->Ok_0.0;
    lemma_step_keeps_wf(m5, Event::Recorded);
    let e7 = Event::Submitted { ok: true };
    let m7 = m6.step(e7)->Ok_0.0;
    lemma_step_keeps_wf(m6, e7);
    assert(m7.phase == (Phase::Presenting { image: 0 }));
    let e8 = Event::Presented(PresentOutcome::Presented { suboptimal: false });
    lemma_step_keeps_wf(m7, e8);
    let m8 = m7.step(e8)->Ok_0.0;
    assert(m8.phase == Phase::Idle && m8.config == Some(cfg) && m8.image_count() == images);
}

/// Recreating for the same extent twice in a row gives a surface with the same
/// format, extent, present mode and image count as the first time.
pub proof fn lemma_recreate_idempotent(
    m: FrameModel,
    caps: SurfaceCapabilities,
    formats: Seq<SurfaceFormat>,
    modes: Seq<PresentMode>,
    e: Extent2D,
    images: usize,
)
    requires
        m.wf(),
        m.phase == Phase::Idle,
        m.image_count() <= usize::MAX,
        configure_spec(caps, formats, modes, e) is Ok,
        images > 0,
    ensures
        resize_and_rebuild(m, caps, formats, modes, e, images) matches Some(m1)
            && resize_and_rebuild(m1, caps, formats, modes, e, images) matches Some(m2) && {
            &&& m2.config == m1.config
            &&& m1.config == Some(configure_spec(caps, formats, modes, e)->Ok_0)
            &&& m2.image_count() == m1.image_count()
            &&& m2.phase == Phase::Idle
            &&& m2.presents == bump(m1.presents)
        },
{
    lemma_resize_and_rebuild(m, caps, formats, modes, e, images);
    let m1 = resize_and_rebuild(m, caps, formats, modes, e, images)->Some_0;
    lemma_resize_and_rebuild(m1, caps, formats, modes, e, images);
}

/// Resizing from `e1` to `e2` and back to `e1` gives the configuration and the
/// image, view and framebuffer counts the surface had at `e1`, where the
/// swapchain holds as many images for the same configuration.
pub proof fn lemma_resize_round_trip(
    m: FrameModel,
    caps: SurfaceCapabilities,
    formats: Seq<SurfaceFormat>,
    modes: Seq<PresentMode>,
    e1: Extent2D,
    e2: Extent2D,
    images1: usize,
    images2: usize,
)
    requires
        m.wf(),
        m.phase == Phase::Idle,
        m.image_count() <= usize::MAX,
        configure_spec(caps, formats, modes, e1) is Ok,
        configure_spec(caps, formats, modes, e2) is Ok,
        images1 > 0,
        images2 > 0,
    ensures
        resize_and_rebuild(m, caps, formats, modes, e1, images1) matches Some(m1)
            && resize_and_rebuild(m1, caps, formats, modes, e2, images2) matches Some(m2)
            && resize_and_rebuild(m2, caps, formats, modes, e1, images1) matches Some(m3) && {
            &&& m3.config == m1.config
            &&& m3.image_count() == m1.image_count()
            &&& m1.image_count() == images1
            &&& m3.phase == Phase::Idle
        },
{
    lemma_resize_and_rebuild(m, caps, formats, modes, e1, images1);
    let m1 = resize_and_rebuild(m, caps, formats, modes, e1, images1)->Some_0;
    lemma_resize_and_rebuild(m1, caps, formats, modes, e2, images2);
    let m2 = resize_and_rebuild(m1, caps, formats, modes, e2, images2)->Some_0;
    lemma_resize_and_rebuild(m2, caps, formats, modes, e1, images1);
}

} // verus!
