use vstd::prelude::*;

use crate::error::XrError;
use crate::session::{is_lost_state, is_running_state, stop_model, Session, SessionView};
use crate::swapchain::{Eye, SwapchainSet, SwapchainSetView};

verus! {

/// The runtime's timing forecast for one frame.
#[derive(Clone, Copy, Debug, PartialEq, Eq, Structural)]
pub struct FrameState {
    /// When the frame is expected to reach the display, in nanoseconds.
    pub predicted_display_time: u64,
    /// Expected time between two displayed frames, in nanoseconds.
    pub predicted_display_period: u64,
    /// Whether the frame's images will be shown at all.
    pub should_render: bool,
}

/// The layer submitted with a frame: which eyes' views it carries.
#[derive(Clone, Copy, Debug, PartialEq, Eq, Structural)]
pub struct CompositionLayer {
    pub left: bool,
    pub right: bool,
}

/// The next runtime call, or render call, that the host must make.
#[derive(Clone, Copy, Debug, PartialEq, Eq, Structural)]
pub enum FrameAction {
    /// Wait for the runtime's next frame forecast; report `FrameWaited`.
    WaitFrame,
    /// Tell the runtime that frame production starts; report `FrameBegun`.
    BeginFrame,
    /// Acquire the eye's image `handle` from the runtime and wait until it is
    /// ready; report `ImageWaited`.
    AcquireImage { eye: Eye, handle: u64 },
    /// Draw the eye's view into image `handle`; report `Rendered`.
    Render { eye: Eye, handle: u64, display_time: u64 },
    /// Hand the eye's image back to the runtime; report `ImageReleased`.
    ReleaseImage { eye: Eye },
    /// Submit the frame with zero layers or one; report `FrameEnded`.
    EndFrame { display_time: u64, layer: Option<CompositionLayer> },
    /// The tick is complete.
    TickDone,
}

/// What the host reports after carrying out an action.
#[derive(Clone, Copy, Debug, PartialEq, Eq, Structural)]
pub enum FrameEvent {
    FrameWaited(FrameState),
    /// Whether the runtime accepted the start of the frame.
    FrameBegun(bool),
    /// Whether the image became ready before the wait timed out.
    ImageWaited(bool),
    Rendered,
    ImageReleased,
    /// Whether the runtime accepted the submission.
    FrameEnded(bool),
}

/// Where a tick stands: which report the loop waits for.
#[derive(Clone, Copy, Debug, PartialEq, Eq, Structural)]
pub enum FramePhase {
    Idle,
    WaitingFrame,
    BeginningFrame,
    WaitingImage(Eye),
    Rendering(Eye),
    Releasing(Eye),
    EndingFrame,
}

/// The abstract value of a frame loop.
pub struct FrameLoopView {
    pub phase: FramePhase,
    pub swapchains: SwapchainSetView,
    /// The forecast of the current tick, its display time already kept
    /// from going backwards.
    pub frame: FrameState,
    /// The display time of the latest forecast, if any came yet.
    pub last_time: Option<u64>,
    pub left_rendered: bool,
    pub right_rendered: bool,
}

/// The display time a tick uses: the runtime's forecast, but never earlier
/// than the one before it.
pub open spec fn next_display_time(last: Option<u64>, reported: u64) -> u64 {
    match last {
        Some(t) => if reported < t {
            t
        } else {
            reported
        },
        None => reported,
    }
}

/// The layer a frame submits: none when no eye was rendered.
pub open spec fn layer_for(left: bool, right: bool) -> Option<CompositionLayer> {
    if left || right {
        Some(CompositionLayer { left, right })
    } else {
        None
    }
}

impl FrameLoopView {
    /// Which eyes hold an image in each phase.
    pub open spec fn wf(self) -> bool {
        &&& self.swapchains.wf()
        &&& match self.phase {
            FramePhase::WaitingImage(e) => self.holds_only(e) && !self.swapchains.eye(e).waited,
            FramePhase::Rendering(e) => self.holds_only(e) && self.swapchains.eye(e).waited,
            FramePhase::Releasing(e) => self.holds_only(e),
            _ => self.swapchains.idle(),
        }
        &&& self.last_time matches Some(t) ==> t == self.frame.predicted_display_time
        &&& self.phase != FramePhase::Idle && self.phase != FramePhase::WaitingFrame
            ==> self.last_time is Some
    }

    /// Exactly eye `e` holds an image.
    pub open spec fn holds_only(self, e: Eye) -> bool {
        &&& self.swapchains.eye(e).acquired is Some
        &&& self.swapchains.eye(other_eye(e)).acquired is None
    }

    /// The loop after acquiring the next image of eye `e`.
    pub open spec fn acquire(self, e: Eye) -> Self {
        FrameLoopView {
            phase: FramePhase::WaitingImage(e),
            swapchains: self.swapchains.with_eye(e, self.swapchains.eye(e).acquire_model().0),
            ..self
        }
    }

    /// The handle of the image that the next acquire of eye `e` hands out.
    pub open spec fn next_handle(self, e: Eye) -> u64 {
        self.swapchains.eye(e).images[self.swapchains.eye(e).next]
    }

    /// The action that ends the current frame.
    pub open spec fn end_action(self) -> FrameAction {
        FrameAction::EndFrame {
            display_time: self.frame.predicted_display_time,
            layer: layer_for(self.left_rendered, self.right_rendered),
        }
    }
}

pub open spec fn other_eye(e: Eye) -> Eye {
    match e {
        Eye::Left => Eye::Right,
        Eye::Right => Eye::Left,
    }
}

/// One report of the host applied to the loop: the loop afterwards and the
/// next action, or an error. A report that does not answer the pending
/// action fails with `OutOfOrder` and changes nothing.
pub open spec fn step_model(m: FrameLoopView, ev: FrameEvent) -> (FrameLoopView, Result<FrameAction, XrError>) {
    match (m.phase, ev) {
        (FramePhase::WaitingFrame, FrameEvent::FrameWaited(fs)) => {
            let t = next_display_time(m.last_time, fs.predicted_display_time);
            (
                FrameLoopView {
                    phase: FramePhase::BeginningFrame,
                    frame: FrameState { predicted_display_time: t, ..fs },
                    last_time: Some(t),
                    ..m
                },
                Ok(FrameAction::BeginFrame),
            )
        },
        (FramePhase::BeginningFrame, FrameEvent::FrameBegun(ok)) => {
            let cleared = FrameLoopView { left_rendered: false, right_rendered: false, ..m };
            if !ok {
                (FrameLoopView { phase: FramePhase::Idle, ..m }, Err(XrError::BeginFrameFailed))
            } else if m.frame.should_render {
                (
                    cleared.acquire(Eye::Left),
                    Ok(FrameAction::AcquireImage { eye: Eye::Left, handle: m.next_handle(Eye::Left) }),
                )
            } else {
                (FrameLoopView { phase: FramePhase::EndingFrame, ..cleared }, Ok(cleared.end_action()))
            }
        },
        (FramePhase::WaitingImage(e), FrameEvent::ImageWaited(in_time)) => {
            let sc = m.swapchains.with_eye(e, m.swapchains.eye(e).wait_model(in_time).0);
            if in_time {
                (
                    FrameLoopView { phase: FramePhase::Rendering(e), swapchains: sc, ..m },
                    Ok(
                        FrameAction::Render {
                            eye: e,
                            handle: m.swapchains.eye(e).images[m.swapchains.eye(e).acquired->0],
                            display_time: m.frame.predicted_display_time,
                        },
                    ),
                )
            } else {
                (
                    FrameLoopView { phase: FramePhase::Releasing(e), swapchains: sc, ..m },
                    Ok(FrameAction::ReleaseImage { eye: e }),
                )
            }
        },
        (FramePhase::Rendering(e), FrameEvent::Rendered) => {
            let marked = match e {
                Eye::Left => FrameLoopView { left_rendered: true, ..m },
                Eye::Right => FrameLoopView { right_rendered: true, ..m },
            };
            (
                FrameLoopView { phase: FramePhase::Releasing(e), ..marked },
                Ok(FrameAction::ReleaseImage { eye: e }),
            )
        },
        (FramePhase::Releasing(e), FrameEvent::ImageReleased) => {
            let released = FrameLoopView {
                swapchains: m.swapchains.with_eye(e, m.swapchains.eye(e).release_model().0),
                ..m
            };
            match e {
                Eye::Left => (
                    released.acquire(Eye::Right),
                    Ok(
                        FrameAction::AcquireImage {
                            eye: Eye::Right,
                            handle: released.next_handle(Eye::Right),
                        },
                    ),
                ),
                Eye::Right => (
                    FrameLoopView { phase: FramePhase::EndingFrame, ..released },
                    Ok(released.end_action()),
                ),
            }
        },
        (FramePhase::EndingFrame, FrameEvent::FrameEnded(ok)) => {
            if ok {
                (FrameLoopView { phase: FramePhase::Idle, ..m }, Ok(FrameAction::TickDone))
            } else {
                (FrameLoopView { phase: FramePhase::Idle, ..m }, Err(XrError::EndFrameFailed))
            }
        },
        _ => (m, Err(XrError::OutOfOrder)),
    }
}

/// Whether an outcome of a step is fatal to the session.
pub open spec fn is_fatal(r: Result<FrameAction, XrError>) -> bool {
    r == Err::<FrameAction, XrError>(XrError::BeginFrameFailed) || r == Err::<FrameAction, XrError>(
        XrError::EndFrameFailed,
    )
}

/// Starting a tick: allowed between ticks, while the session runs.
pub open spec fn start_model(m: FrameLoopView, s: SessionView) -> (FrameLoopView, Result<FrameAction, XrError>) {
    if m.phase != FramePhase::Idle {
        (m, Err(XrError::OutOfOrder))
    } else if is_lost_state(s.state) {
        (m, Err(XrError::SessionLost))
    } else if !is_running_state(s.state) {
        (m, Err(XrError::SessionNotReady))
    } else {
        (FrameLoopView { phase: FramePhase::WaitingFrame, ..m }, Ok(FrameAction::WaitFrame))
    }
}

/// No step of the loop moves the display time backwards, and the forecast a
/// tick receives is never earlier than the one before it: the display times
/// handed out by successive frame waits never decrease.
pub proof fn lemma_display_time_monotone(m: FrameLoopView, ev: FrameEvent)
    requires
        m.wf(),
    ensures
        m.last_time matches Some(t) ==> step_model(m, ev).0.last_time matches Some(u) && t <= u,
        step_model(m, ev).0.last_time matches Some(u) ==> u
            == step_model(m, ev).0.frame.predicted_display_time,
        m.phase == FramePhase::WaitingFrame && ev is FrameWaited ==> step_model(m, ev).0.last_time
            == Some(step_model(m, ev).0.frame.predicted_display_time),
{
}

/// Starting a tick keeps the display time too.
pub proof fn lemma_start_keeps_time(m: FrameLoopView, s: SessionView)
    ensures
        start_model(m, s).0.last_time == m.last_time,
        start_model(m, s).0.frame == m.frame,
{
}

/// A frame that is not to be rendered acquires, waits on and releases no
/// image, and is still ended, with zero layers.
pub proof fn lemma_skipped_frame_still_ends(m: FrameLoopView)
    requires
        m.wf(),
        m.phase == FramePhase::BeginningFrame,
        !m.frame.should_render,
    ensures
        ({
            let (m1, r1) = step_model(m, FrameEvent::FrameBegun(true));
            &&& r1 == Ok::<FrameAction, XrError>(
                FrameAction::EndFrame { display_time: m.frame.predicted_display_time, layer: None },
            )
            &&& m1.phase == FramePhase::EndingFrame
            &&& m1.swapchains == m.swapchains
            &&& step_model(m1, FrameEvent::FrameEnded(true)).1 == Ok::<FrameAction, XrError>(
                FrameAction::TickDone,
            )
            &&& step_model(m1, FrameEvent::FrameEnded(true)).0.swapchains == m.swapchains
        }),
{
}

/// A timeout on the right eye's image does not abort the tick: the left
/// view is rendered, the right image is released unrendered, and the frame
/// ends with a layer that carries the left view only.
pub proof fn lemma_right_timeout_completes_tick(m: FrameLoopView)
    requires
        m.wf(),
        m.phase == FramePhase::BeginningFrame,
        m.frame.should_render,
    ensures
        ({
            let t = m.frame.predicted_display_time;
            let (m1, r1) = step_model(m, FrameEvent::FrameBegun(true));
            let (m2, r2) = step_model(m1, FrameEvent::ImageWaited(true));
            let (m3, r3) = step_model(m2, FrameEvent::Rendered);
            let (m4, r4) = step_model(m3, FrameEvent::ImageReleased);
            let (m5, r5) = step_model(m4, FrameEvent::ImageWaited(false));
            let (m6, r6) = step_model(m5, FrameEvent::ImageReleased);
            let (m7, r7) = step_model(m6, FrameEvent::FrameEnded(true));
            &&& r1 == Ok::<FrameAction, XrError>(
                FrameAction::AcquireImage { eye: Eye::Left, handle: m.next_handle(Eye::Left) },
            )
            &&& r2 == Ok::<FrameAction, XrError>(
                FrameAction::Render {
                    eye: Eye::Left,
                    handle: m.next_handle(Eye::Left),
                    display_time: t,
                },
            )
            &&& r3 == Ok::<FrameAction, XrError>(FrameAction::ReleaseImage { eye: Eye::Left })
            &&& r4 == Ok::<FrameAction, XrError>(
                FrameAction::AcquireImage { eye: Eye::Right, handle: m.next_handle(Eye::Right) },
            )
            &&& r5 == Ok::<FrameAction, XrError>(FrameAction::ReleaseImage { eye: Eye::Right })
            &&& r6 == Ok::<FrameAction, XrError>(
                FrameAction::EndFrame {
                    display_time: t,
                    layer: Some(CompositionLayer { left: true, right: false }),
                },
            )
            &&& r7 == Ok::<FrameAction, XrError>(FrameAction::TickDone)
            &&& m7.phase == FramePhase::Idle
            &&& m7.swapchains.idle()
        }),
{
}

/// Every step keeps the loop well formed: in each phase exactly the eyes it
/// names hold an image, and between ticks none does.
pub proof fn lemma_step_keeps_wf(m: FrameLoopView, ev: FrameEvent, s: SessionView)
    requires
        m.wf(),
    ensures
        step_model(m, ev).0.wf(),
        start_model(m, s).0.wf(),
{
}

/// Drives ticks of the frame loop over the swapchains of both eyes.
pub struct FrameLoop {
    swapchains: SwapchainSet,
    phase: FramePhase,
    frame: FrameState,
    last_time: Option<u64>,
    left_rendered: bool,
    right_rendered: bool,
}

impl View for FrameLoop {
    type V = FrameLoopView;

    closed spec fn view(&self) -> FrameLoopView {
        FrameLoopView {
            phase: self.phase,
            swapchains: self.swapchains@,
            frame: self.frame,
            last_time: self.last_time,
            left_rendered: self.left_rendered,
            right_rendered: self.right_rendered,
        }
    }
}

impl FrameLoop {
    /// A loop over swapchains of which neither eye holds an image; fails
    /// with `AlreadyAcquired` otherwise.
    pub fn new(swapchains: SwapchainSet) -> (r: Result<FrameLoop, XrError>)
        ensures
            swapchains@.idle() <==> r is Ok,
            r is Err ==> r == Err::<FrameLoop, XrError>(XrError::AlreadyAcquired),
            r matches Ok(l) ==> l@ == (FrameLoopView {
                phase: FramePhase::Idle,
                swapchains: swapchains@,
                frame: FrameState {
                    predicted_display_time: 0,
                    predicted_display_period: 0,
                    should_render: false,
                },
                last_time: None,
                left_rendered: false,
                right_rendered: false,
            }),
            r matches Ok(l) ==> l@.wf(),
    {
        proof {
            use_type_invariant(&swapchains);
        }
        if !swapchains.is_idle() {
            return Err(XrError::AlreadyAcquired);
        }
        Ok(
            FrameLoop {
                swapchains,
                phase: FramePhase::Idle,
                frame: FrameState {
                    predicted_display_time: 0,
                    predicted_display_period: 0,
                    should_render: false,
                },
                last_time: None,
                left_rendered: false,
                right_rendered: false,
            },
        )
    }

    pub fn phase(&self) -> (r: FramePhase)
        ensures
            r == self@.phase,
    {
        self.phase
    }

    /// The forecast of the current tick, or of the last one.
    pub fn frame(&self) -> (r: FrameState)
        ensures
            r == self@.frame,
    {
        self.frame
    }

    pub fn swapchains(&self) -> (r: &SwapchainSet)
        ensures
            r@ == self@.swapchains,
    {
        &self.swapchains
    }

    /// Starts a tick: the host is to wait for the runtime's next frame.
    pub fn start_tick(&mut self, session: &Session) -> (r: Result<FrameAction, XrError>)
        requires
            old(self)@.wf(),
        ensures
            (final(self)@, r) == start_model(old(self)@, session@),
            final(self)@.wf(),
    {
        match self.phase {
            FramePhase::Idle => {},
            _ => {
                return Err(XrError::OutOfOrder);
            },
        }
        if session.is_lost() {
            return Err(XrError::SessionLost);
        }
        if !session.is_running() {
            return Err(XrError::SessionNotReady);
        }
        self.phase = FramePhase::WaitingFrame;
        Ok(FrameAction::WaitFrame)
    }

    /// Acts on an outside stop signal: only between ticks, never inside one,
    /// it moves the session to `Stopping` so that it can be ended gracefully.
    pub fn stop(&self, session: &mut Session) -> (r: Result<(), XrError>)
        ensures
            self@.phase != FramePhase::Idle ==> r == Err::<(), XrError>(XrError::OutOfOrder)
                && final(session)@ == old(session)@,
            self@.phase == FramePhase::Idle ==> (final(session)@, r) == stop_model(old(session)@),
    {
        match self.phase {
            FramePhase::Idle => session.request_stop(),
            _ => Err(XrError::OutOfOrder),
        }
    }

    fn end_action(&self) -> (r: FrameAction)
        ensures
            r == self@.end_action(),
    {
        let layer = if self.left_rendered || self.right_rendered {
            Some(CompositionLayer { left: self.left_rendered, right: self.right_rendered })
        } else {
            None
        };
        FrameAction::EndFrame { display_time: self.frame.predicted_display_time, layer }
    }

    /// Acquires the next image of eye `e`, which holds none.
    fn acquire_eye(&mut self, e: Eye) -> (r: FrameAction)
        requires
            old(self)@.swapchains.wf(),
            old(self)@.swapchains.eye(e).acquired is None,
        ensures
            final(self)@ == old(self)@.acquire(e),
            r == (FrameAction::AcquireImage { eye: e, handle: old(self)@.next_handle(e) }),
    {
        let handle = match self.swapchains.acquire_next(e) {
            Ok(h) => h,
            Err(_) => 0,
        };
        self.phase = FramePhase::WaitingImage(e);
        FrameAction::AcquireImage { eye: e, handle }
    }

    /// Applies the host's report of the pending action and returns the next
    /// action. A failure of the runtime to begin or to end the frame ends the
    /// tick and stops the session; a timed-out image is released unrendered
    /// and the tick goes on.
    pub fn advance(&mut self, session: &mut Session, ev: FrameEvent) -> (r: Result<FrameAction, XrError>)
        requires
            old(self)@.wf(),
        ensures
            (final(self)@, r) == step_model(old(self)@, ev),
            final(self)@.wf(),
            is_fatal(r) ==> final(session)@ == stop_model(old(session)@).0,
            !is_fatal(r) ==> final(session)@ == old(session)@,
    {
        match (self.phase, ev) {
            (FramePhase::WaitingFrame, FrameEvent::FrameWaited(fs)) => {
                let t = match self.last_time {
                    Some(last) => if fs.predicted_display_time < last {
                        last
                    } else {
                        fs.predicted_display_time
                    },
                    None => fs.predicted_display_time,
                };
                self.frame = FrameState {
                    predicted_display_time: t,
                    predicted_display_period: fs.predicted_display_period,
                    should_render: fs.should_render,
                };
                self.last_time = Some(t);
                self.phase = FramePhase::BeginningFrame;
                Ok(FrameAction::BeginFrame)
            },
            (FramePhase::BeginningFrame, FrameEvent::FrameBegun(ok)) => {
                if !ok {
                    self.phase = FramePhase::Idle;
                    let _ = session.request_stop();
                    return Err(XrError::BeginFrameFailed);
                }
                self.left_rendered = false;
                self.right_rendered = false;
                if self.frame.should_render {
                    Ok(self.acquire_eye(Eye::Left))
                } else {
                    self.phase = FramePhase::EndingFrame;
                    Ok(self.end_action())
                }
            },
            (FramePhase::WaitingImage(e), FrameEvent::ImageWaited(in_time)) => {
                let _ = self.swapchains.wait_image(e, in_time);
                if in_time {
                    self.phase = FramePhase::Rendering(e);
                    let i = match self.swapchains.acquired_index(e) {
                        Some(i) => i,
                        None => 0,
                    };
                    let handle = self.swapchains.image(e, i);
                    Ok(
                        FrameAction::Render {
                            eye: e,
                            handle,
                            display_time: self.frame.predicted_display_time,
                        },
                    )
                } else {
                    self.phase = FramePhase::Releasing(e);
                    Ok(FrameAction::ReleaseImage { eye: e })
                }
            },
            (FramePhase::Rendering(e), FrameEvent::Rendered) => {
                match e {
                    Eye::Left => {
                        self.left_rendered = true;
                    },
                    Eye::Right => {
                        self.right_rendered = true;
                    },
                }
                self.phase = FramePhase::Releasing(e);
                Ok(FrameAction::ReleaseImage { eye: e })
            },
            (FramePhase::Releasing(e), FrameEvent::ImageReleased) => {
                let _ = self.swapchains.release(e);
                match e {
                    Eye::Left => Ok(self.acquire_eye(Eye::Right)),
                    Eye::Right => {
                        self.phase = FramePhase::EndingFrame;
                        Ok(self.end_action())
                    },
                }
            },
            (FramePhase::EndingFrame, FrameEvent::FrameEnded(ok)) => {
                self.phase = FramePhase::Idle;
                if ok {
                    Ok(FrameAction::TickDone)
                } else {
                    let _ = session.request_stop();
                    Err(XrError::EndFrameFailed)
                }
            },
            _ => Err(XrError::OutOfOrder),
        }
    }
}

} // verus!
