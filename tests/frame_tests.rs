use xr_session::error::XrError;
use xr_session::frame_loop::{
    CompositionLayer, FrameAction, FrameEvent, FrameLoop, FramePhase, FrameState,
};
use xr_session::session::{RuntimeEvent, Session, SessionState};
use xr_session::swapchain::{negotiate_format, Eye, Resolution, SwapchainSet, RGBA8};

fn focused_session() -> Session {
    let mut s = Session::create(&vec![], &vec![]).unwrap();
    s.poll_events(&vec![RuntimeEvent::RuntimeReady]).unwrap();
    s.begin_session().unwrap();
    s.poll_events(&vec![RuntimeEvent::BecomesVisible, RuntimeEvent::BecomesFocused])
        .unwrap();
    s
}

fn square(n: u32) -> Resolution {
    Resolution { width: n, height: n }
}

fn swapchains() -> SwapchainSet {
    SwapchainSet::create(square(1024), square(1024), RGBA8, vec![11, 12, 13], vec![21, 22, 23])
        .unwrap()
}

fn frame(t: u64, render: bool) -> FrameState {
    FrameState {
        predicted_display_time: t,
        predicted_display_period: 11_111_111,
        should_render: render,
    }
}

#[test]
fn create_rejects_empty_pool() {
    assert_eq!(
        SwapchainSet::create(square(8), square(8), RGBA8, vec![], vec![1]).err(),
        Some(XrError::EmptyImagePool)
    );
    let set = swapchains();
    assert_eq!(set.resolution(Eye::Right), square(1024));
    assert_eq!(set.format(), RGBA8);
    assert_eq!(set.image_count(Eye::Left), 3);
    assert!(set.is_idle());
}

#[test]
fn acquire_twice_fails() {
    let mut set = swapchains();
    assert_eq!(set.acquire_next(Eye::Left), Ok(11));
    assert_eq!(set.acquire_next(Eye::Left), Err(XrError::AlreadyAcquired));
    assert_eq!(set.acquired_index(Eye::Left), Some(0));
    assert_eq!(set.acquire_next(Eye::Right), Ok(21));
}

#[test]
fn acquire_rotates_through_pool() {
    let mut set = swapchains();
    let mut got = Vec::new();
    for _ in 0..4 {
        got.push(set.acquire_next(Eye::Right).unwrap());
        set.release(Eye::Right).unwrap();
    }
    assert_eq!(got, vec![21, 22, 23, 21]);
}

#[test]
fn release_without_acquire_fails() {
    let mut set = swapchains();
    assert_eq!(set.release(Eye::Left), Err(XrError::NotAcquired));
    set.acquire_next(Eye::Left).unwrap();
    assert_eq!(set.release(Eye::Left), Ok(()));
    assert_eq!(set.release(Eye::Left), Err(XrError::NotAcquired));
}

#[test]
fn wait_image_outcomes() {
    let mut set = swapchains();
    assert_eq!(set.wait_image(Eye::Left, true), Err(XrError::NotAcquired));
    set.acquire_next(Eye::Left).unwrap();
    assert_eq!(set.wait_image(Eye::Left, false), Err(XrError::AcquireTimeout));
    assert_eq!(set.acquired_index(Eye::Left), Some(0));
    assert_eq!(set.wait_image(Eye::Left, true), Ok(()));
    assert_eq!(set.release(Eye::Left), Ok(()));
}

#[test]
fn negotiate_format_prefers_request_order() {
    assert_eq!(negotiate_format(&vec![5, 7, 9], &vec![9, 7]), Some(7));
    assert_eq!(negotiate_format(&vec![5], &vec![9, 7]), Some(9));
    assert_eq!(negotiate_format(&vec![5], &vec![]), None);
}

#[test]
fn loop_rejects_held_image() {
    let mut set = swapchains();
    set.acquire_next(Eye::Right).unwrap();
    assert_eq!(FrameLoop::new(set).err(), Some(XrError::AlreadyAcquired));
}

#[test]
fn tick_needs_running_session() {
    let mut l = FrameLoop::new(swapchains()).unwrap();
    let idle = Session::create(&vec![], &vec![]).unwrap();
    assert_eq!(l.start_tick(&idle), Err(XrError::SessionNotReady));
    let mut lost = focused_session();
    lost.poll_events(&vec![RuntimeEvent::InstanceLossPending]).unwrap();
    assert_eq!(l.start_tick(&lost), Err(XrError::SessionLost));
    assert_eq!(l.phase(), FramePhase::Idle);
}

#[test]
fn report_out_of_order_is_rejected() {
    let mut s = focused_session();
    let mut l = FrameLoop::new(swapchains()).unwrap();
    assert_eq!(l.advance(&mut s, FrameEvent::Rendered), Err(XrError::OutOfOrder));
    l.start_tick(&s).unwrap();
    assert_eq!(l.start_tick(&s), Err(XrError::OutOfOrder));
    assert_eq!(l.advance(&mut s, FrameEvent::FrameBegun(true)), Err(XrError::OutOfOrder));
    assert_eq!(l.phase(), FramePhase::WaitingFrame);
    assert_eq!(s.state(), SessionState::Focused);
}

#[test]
fn skipped_frame_ends_with_zero_layers() {
    let mut s = focused_session();
    let mut l = FrameLoop::new(swapchains()).unwrap();
    assert_eq!(l.start_tick(&s), Ok(FrameAction::WaitFrame));
    assert_eq!(
        l.advance(&mut s, FrameEvent::FrameWaited(frame(500, false))),
        Ok(FrameAction::BeginFrame)
    );
    assert_eq!(
        l.advance(&mut s, FrameEvent::FrameBegun(true)),
        Ok(FrameAction::EndFrame { display_time: 500, layer: None })
    );
    assert!(l.swapchains().is_idle());
    assert_eq!(l.swapchains().acquired_index(Eye::Left), None);
    assert_eq!(l.advance(&mut s, FrameEvent::FrameEnded(true)), Ok(FrameAction::TickDone));
}

#[test]
fn right_timeout_completes_tick() {
    let mut s = focused_session();
    let mut l = FrameLoop::new(swapchains()).unwrap();
    l.start_tick(&s).unwrap();
    l.advance(&mut s, FrameEvent::FrameWaited(frame(1_000, true))).unwrap();
    assert_eq!(
        l.advance(&mut s, FrameEvent::FrameBegun(true)),
        Ok(FrameAction::AcquireImage { eye: Eye::Left, handle: 11 })
    );
    assert_eq!(
        l.advance(&mut s, FrameEvent::ImageWaited(true)),
        Ok(FrameAction::Render { eye: Eye::Left, handle: 11, display_time: 1_000 })
    );
    assert_eq!(
        l.advance(&mut s, FrameEvent::Rendered),
        Ok(FrameAction::ReleaseImage { eye: Eye::Left })
    );
    assert_eq!(
        l.advance(&mut s, FrameEvent::ImageReleased),
        Ok(FrameAction::AcquireImage { eye: Eye::Right, handle: 21 })
    );
    assert_eq!(
        l.advance(&mut s, FrameEvent::ImageWaited(false)),
        Ok(FrameAction::ReleaseImage { eye: Eye::Right })
    );
    assert_eq!(
        l.advance(&mut s, FrameEvent::ImageReleased),
        Ok(FrameAction::EndFrame {
            display_time: 1_000,
            layer: Some(CompositionLayer { left: true, right: false }),
        })
    );
    assert_eq!(l.advance(&mut s, FrameEvent::FrameEnded(true)), Ok(FrameAction::TickDone));
    assert_eq!(l.phase(), FramePhase::Idle);
    assert!(l.swapchains().is_idle());
    assert_eq!(s.state(), SessionState::Focused);
}

#[test]
fn display_time_never_goes_back() {
    let mut s = focused_session();
    let mut l = FrameLoop::new(swapchains()).unwrap();
    let mut seen = Vec::new();
    for t in [300u64, 200, 400] {
        l.start_tick(&s).unwrap();
        l.advance(&mut s, FrameEvent::FrameWaited(frame(t, false))).unwrap();
        seen.push(l.frame().predicted_display_time);
        l.advance(&mut s, FrameEvent::FrameBegun(true)).unwrap();
        l.advance(&mut s, FrameEvent::FrameEnded(true)).unwrap();
    }
    assert_eq!(seen, vec![300, 300, 400]);
}

#[test]
fn begin_frame_failure_stops_session() {
    let mut s = focused_session();
    let mut l = FrameLoop::new(swapchains()).unwrap();
    l.start_tick(&s).unwrap();
    l.advance(&mut s, FrameEvent::FrameWaited(frame(10, true))).unwrap();
    assert_eq!(
        l.advance(&mut s, FrameEvent::FrameBegun(false)),
        Err(XrError::BeginFrameFailed)
    );
    assert_eq!(s.state(), SessionState::Stopping);
    assert_eq!(l.phase(), FramePhase::Idle);
    assert_eq!(l.start_tick(&s), Err(XrError::SessionNotReady));
}

#[test]
fn end_frame_failure_stops_session() {
    let mut s = focused_session();
    let mut l = FrameLoop::new(swapchains()).unwrap();
    l.start_tick(&s).unwrap();
    l.advance(&mut s, FrameEvent::FrameWaited(frame(10, false))).unwrap();
    l.advance(&mut s, FrameEvent::FrameBegun(true)).unwrap();
    assert_eq!(
        l.advance(&mut s, FrameEvent::FrameEnded(false)),
        Err(XrError::EndFrameFailed)
    );
    assert_eq!(s.state(), SessionState::Stopping);
    assert_eq!(s.end_session(), Ok(()));
    assert_eq!(s.state(), SessionState::Idle);
}

#[test]
fn ten_focused_ticks_submit_two_view_layers() {
    let mut s = focused_session();
    assert_eq!(s.state(), SessionState::Focused);
    let set = SwapchainSet::create(square(1024), square(1024), RGBA8, vec![11, 12, 13], vec![21, 22, 23]);
    assert!(set.is_ok());
    let mut l = FrameLoop::new(set.unwrap()).unwrap();
    let mut times = Vec::new();
    let mut rendered = Vec::new();
    for k in 0..10u64 {
        let mut layers = 0;
        let mut action = l.start_tick(&s).unwrap();
        loop {
            let ev = match action {
                FrameAction::WaitFrame => FrameEvent::FrameWaited(frame(1_000 + 11 * k, true)),
                FrameAction::BeginFrame => FrameEvent::FrameBegun(true),
                FrameAction::AcquireImage { .. } => FrameEvent::ImageWaited(true),
                FrameAction::Render { eye, handle, display_time } => {
                    rendered.push((eye, handle));
                    times.push(display_time);
                    FrameEvent::Rendered
                }
                FrameAction::ReleaseImage { .. } => FrameEvent::ImageReleased,
                FrameAction::EndFrame { display_time, layer } => {
                    assert_eq!(display_time, 1_000 + 11 * k);
                    assert_eq!(layer, Some(CompositionLayer { left: true, right: true }));
                    layers += 1;
                    FrameEvent::FrameEnded(true)
                }
                FrameAction::TickDone => break,
            };
            action = l.advance(&mut s, ev).unwrap();
        }
        assert_eq!(layers, 1);
        assert!(l.swapchains().is_idle());
    }
    assert_eq!(rendered.len(), 20);
    for k in 0..10usize {
        assert_eq!(rendered[2 * k], (Eye::Left, 11 + (k as u64 % 3)));
        assert_eq!(rendered[2 * k + 1], (Eye::Right, 21 + (k as u64 % 3)));
    }
    for k in 1..10usize {
        assert!(times[2 * k] > times[2 * k - 2]);
    }
    assert_eq!(s.state(), SessionState::Focused);
}

#[test]
fn stop_waits_for_tick_boundary() {
    let mut s = focused_session();
    let mut l = FrameLoop::new(swapchains()).unwrap();
    l.start_tick(&s).unwrap();
    assert_eq!(l.stop(&mut s), Err(XrError::OutOfOrder));
    assert_eq!(s.state(), SessionState::Focused);
    l.advance(&mut s, FrameEvent::FrameWaited(frame(10, false))).unwrap();
    l.advance(&mut s, FrameEvent::FrameBegun(true)).unwrap();
    l.advance(&mut s, FrameEvent::FrameEnded(true)).unwrap();
    assert_eq!(l.stop(&mut s), Ok(()));
    assert_eq!(s.state(), SessionState::Stopping);
    assert_eq!(s.end_session(), Ok(()));
}
