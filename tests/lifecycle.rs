use vera_station_alert::clock::WallTime;
use vera_station_alert::display::{DisplayEvent, DisplayFlags, UserInterfaceView, WindowEvent};
use vera_station_alert::lifecycle::{LoopState, MainLoop, Report, Step, ViewKind};

fn running() -> MainLoop {
    let mut m = MainLoop::new();
    m.advance(Report::Succeeded);
    m
}

#[test]
fn loop_initializes_first() {
    let m = MainLoop::new();
    assert_eq!(m.step(), Step::Initialize);
    assert_eq!(m.state(), LoopState::Created);
    let m = running();
    assert_eq!(m.step(), Step::HandleEvents);
    assert_eq!(m.state(), LoopState::Running);
}

#[test]
fn failed_initialization_never_cleans_up() {
    let mut m = MainLoop::new();
    m.advance(Report::Failed);
    assert!(m.is_finished());
    assert!(m.has_failed());
    assert_eq!(m.state(), LoopState::Terminated);
    m.advance(Report::Succeeded);
    assert_eq!(m.step(), Step::Exit);
}

#[test]
fn one_iteration_renders_the_selected_view_then_paces() {
    let mut m = running();
    m.advance(Report::Succeeded);
    assert_eq!(m.step(), Step::CheckShutdown);
    m.advance(Report::ShutdownRequested(false));
    assert_eq!(m.step(), Step::SelectView);
    m.advance(Report::ViewSelected(Some(ViewKind::Alert)));
    assert_eq!(m.step(), Step::RenderAlert);
    m.advance(Report::Succeeded);
    assert_eq!(m.step(), Step::Pace);
    m.advance(Report::Succeeded);
    assert_eq!(m.step(), Step::HandleEvents);
}

#[test]
fn no_view_skips_rendering() {
    let mut m = running();
    m.advance(Report::Succeeded);
    m.advance(Report::ShutdownRequested(false));
    m.advance(Report::ViewSelected(None));
    assert_eq!(m.step(), Step::Pace);
}

#[test]
fn render_failure_ends_the_loop() {
    let mut m = running();
    m.advance(Report::Succeeded);
    m.advance(Report::ShutdownRequested(false));
    m.advance(Report::ViewSelected(Some(ViewKind::Clock)));
    assert_eq!(m.step(), Step::RenderClock);
    m.advance(Report::Failed);
    assert!(m.is_finished());
    assert!(m.has_failed());
}

#[test]
fn close_event_leads_to_cleanup_without_render() {
    let mut flags = DisplayFlags::new();
    assert!(!flags.is_shutdown_requested());
    let events = vec![
        DisplayEvent::Other,
        DisplayEvent::Window(WindowEvent::Resized(800, 600)),
        DisplayEvent::Window(WindowEvent::Close),
    ];
    flags.handle_events(&events);
    assert!(flags.is_shutdown_requested());

    let mut m = running();
    m.advance(Report::Succeeded);
    m.advance(Report::ShutdownRequested(flags.is_shutdown_requested()));
    assert_eq!(m.step(), Step::Cleanup);
    assert_eq!(m.state(), LoopState::ShuttingDown);
    m.advance(Report::Succeeded);
    assert!(m.is_finished());
    assert!(!m.has_failed());
}

#[test]
fn other_events_leave_the_flag_alone() {
    let mut flags = DisplayFlags::new();
    flags.handle_events(&vec![DisplayEvent::Window(WindowEvent::Other), DisplayEvent::Other]);
    assert!(!flags.is_shutdown_requested());
    flags.handle_window_event(WindowEvent::Resized(1, 1));
    assert!(!flags.is_shutdown_requested());
    flags.handle_window_event(WindowEvent::Close);
    assert!(flags.is_shutdown_requested());
}

#[test]
fn view_kinds() {
    let clock: UserInterfaceView<u8> = UserInterfaceView::Clock(WallTime::new(1, 2, 3).unwrap());
    assert_eq!(clock.kind(), ViewKind::Clock);
    assert_eq!(UserInterfaceView::Alert(7u8).kind(), ViewKind::Alert);
}
