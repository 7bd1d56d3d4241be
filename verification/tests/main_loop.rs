use vulkan_rust::app_loop::{
    instance_create_loader, recreate_swapchain_loader, sync_frame_index, AcquireOutcome, AppLoop,
    EventResponse, ImagesInFlight, PresentOutcome, WindowEvent,
};
use vulkan_rust::frame_info::FrameInfo;

#[test]
fn all_events_handled_runs_the_game_loop() {
    let mut state = AppLoop::new();
    let r = state.handle_event(WindowEvent::MainEventsCleared { shutdown_requested: false });
    assert_eq!(r, EventResponse { destroy: false, run_game_loop: true, exit: false });
    assert_eq!(state, AppLoop::new());
}

#[test]
fn resize_requests_a_new_swapchain_and_tracks_minimizing() {
    let mut state = AppLoop::new();
    let r = state.handle_event(WindowEvent::Resized { width: 0, height: 600 });
    assert_eq!(r, EventResponse { destroy: false, run_game_loop: false, exit: false });
    assert!(state.minimized && state.needs_new_swapchain);
    let r = state.handle_event(WindowEvent::MainEventsCleared { shutdown_requested: false });
    assert!(!r.run_game_loop);
    state.handle_event(WindowEvent::Resized { width: 800, height: 600 });
    assert!(!state.minimized);
    assert!(state.handle_event(WindowEvent::MainEventsCleared { shutdown_requested: false }).run_game_loop);
}

#[test]
fn close_escape_and_ctrl_c_shut_down_once() {
    let mut state = AppLoop::new();
    assert_eq!(state.handle_event(WindowEvent::KeyPressed { escape: false }), EventResponse { destroy: false, run_game_loop: false, exit: false });
    assert_eq!(state.handle_event(WindowEvent::KeyPressed { escape: true }), EventResponse { destroy: true, run_game_loop: false, exit: true });
    assert_eq!(state.handle_event(WindowEvent::CloseRequested), EventResponse { destroy: false, run_game_loop: false, exit: true });
    assert_eq!(state.handle_event(WindowEvent::MainEventsCleared { shutdown_requested: true }), EventResponse { destroy: false, run_game_loop: false, exit: true });

    let mut state = AppLoop::new();
    assert_eq!(state.handle_event(WindowEvent::MainEventsCleared { shutdown_requested: true }), EventResponse { destroy: true, run_game_loop: false, exit: true });
    let mut state2 = AppLoop::new();
    assert_eq!(state2.handle_event(WindowEvent::CloseRequested), EventResponse { destroy: true, run_game_loop: false, exit: true });
    assert!(state.destroying && state2.destroying);
}

#[test]
fn any_event_sequence_destroys_at_most_once() {
    let events = [
        WindowEvent::Other,
        WindowEvent::CloseRequested,
        WindowEvent::KeyPressed { escape: true },
        WindowEvent::MainEventsCleared { shutdown_requested: true },
        WindowEvent::CloseRequested,
    ];
    let mut state = AppLoop::new();
    let destroys = events.iter().filter(|e| state.handle_event(**e).destroy).count();
    assert_eq!(destroys, 1);
}

#[test]
fn out_of_date_swapchain_is_recreated() {
    let mut state = AppLoop::new();
    assert!(state.should_render());
    assert_eq!(state.after_acquire(AcquireOutcome::Acquired(2)), Ok(Some(2)));
    assert_eq!(state.after_present(PresentOutcome::Presented), Ok(()));
    assert!(!state.should_recreate_swapchain());
    assert_eq!(state.after_acquire(AcquireOutcome::OutOfDate), Ok(None));
    assert!(state.should_recreate_swapchain());
    assert!(!state.should_render());
    state.swapchain_recreated();
    assert!(state.should_render());
    assert_eq!(state.after_present(PresentOutcome::Suboptimal), Ok(()));
    assert!(state.should_recreate_swapchain());
    state.swapchain_recreated();
    assert_eq!(state.after_present(PresentOutcome::OutOfDate), Ok(()));
    assert!(state.needs_new_swapchain);
}

#[test]
fn other_render_errors_are_returned() {
    let mut state = AppLoop::new();
    assert_eq!(state.after_acquire(AcquireOutcome::Failed(-4)), Err(-4));
    assert_eq!(state.after_present(PresentOutcome::Failed(-3)), Err(-3));
    assert_eq!(state, AppLoop::new());
}

#[test]
fn frames_cycle_through_sync_objects() {
    assert_eq!(sync_frame_index(0, 2), 0);
    assert_eq!(sync_frame_index(5, 2), 1);
    assert_eq!(sync_frame_index(7, 3), 1);
}

#[test]
fn images_in_flight_hand_back_the_previous_fence() {
    let mut images = ImagesInFlight::new(3);
    assert_eq!(images.len(), 3);
    assert_eq!(images.claim(1, 10), None);
    assert_eq!(images.claim(1, 11), Some(10));
    assert_eq!(images.claim(0, 12), None);
    assert_eq!(images.claim(1, 13), Some(11));
}

#[test]
fn loader_chains() {
    assert_eq!(instance_create_loader(0, 3), Some(0));
    assert_eq!(instance_create_loader(2, 3), Some(2));
    assert_eq!(instance_create_loader(3, 3), None);
    assert_eq!(recreate_swapchain_loader(0, 3), Some(2));
    assert_eq!(recreate_swapchain_loader(2, 3), Some(0));
    assert_eq!(recreate_swapchain_loader(3, 3), None);
}

#[test]
fn frame_info_bookkeeping() {
    let mut info = FrameInfo::default();
    assert_eq!(info.current_frame_index, 0);
    assert_eq!(info.current_frame_delta_time, std::time::Duration::from_millis(0));
    let later = info.last_frame_start_time + std::time::Duration::from_millis(16);
    info.begin_frame(later);
    assert_eq!(info.current_frame_time, later);
    assert_eq!(info.current_frame_delta_time, std::time::Duration::from_millis(16));
    info.end_update();
    assert_eq!(info.last_frame_start_time, later);
    info.end_frame();
    assert_eq!(info.current_frame_index, 1);
    info.begin_frame(later - std::time::Duration::from_millis(5));
    assert_eq!(info.current_frame_delta_time, std::time::Duration::ZERO);
    assert_eq!(info.last_frame_start_time, later);
    info.start_frame();
    assert!(info.current_frame_time >= info.app_start_time);
    assert_eq!(info.last_frame_start_time, later);
}
