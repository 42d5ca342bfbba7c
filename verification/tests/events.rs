use wgpu_learn_02::events::{
    handle_window_event, WindowAction, WindowEvent, FRAME_INTERVAL_MILLIS,
};

#[test]
fn close_request_exits() {
    assert_eq!(
        handle_window_event(&WindowEvent::CloseRequested),
        WindowAction::Exit
    );
}

#[test]
fn redraw_renders_once_the_frame_cap_allows() {
    let e = WindowEvent::RedrawRequested {
        window_matches: true,
        renderer_ready: true,
        elapsed_millis: FRAME_INTERVAL_MILLIS,
    };
    assert_eq!(handle_window_event(&e), WindowAction::RenderAndRequestRedraw);
}

#[test]
fn redraw_too_soon_only_queues_the_next_one() {
    let e = WindowEvent::RedrawRequested {
        window_matches: true,
        renderer_ready: true,
        elapsed_millis: FRAME_INTERVAL_MILLIS - 1,
    };
    assert_eq!(handle_window_event(&e), WindowAction::RequestRedrawOnly);
}

#[test]
fn redraw_without_a_renderer_only_queues_the_next_one() {
    let e = WindowEvent::RedrawRequested {
        window_matches: true,
        renderer_ready: false,
        elapsed_millis: 10_000,
    };
    assert_eq!(handle_window_event(&e), WindowAction::RequestRedrawOnly);
}

#[test]
fn redraw_for_a_foreign_window_is_ignored() {
    let e = WindowEvent::RedrawRequested {
        window_matches: false,
        renderer_ready: true,
        elapsed_millis: 10_000,
    };
    assert_eq!(handle_window_event(&e), WindowAction::Ignore);
}

#[test]
fn resize_reconfigures_only_nonempty_sizes() {
    assert_eq!(
        handle_window_event(&WindowEvent::Resized { width: 800, height: 600 }),
        WindowAction::Reconfigure { width: 800, height: 600 }
    );
    assert_eq!(
        handle_window_event(&WindowEvent::Resized { width: 0, height: 600 }),
        WindowAction::Ignore
    );
    assert_eq!(
        handle_window_event(&WindowEvent::Resized { width: 800, height: 0 }),
        WindowAction::Ignore
    );
}

#[test]
fn other_events_are_ignored() {
    assert_eq!(handle_window_event(&WindowEvent::Other), WindowAction::Ignore);
}
