use opengear::lifecycle::{
    on_about_to_wait, on_window_event, teardown_plan, LiveResources, LoopAction, TeardownStep,
    WindowEventKind,
};

#[test]
fn window_events() {
    assert_eq!(on_window_event(WindowEventKind::CloseRequested), LoopAction::Exit);
    assert_eq!(on_window_event(WindowEventKind::RedrawRequested), LoopAction::Nothing);
    assert_eq!(on_window_event(WindowEventKind::Other), LoopAction::Nothing);
    assert_eq!(on_about_to_wait(true), LoopAction::RequestRedraw);
    assert_eq!(on_about_to_wait(false), LoopAction::Nothing);
}

fn all_live(views: usize) -> LiveResources {
    LiveResources {
        image_views: views,
        swapchain_loader: true,
        swapchain: true,
        device: true,
        surface_loader: true,
        surface: true,
        debug_utils_loader: true,
        debug_messenger: true,
        instance: true,
    }
}

#[test]
fn full_teardown_order() {
    assert_eq!(
        teardown_plan(&all_live(2)),
        vec![
            TeardownStep::DestroyImageView(0),
            TeardownStep::DestroyImageView(1),
            TeardownStep::DestroySwapchain,
            TeardownStep::DestroyDevice,
            TeardownStep::DestroySurface,
            TeardownStep::DestroyDebugMessenger,
            TeardownStep::DestroyInstance,
        ]
    );
}

#[test]
fn partial_teardown() {
    let mut r = all_live(0);
    r.swapchain = false;
    r.debug_utils_loader = false;
    assert_eq!(
        teardown_plan(&r),
        vec![TeardownStep::DestroyDevice, TeardownStep::DestroySurface, TeardownStep::DestroyInstance]
    );
}
