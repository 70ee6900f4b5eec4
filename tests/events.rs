use wgpu_tutorial::events::{Reaction, WindowEvent};
use wgpu_tutorial::surface::{AspectRatio, SurfaceSize, ViewState};

#[test]
fn resize_then_redraw_keeps_the_new_size() {
    let mut v = ViewState::new(512, 512);
    let r = v.handle(WindowEvent::Resized { width: 1024, height: 256 });
    assert_eq!(r, Reaction::Reconfigure { size: SurfaceSize { width: 1024, height: 256 } });
    assert_eq!(v.handle(WindowEvent::RedrawRequested), Reaction::Redraw);
    assert_eq!(v.surface, SurfaceSize { width: 1024, height: 256 });
    assert_eq!(v.aspect, AspectRatio { width: 1024, height: 256 });
}

#[test]
fn resize_to_zero_never_configures_zero() {
    let mut v = ViewState::new(512, 512);
    let r = v.handle(WindowEvent::Resized { width: 0, height: 0 });
    assert_eq!(r, Reaction::Reconfigure { size: SurfaceSize { width: 1, height: 1 } });
    assert_eq!(v.surface, SurfaceSize { width: 1, height: 1 });
}

#[test]
fn resize_800_by_600_then_redraw() {
    let mut v = ViewState::new(512, 512);
    v.handle(WindowEvent::Resized { width: 800, height: 600 });
    assert_eq!(v.handle(WindowEvent::RedrawRequested), Reaction::Redraw);
    assert_eq!((v.surface.width, v.surface.height), (800, 600));
    let aspect = v.aspect.width as f32 / v.aspect.height as f32;
    assert!((aspect - 1.333).abs() < 1e-3);
}

#[test]
fn other_events_leave_state_alone() {
    let mut v = ViewState::new(640, 480);
    let before = v;
    assert_eq!(v.handle(WindowEvent::CloseRequested), Reaction::Exit);
    assert_eq!(v.handle(WindowEvent::AboutToWait), Reaction::RequestRedraw);
    assert_eq!(v.handle(WindowEvent::Other), Reaction::Ignore);
    assert_eq!(v.handle(WindowEvent::RedrawRequested), Reaction::Redraw);
    assert_eq!(v, before);
}
