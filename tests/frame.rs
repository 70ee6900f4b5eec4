use wgpu_tutorial::events::{Reaction, WindowEvent};
use wgpu_tutorial::frame::{pass_commands, FrameAction, FramePhase, PassCommand};
use wgpu_tutorial::geometry::Geometry;
use wgpu_tutorial::pipeline::pipeline_group_layouts;
use wgpu_tutorial::surface::ViewState;

/// Drives one frame with the given acquire result; returns the end phase and
/// the actions carried out.
fn drive(acquire_ok: bool) -> (FramePhase, Vec<FrameAction>) {
    let mut phase = FramePhase::Idle;
    let mut done = Vec::new();
    loop {
        let a = phase.action();
        match a {
            FrameAction::Finished | FrameAction::Abort => return (phase, done),
            FrameAction::AcquireImage => {
                done.push(a);
                phase = phase.next(acquire_ok);
            }
            _ => {
                done.push(a);
                phase = phase.next(true);
            }
        }
    }
}

#[test]
fn one_redraw_at_512_presents_one_frame() {
    let mut v = ViewState::new(512, 512);
    assert_eq!(v.handle(WindowEvent::RedrawRequested), Reaction::Redraw);
    let (phase, done) = drive(true);
    assert_eq!(phase, FramePhase::Presented);
    assert_eq!(done.iter().filter(|a| **a == FrameAction::Present).count(), 1);
    assert_eq!(
        done,
        vec![FrameAction::AcquireImage, FrameAction::RecordAndSubmit, FrameAction::Present]
    );
}

#[test]
fn failed_acquire_ends_the_frame() {
    let (phase, done) = drive(false);
    assert_eq!(phase, FramePhase::AcquireFailed);
    assert_eq!(phase.action(), FrameAction::Abort);
    assert_eq!(done, vec![FrameAction::AcquireImage]);
}

#[test]
fn end_phases_stay() {
    assert_eq!(FramePhase::Presented.next(false), FramePhase::Presented);
    assert_eq!(FramePhase::AcquireFailed.next(true), FramePhase::AcquireFailed);
    assert_eq!(FramePhase::Recording.next(false), FramePhase::Submitted);
    assert_eq!(FramePhase::Submitted.next(true), FramePhase::Presented);
}

#[test]
fn frame_pass_binds_in_slot_order_and_draws_once() {
    let g = Geometry::quad();
    let groups = pipeline_group_layouts().len() as u32;
    let c = pass_commands(g.num_indices(), groups);
    assert_eq!(
        c,
        vec![
            PassCommand::BeginPass,
            PassCommand::SetPipeline,
            PassCommand::SetBindGroup { slot: 0 },
            PassCommand::SetBindGroup { slot: 1 },
            PassCommand::SetVertexBuffer { slot: 0 },
            PassCommand::SetIndexBuffer16,
            PassCommand::DrawIndexed { first_index: 0, index_count: 6, base_vertex: 0, instance_count: 1 },
            PassCommand::EndPass,
        ]
    );
}

#[test]
fn pass_without_bind_groups() {
    let c = pass_commands(0, 0);
    assert_eq!(c.len(), 6);
    assert_eq!(c[0], PassCommand::BeginPass);
    assert_eq!(c[5], PassCommand::EndPass);
    assert_eq!(
        c[4],
        PassCommand::DrawIndexed { first_index: 0, index_count: 0, base_vertex: 0, instance_count: 1 }
    );
}
