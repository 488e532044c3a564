use render_group::group::{full_rect, teardown_order, FrameCycle, PrepareResult, Rect, TeardownStep};
use render_group::session::{BuildFailure, BuildSession, BuildStep};

/// Drives a session: every step succeeds but the one at position `fail_at` (counting
/// reports from 0). Returns the steps issued after the first, and the final session.
fn drive(set_count: usize, fail_at: Option<usize>) -> (Vec<BuildStep>, BuildSession) {
    let mut s = BuildSession::new(set_count);
    let mut steps = vec![s.step];
    let mut n = 0usize;
    while !s.is_done() {
        let ok = fail_at != Some(n);
        steps.push(s.advance(ok));
        n += 1;
        assert!(n < 100);
    }
    (steps, s)
}

fn count(steps: &[BuildStep], step: BuildStep) -> usize {
    steps.iter().filter(|s| **s == step).count()
}

#[test]
fn successful_build_sequence() {
    let (steps, s) = drive(2, None);
    assert_eq!(
        steps,
        vec![
            BuildStep::LoadShaderSet,
            BuildStep::CreateSetLayout(0),
            BuildStep::CreateSetLayout(1),
            BuildStep::CreatePipelineLayout,
            BuildStep::ResolveShaders,
            BuildStep::CreateGraphicsPipeline,
            BuildStep::BuildUserPipeline,
            BuildStep::ReleaseShaderSet,
            BuildStep::Finish,
        ]
    );
    assert_eq!(s.shader_set_releases, 1);
    assert!(s.graphics_pipeline && s.pipeline_layout && s.user_pipeline);
    assert_eq!(s.set_layouts, 2);
    assert_eq!(s.failure, None);
}

#[test]
fn graphics_pipeline_failure_unwinds() {
    // load, two set layouts, pipeline layout, shaders, then the pipeline fails
    let (steps, s) = drive(2, Some(5));
    assert_eq!(
        steps[6..].to_vec(),
        vec![
            BuildStep::DestroyPipelineLayout,
            BuildStep::ReleaseSetLayouts,
            BuildStep::ReleaseShaderSet,
            BuildStep::Fail,
        ]
    );
    assert_eq!(count(&steps, BuildStep::ReleaseShaderSet), 1);
    assert_eq!(s.shader_set_releases, 1);
    assert_eq!(s.failure, Some(BuildFailure::GraphicsPipeline));
    assert!(!s.graphics_pipeline && !s.pipeline_layout && !s.user_pipeline);
    assert_eq!(s.set_layouts, 0);
}

#[test]
fn every_single_failure_releases_shader_set_once() {
    let expected = [
        BuildFailure::SetLayout,
        BuildFailure::SetLayout,
        BuildFailure::PipelineLayout,
        BuildFailure::ShadersIncomplete,
        BuildFailure::GraphicsPipeline,
        BuildFailure::UserBuild,
    ];
    for (i, failure) in expected.iter().enumerate() {
        let (steps, s) = drive(2, Some(i + 1));
        assert_eq!(s.step, BuildStep::Fail);
        assert_eq!(s.failure, Some(*failure));
        assert_eq!(count(&steps, BuildStep::ReleaseShaderSet), 1);
        assert_eq!(s.shader_set_releases, 1);
        assert!(!s.graphics_pipeline && !s.pipeline_layout && !s.user_pipeline);
        assert_eq!(s.set_layouts, 0);
    }
}

#[test]
fn user_build_failure_destroys_pipeline_objects() {
    let (steps, s) = drive(0, Some(4));
    assert_eq!(
        steps,
        vec![
            BuildStep::LoadShaderSet,
            BuildStep::CreatePipelineLayout,
            BuildStep::ResolveShaders,
            BuildStep::CreateGraphicsPipeline,
            BuildStep::BuildUserPipeline,
            BuildStep::DestroyGraphicsPipeline,
            BuildStep::DestroyPipelineLayout,
            BuildStep::ReleaseShaderSet,
            BuildStep::Fail,
        ]
    );
    assert_eq!(s.failure, Some(BuildFailure::UserBuild));
}

#[test]
fn first_set_layout_failure_holds_nothing() {
    let (steps, s) = drive(3, Some(1));
    assert_eq!(
        steps,
        vec![
            BuildStep::LoadShaderSet,
            BuildStep::CreateSetLayout(0),
            BuildStep::ReleaseShaderSet,
            BuildStep::Fail,
        ]
    );
    assert_eq!(s.failure, Some(BuildFailure::SetLayout));
}

#[test]
fn finished_session_stays_finished() {
    let (_, mut s) = drive(1, None);
    assert_eq!(s.advance(false), BuildStep::Finish);
    assert_eq!(s.shader_set_releases, 1);
}

#[test]
fn build_then_dispose_without_frames() {
    let (_, s) = drive(1, None);
    assert_eq!(s.step, BuildStep::Finish);
    let cycle = FrameCycle::new();
    assert!(!cycle.can_draw());
    assert_eq!(
        teardown_order(),
        vec![
            TeardownStep::DisposeUserPipeline,
            TeardownStep::DestroyGraphicsPipeline,
            TeardownStep::DestroyPipelineLayout,
            TeardownStep::ReleaseSetLayouts,
        ]
    );
}

#[test]
fn prepare_then_draw_each_frame() {
    let mut cycle = FrameCycle::new();
    assert_eq!(cycle.prepare(0, PrepareResult::DrawRecord), PrepareResult::DrawRecord);
    assert!(cycle.can_draw());
    assert_eq!(cycle.prepare(1, PrepareResult::DrawReuse), PrepareResult::DrawReuse);
    assert_eq!(cycle.prepared, Some(1));
}

#[test]
fn full_framebuffer_rect() {
    assert_eq!(full_rect(800, 600), Rect { x: 0, y: 0, w: 800, h: 600 });
    assert_eq!(full_rect(0, 0), Rect { x: 0, y: 0, w: 0, h: 0 });
}
