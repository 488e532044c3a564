use render_group::group::{begin_build, ColorCountMismatch, PlanError, SimpleGraphicsPipelineDesc, SimpleRenderGroupDesc};
use render_group::pipeline::{
    default_colors, BlendOp, BlendState, ColorBlendDesc, ColorMask, Comparison, DepthStencilDesc,
    DepthTest, Factor, Pipeline, Primitive, PrimitiveRestart,
};
use render_group::session::BuildStep;
use render_group::vertex::{VertexInput, VertexInputRate};

#[derive(Debug)]
struct Plain;

impl SimpleGraphicsPipelineDesc<u32> for Plain {}

#[derive(Debug)]
struct Disagreeing;

impl SimpleGraphicsPipelineDesc<u32> for Disagreeing {
    fn pipeline(&self) -> Pipeline<u32> {
        let mut p = Pipeline::standard();
        p.colors.push(p.colors[0]);
        p
    }
}

#[derive(Debug)]
struct NoDepth;

impl SimpleGraphicsPipelineDesc<u32> for NoDepth {
    fn depth_stencil(&self) -> Option<DepthStencilDesc> {
        None
    }
    fn vertices(&self) -> Vec<VertexInput<u32>> {
        vec![VertexInput { elements: vec![1, 2], stride: 12, rate: VertexInputRate::Vertex }]
    }
}

fn check_standard(p: &Pipeline<u32>) {
    assert!(p.layout.sets.is_empty());
    assert!(p.layout.push_constants.is_empty());
    assert!(p.vertices.is_empty());
    assert_eq!(
        p.colors,
        vec![ColorBlendDesc {
            mask: ColorMask { bits: 15 },
            blend: Some(BlendState {
                color: BlendOp::Add { src: Factor::SrcAlpha, dst: Factor::OneMinusSrcAlpha },
                alpha: BlendOp::Add { src: Factor::One, dst: Factor::OneMinusSrcAlpha },
            }),
        }]
    );
    assert_eq!(
        p.depth_stencil,
        DepthStencilDesc {
            depth: Some(DepthTest { fun: Comparison::Less, write: true }),
            depth_bounds: false,
            stencil: None,
        }
    );
    assert_eq!(p.input_assembler_desc.primitive, Primitive::TriangleList);
    assert_eq!(p.input_assembler_desc.primitive_restart, PrimitiveRestart::Disabled);
}

#[test]
fn standard_pipeline_defaults() {
    check_standard(&Pipeline::<u32>::standard());
}

#[test]
fn description_without_overrides_resolves_to_defaults() {
    check_standard(&Plain.pipeline());
    let desc = SimpleRenderGroupDesc::new(Plain);
    assert_eq!(desc.colors(), 1);
    assert!(desc.depth());
}

#[test]
fn missing_depth_stencil_resolves_to_no_test() {
    let p = NoDepth.pipeline();
    assert_eq!(p.depth_stencil, DepthStencilDesc { depth: None, depth_bounds: false, stencil: None });
    assert!(!SimpleRenderGroupDesc::new(NoDepth).depth());
}

#[test]
fn color_count_mismatch_is_refused() {
    let desc = SimpleRenderGroupDesc::new(Disagreeing);
    match desc.plan() {
        Err(e) => assert_eq!(e, PlanError::ColorCount(ColorCountMismatch { resolved: 2, reported: 1 })),
        Ok(_) => panic!("a disagreeing description was accepted"),
    }
    let r = begin_build(Pipeline::<u32>::standard(), 3);
    assert!(matches!(r, Err(PlanError::ColorCount(ColorCountMismatch { resolved: 1, reported: 3 }))));
}

#[test]
fn plan_packs_vertices_and_starts_session() {
    let plan = SimpleRenderGroupDesc::new(NoDepth).plan().unwrap();
    assert_eq!(plan.vertex_buffers.len(), 1);
    assert_eq!(plan.attributes.len(), 2);
    assert_eq!(plan.attributes[1].location, 1);
    assert_eq!(plan.session.step, BuildStep::LoadShaderSet);
    assert_eq!(plan.session.set_count, 0);
    assert_eq!(default_colors().len(), 1);
}
