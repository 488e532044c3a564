use crate::pipeline::{
    default_colors, default_depth_stencil, default_input_assembler, default_layout,
    ColorBlendDesc, DepthStencilDesc, InputAssemblerDesc, Layout, Pipeline,
};
use crate::session::{initial, BuildSession};
use crate::vertex::{
    pack_vertex_inputs, packed_attributes, packed_bindings, total_elements, AttributeDesc,
    VertexBufferDesc, VertexInput,
};
use vstd::prelude::*;

verus! {

/// The declarative side of a simple graphics pipeline: what a description reports
/// about the pipeline it wants. Each method has the standard answer as its default.
pub trait SimpleGraphicsPipelineDesc<E>: Sized {
    /// Color blend targets; by default one target, all channels, alpha blended.
    fn colors(&self) -> Vec<ColorBlendDesc> {
        default_colors()
    }

    /// Depth and stencil state; by default depth test less-than with writes.
    fn depth_stencil(&self) -> Option<DepthStencilDesc> {
        default_depth_stencil()
    }

    /// Vertex buffers; by default none.
    fn vertices(&self) -> Vec<VertexInput<E>> {
        Vec::new()
    }

    /// Descriptor sets and push constants; by default none.
    fn layout(&self) -> Layout {
        default_layout()
    }

    /// The input assembler; by default triangle lists without restart.
    fn input_assembler(&self) -> InputAssemblerDesc {
        default_input_assembler()
    }

    /// The resolved pipeline, from the answers of the other methods.
    fn pipeline(&self) -> Pipeline<E> {
        Pipeline::from_parts(
            self.layout(),
            self.vertices(),
            self.colors(),
            self.depth_stencil(),
            self.input_assembler(),
        )
    }
}


/// A description whose resolved pipeline has a different number of color targets than
/// its own `colors` reports: a defect of the description.
#[derive(Clone, Copy, Debug, PartialEq, Eq, Structural)]
pub struct ColorCountMismatch {
    pub resolved: usize,
    pub reported: usize,
}

/// Why a build cannot start.
#[derive(Clone, Copy, Debug, PartialEq, Eq, Structural)]
pub enum PlanError {
    /// The description's two color answers disagree.
    ColorCount(ColorCountMismatch),
    /// The vertex layout needs binding or location numbers beyond 32 bits.
    VertexLayoutTooLarge,
}

/// Everything a build needs before it touches the device: the resolved pipeline, its
/// packed vertex layout, and the session that sequences the device work.
#[derive(Debug)]
pub struct BuildPlan<E> {
    pub pipeline: Pipeline<E>,
    pub vertex_buffers: Vec<VertexBufferDesc>,
    pub attributes: Vec<AttributeDesc<E>>,
    pub session: BuildSession,
}

/// The number of vertex elements over all buffers, if it fits in 64 bits.
fn count_elements<E>(inputs: &Vec<VertexInput<E>>) -> (r: u64)
    requires
        inputs.len() <= u32::MAX + 1,
    ensures
        r == total_elements(inputs@) || (r > u32::MAX + 1 && total_elements(inputs@) > u32::MAX + 1),
{
    let mut n: u64 = 0;
    let mut i: usize = 0;
    while i < inputs.len()
        invariant
            i <= inputs.len(),
            n <= u32::MAX + 1 ==> n == total_elements(inputs@.take(i as int)),
            n > u32::MAX + 1 ==> total_elements(inputs@.take(i as int)) > u32::MAX + 1
                && total_elements(inputs@) > u32::MAX + 1,
        decreases inputs.len() - i,
    {
        proof {
            crate::vertex::lemma_total_take_step(inputs@, i as int);
            crate::vertex::lemma_total_take_bound(inputs@, i as int + 1);
        }
        let c = inputs[i].elements.len();
        if n <= u32::MAX as u64 + 1 {
            if c as u64 > u32::MAX as u64 + 1 {
                n = u32::MAX as u64 + 2;
            } else {
                n = n + c as u64;
            }
        }
        i = i + 1;
    }
    assert(inputs@.take(i as int) =~= inputs@);
    n
}

/// Starts a build of `pipeline`, whose description reported `reported_colors` color
/// targets. It fails exactly when the two color counts disagree, or when the vertex
/// layout does not fit 32-bit numbers; otherwise the plan holds the pipeline, its
/// packed vertex layout and a session at its first step.
pub fn begin_build<E: Copy>(pipeline: Pipeline<E>, reported_colors: usize) -> (r: Result<
    BuildPlan<E>,
    PlanError,
>)
    ensures
        pipeline.colors@.len() != reported_colors ==> r == Err::<BuildPlan<E>, PlanError>(
            PlanError::ColorCount(
                ColorCountMismatch { resolved: pipeline.colors.len(), reported: reported_colors },
            ),
        ),
        pipeline.colors@.len() == reported_colors && (pipeline.vertices@.len() > u32::MAX + 1
            || total_elements(pipeline.vertices@) > u32::MAX + 1) ==> r == Err::<
            BuildPlan<E>,
            PlanError,
        >(PlanError::VertexLayoutTooLarge),
        r is Ok <==> (pipeline.colors@.len() == reported_colors && pipeline.vertices@.len() <= u32::MAX
            + 1 && total_elements(pipeline.vertices@) <= u32::MAX + 1),
        r matches Ok(plan) ==> {
            &&& plan.pipeline == pipeline
            &&& plan.vertex_buffers@ == packed_bindings(pipeline.vertices@)
            &&& plan.attributes@ == packed_attributes(pipeline.vertices@)
            &&& plan.session == initial(pipeline.layout.sets.len())
        },
{
    if pipeline.colors.len() != reported_colors {
        return Err(
            PlanError::ColorCount(
                ColorCountMismatch { resolved: pipeline.colors.len(), reported: reported_colors },
            ),
        );
    }
    if pipeline.vertices.len() as u64 > u32::MAX as u64 + 1 {
        return Err(PlanError::VertexLayoutTooLarge);
    }
    if count_elements(&pipeline.vertices) > u32::MAX as u64 + 1 {
        return Err(PlanError::VertexLayoutTooLarge);
    }
    let (vertex_buffers, attributes) = pack_vertex_inputs(&pipeline.vertices);
    let session = BuildSession::new(pipeline.layout.sets.len());
    Ok(BuildPlan { pipeline, vertex_buffers, attributes, session })
}

/// A render group description made of a simple graphics pipeline description.
#[derive(Debug)]
pub struct SimpleRenderGroupDesc<P> {
    inner: P,
}

impl<P> SimpleRenderGroupDesc<P> {
    /// Wraps a pipeline description.
    pub fn new(inner: P) -> (r: Self)
        ensures
            r.inner() == inner,
    {
        SimpleRenderGroupDesc { inner }
    }

    /// The wrapped pipeline description.
    pub closed spec fn inner(&self) -> P {
        self.inner
    }

    /// A view of the wrapped pipeline description.
    pub fn inner_ref(&self) -> (r: &P)
        ensures
            *r == self.inner(),
    {
        &self.inner
    }

    /// Gives the wrapped pipeline description back.
    pub fn into_inner(self) -> (r: P)
        ensures
            r == self.inner(),
    {
        self.inner
    }
}

impl<P> SimpleRenderGroupDesc<P> {
    /// The number of color targets the description reports.
    pub fn colors<E>(&self) -> usize
        where P: SimpleGraphicsPipelineDesc<E>,
    {
        self.inner.colors().len()
    }

    /// Whether the description asks for depth and stencil state.
    pub fn depth<E>(&self) -> bool
        where P: SimpleGraphicsPipelineDesc<E>,
    {
        self.inner.depth_stencil().is_some()
    }

    /// Resolves the description's pipeline and starts its build: see `begin_build`.
    pub fn plan<E: Copy>(&self) -> (r: Result<BuildPlan<E>, PlanError>)
        where P: SimpleGraphicsPipelineDesc<E>,
        ensures
            r matches Ok(plan) ==> plan.session == initial(plan.pipeline.layout.sets.len())
                && plan.vertex_buffers@ == packed_bindings(plan.pipeline.vertices@)
                && plan.attributes@ == packed_attributes(plan.pipeline.vertices@),
            r matches Err(PlanError::ColorCount(m)) ==> m.resolved != m.reported,
    {
        let pipeline = self.inner.pipeline();
        let reported = self.inner.colors().len();
        begin_build(pipeline, reported)
    }
}


/// A rectangle in framebuffer pixels.
#[derive(Clone, Copy, Debug, PartialEq, Eq, Structural)]
pub struct Rect {
    pub x: i16,
    pub y: i16,
    pub w: i16,
    pub h: i16,
}

/// The rectangle that covers the whole framebuffer; the pipeline bakes it in as both
/// viewport (depth range 0 to 1) and scissor.
pub fn full_rect(framebuffer_width: u32, framebuffer_height: u32) -> (r: Rect)
    requires
        framebuffer_width <= i16::MAX,
        framebuffer_height <= i16::MAX,
    ensures
        r == (Rect { x: 0, y: 0, w: framebuffer_width as i16, h: framebuffer_height as i16 }),
{
    Rect { x: 0, y: 0, w: framebuffer_width as i16, h: framebuffer_height as i16 }
}

/// One step of taking a render group apart.
#[derive(Clone, Copy, Debug, PartialEq, Eq, Structural)]
pub enum TeardownStep {
    /// Let the user pipeline free its own resources.
    DisposeUserPipeline,
    /// Destroy the graphics pipeline state object.
    DestroyGraphicsPipeline,
    /// Destroy the pipeline layout.
    DestroyPipelineLayout,
    /// Drop the descriptor set layout handles.
    ReleaseSetLayouts,
}

/// The order in which a render group is disposed: the user pipeline first, while the
/// device objects it may use still exist, then the graphics pipeline, then the
/// pipeline layout it was made with, then the descriptor set layouts.
pub fn teardown_order() -> (r: Vec<TeardownStep>)
    ensures
        r@ == seq![
            TeardownStep::DisposeUserPipeline,
            TeardownStep::DestroyGraphicsPipeline,
            TeardownStep::DestroyPipelineLayout,
            TeardownStep::ReleaseSetLayouts,
        ],
{
    let mut r: Vec<TeardownStep> = Vec::new();
    r.push(TeardownStep::DisposeUserPipeline);
    r.push(TeardownStep::DestroyGraphicsPipeline);
    r.push(TeardownStep::DestroyPipelineLayout);
    r.push(TeardownStep::ReleaseSetLayouts);
    r
}

/// Whether the draw commands of a frame must be recorded anew or can be reused.
#[derive(Clone, Copy, Debug, PartialEq, Eq, Structural)]
pub enum PrepareResult {
    DrawRecord,
    DrawReuse,
}

/// The per-frame state of a live render group: the frame last prepared, if any.
/// Drawing is allowed once a frame has been prepared.
#[derive(Clone, Copy, Debug, PartialEq, Eq, Structural)]
pub struct FrameCycle {
    pub prepared: Option<usize>,
}

impl FrameCycle {
    /// A render group just built: nothing prepared yet.
    pub fn new() -> (r: FrameCycle)
        ensures
            r.prepared is None,
    {
        FrameCycle { prepared: None }
    }

    /// Records that frame `index` was prepared, and passes on the user pipeline's
    /// answer on recording.
    pub fn prepare(&mut self, index: usize, answer: PrepareResult) -> (r: PrepareResult)
        ensures
            final(self).prepared == Some(index),
            r == answer,
    {
        self.prepared = Some(index);
        answer
    }

    /// Whether draw commands may be recorded: only after a first prepare.
    pub fn can_draw(&self) -> (r: bool)
        ensures
            r == (self.prepared is Some),
    {
        self.prepared.is_some()
    }
}

} // verus!
