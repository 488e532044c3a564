use crate::vertex::VertexInput;
use vstd::prelude::*;

verus! {

/// Which color channels a target writes, as a bit set: red 1, green 2, blue 4, alpha 8.
#[derive(Clone, Copy, Debug, PartialEq, Eq, Structural)]
pub struct ColorMask {
    pub bits: u8,
}

/// The mask that writes every channel.
pub const COLOR_MASK_ALL: u8 = 15;

/// A blend factor.
#[derive(Clone, Copy, Debug, PartialEq, Eq, Structural)]
pub enum Factor {
    Zero,
    One,
    SrcColor,
    OneMinusSrcColor,
    DstColor,
    OneMinusDstColor,
    SrcAlpha,
    OneMinusSrcAlpha,
    DstAlpha,
    OneMinusDstAlpha,
    ConstColor,
    OneMinusConstColor,
    ConstAlpha,
    OneMinusConstAlpha,
    SrcAlphaSaturate,
    Src1Color,
    OneMinusSrc1Color,
    Src1Alpha,
    OneMinusSrc1Alpha,
}

/// A blend operation on the source and destination values.
#[derive(Clone, Copy, Debug, PartialEq, Eq, Structural)]
pub enum BlendOp {
    Add { src: Factor, dst: Factor },
    Sub { src: Factor, dst: Factor },
    RevSub { src: Factor, dst: Factor },
    Min,
    Max,
}

/// Blending of the color channels and of the alpha channel.
#[derive(Clone, Copy, Debug, PartialEq, Eq, Structural)]
pub struct BlendState {
    pub color: BlendOp,
    pub alpha: BlendOp,
}

/// Blending of one color target: the channels it writes, and the blend, if any.
#[derive(Clone, Copy, Debug, PartialEq, Eq, Structural)]
pub struct ColorBlendDesc {
    pub mask: ColorMask,
    pub blend: Option<BlendState>,
}

/// A comparison function of the depth or stencil test.
#[derive(Clone, Copy, Debug, PartialEq, Eq, Structural)]
pub enum Comparison {
    Never,
    Less,
    Equal,
    LessEqual,
    Greater,
    NotEqual,
    GreaterEqual,
    Always,
}

/// The depth test: its comparison, and whether passing fragments write depth.
#[derive(Clone, Copy, Debug, PartialEq, Eq, Structural)]
pub struct DepthTest {
    pub fun: Comparison,
    pub write: bool,
}

/// What the stencil test does to the stored value.
#[derive(Clone, Copy, Debug, PartialEq, Eq, Structural)]
pub enum StencilOp {
    Keep,
    Zero,
    Replace,
    IncrementClamp,
    DecrementClamp,
    Invert,
    IncrementWrap,
    DecrementWrap,
}

/// The stencil test of one face.
#[derive(Clone, Copy, Debug, PartialEq, Eq, Structural)]
pub struct StencilFace {
    pub fun: Comparison,
    pub op_fail: StencilOp,
    pub op_depth_fail: StencilOp,
    pub op_pass: StencilOp,
}

/// A stencil value for each face, fixed in the pipeline, or set while recording.
#[derive(Clone, Copy, Debug, PartialEq, Eq, Structural)]
pub enum StencilValues {
    Static { front: u32, back: u32 },
    Dynamic,
}

/// The stencil test of both faces, with its masks and reference values.
#[derive(Clone, Copy, Debug, PartialEq, Eq, Structural)]
pub struct StencilTest {
    pub front: StencilFace,
    pub back: StencilFace,
    pub read_masks: StencilValues,
    pub write_masks: StencilValues,
    pub reference_values: StencilValues,
}

/// Depth and stencil state of a pipeline.
#[derive(Clone, Copy, Debug, PartialEq, Eq, Structural)]
pub struct DepthStencilDesc {
    pub depth: Option<DepthTest>,
    pub depth_bounds: bool,
    pub stencil: Option<StencilTest>,
}

/// The primitive that the input assembler builds.
#[derive(Clone, Copy, Debug, PartialEq, Eq, Structural)]
pub enum Primitive {
    PointList,
    LineList,
    LineStrip,
    TriangleList,
    TriangleStrip,
    LineListAdjacency,
    LineStripAdjacency,
    TriangleListAdjacency,
    TriangleStripAdjacency,
    PatchList(u8),
}

/// Whether a special index value restarts a strip, and of which index width.
#[derive(Clone, Copy, Debug, PartialEq, Eq, Structural)]
pub enum PrimitiveRestart {
    Disabled,
    U16,
    U32,
}

/// The input assembler stage.
#[derive(Clone, Copy, Debug, PartialEq, Eq, Structural)]
pub struct InputAssemblerDesc {
    pub primitive: Primitive,
    pub primitive_restart: PrimitiveRestart,
}

/// The kind of resource a descriptor binds.
#[derive(Clone, Copy, Debug, PartialEq, Eq, Structural)]
pub enum DescriptorType {
    Sampler,
    CombinedImageSampler,
    SampledImage,
    StorageImage,
    UniformTexelBuffer,
    StorageTexelBuffer,
    UniformBuffer,
    StorageBuffer,
    UniformBufferDynamic,
    StorageBufferDynamic,
    InputAttachment,
}

/// One binding of a descriptor set layout; `stage_flags` is the bit set of shader
/// stages that see it.
#[derive(Clone, Copy, Debug, PartialEq, Eq, Structural)]
pub struct DescriptorSetLayoutBinding {
    pub binding: u32,
    pub ty: DescriptorType,
    pub count: usize,
    pub stage_flags: u32,
    pub immutable_samplers: bool,
}

/// The bindings of one descriptor set.
#[derive(Clone, Debug)]
pub struct SetLayout {
    pub bindings: Vec<DescriptorSetLayoutBinding>,
}

/// A push-constant range: the stages that see it, and the words `start .. end` of the
/// block.
#[derive(Clone, Copy, Debug, PartialEq, Eq, Structural)]
pub struct PushConstantRange {
    pub stages: u32,
    pub start: u32,
    pub end: u32,
}

/// Descriptor set layouts and push-constant ranges of a pipeline.
#[derive(Clone, Debug)]
pub struct Layout {
    pub sets: Vec<SetLayout>,
    pub push_constants: Vec<PushConstantRange>,
}

/// The resolved state of a graphics pipeline, with vertex elements of type `E`.
#[derive(Clone, Debug)]
pub struct Pipeline<E> {
    pub layout: Layout,
    pub vertices: Vec<VertexInput<E>>,
    pub colors: Vec<ColorBlendDesc>,
    pub depth_stencil: DepthStencilDesc,
    pub input_assembler_desc: InputAssemblerDesc,
}

/// Standard alpha blending: color by source alpha, alpha added over one minus source alpha.
pub open spec fn alpha_blend() -> BlendState {
    BlendState {
        color: BlendOp::Add { src: Factor::SrcAlpha, dst: Factor::OneMinusSrcAlpha },
        alpha: BlendOp::Add { src: Factor::One, dst: Factor::OneMinusSrcAlpha },
    }
}

/// The single color target used when a description does not choose its own.
pub open spec fn default_color_target() -> ColorBlendDesc {
    ColorBlendDesc { mask: ColorMask { bits: COLOR_MASK_ALL }, blend: Some(alpha_blend()) }
}

/// Depth test less-than with writes, no depth bounds, no stencil.
pub open spec fn default_depth_test() -> DepthStencilDesc {
    DepthStencilDesc {
        depth: Some(DepthTest { fun: Comparison::Less, write: true }),
        depth_bounds: false,
        stencil: None,
    }
}

/// Neither a depth test, nor depth bounds, nor stencil.
pub open spec fn no_depth_stencil() -> DepthStencilDesc {
    DepthStencilDesc { depth: None, depth_bounds: false, stencil: None }
}

/// Triangle lists without primitive restart.
pub open spec fn default_assembly() -> InputAssemblerDesc {
    InputAssemblerDesc {
        primitive: Primitive::TriangleList,
        primitive_restart: PrimitiveRestart::Disabled,
    }
}

/// The standard alpha blend state.
pub fn blend_alpha() -> (r: BlendState)
    ensures
        r == alpha_blend(),
{
    BlendState {
        color: BlendOp::Add { src: Factor::SrcAlpha, dst: Factor::OneMinusSrcAlpha },
        alpha: BlendOp::Add { src: Factor::One, dst: Factor::OneMinusSrcAlpha },
    }
}

/// The color targets of a description that does not choose its own: one target, all
/// channels written, alpha blended.
pub fn default_colors() -> (r: Vec<ColorBlendDesc>)
    ensures
        r@ == seq![default_color_target()],
{
    let mut r: Vec<ColorBlendDesc> = Vec::new();
    r.push(ColorBlendDesc { mask: ColorMask { bits: COLOR_MASK_ALL }, blend: Some(blend_alpha()) });
    r
}

/// The depth and stencil state of a description that does not choose its own.
pub fn default_depth_stencil() -> (r: Option<DepthStencilDesc>)
    ensures
        r == Some(default_depth_test()),
{
    Some(
        DepthStencilDesc {
            depth: Some(DepthTest { fun: Comparison::Less, write: true }),
            depth_bounds: false,
            stencil: None,
        },
    )
}

/// The empty layout: no descriptor sets, no push constants.
pub fn default_layout() -> (r: Layout)
    ensures
        r.sets@.len() == 0,
        r.push_constants@.len() == 0,
{
    Layout { sets: Vec::new(), push_constants: Vec::new() }
}

/// The input assembler of a description that does not choose its own.
pub fn default_input_assembler() -> (r: InputAssemblerDesc)
    ensures
        r == default_assembly(),
{
    InputAssemblerDesc {
        primitive: Primitive::TriangleList,
        primitive_restart: PrimitiveRestart::Disabled,
    }
}

impl<E> Pipeline<E> {
    /// Assembles a pipeline from the parts that a description reports. A description
    /// without depth and stencil state gets the state that tests nothing.
    pub fn from_parts(
        layout: Layout,
        vertices: Vec<VertexInput<E>>,
        colors: Vec<ColorBlendDesc>,
        depth_stencil: Option<DepthStencilDesc>,
        input_assembler_desc: InputAssemblerDesc,
    ) -> (r: Pipeline<E>)
        ensures
            r.layout == layout,
            r.vertices == vertices,
            r.colors == colors,
            r.depth_stencil == (match depth_stencil {
                Some(d) => d,
                None => no_depth_stencil(),
            }),
            r.input_assembler_desc == input_assembler_desc,
    {
        let depth_stencil = match depth_stencil {
            Some(d) => d,
            None => DepthStencilDesc { depth: None, depth_bounds: false, stencil: None },
        };
        Pipeline { layout, vertices, colors, depth_stencil, input_assembler_desc }
    }

    /// The pipeline of a description that overrides nothing: no sets, no push
    /// constants, no vertex buffers, one alpha-blended color target writing all
    /// channels, depth test less-than with writes and no stencil, triangle lists
    /// without restart.
    pub fn standard() -> (r: Pipeline<E>)
        ensures
            r.layout.sets@.len() == 0,
            r.layout.push_constants@.len() == 0,
            r.vertices@.len() == 0,
            r.colors@ == seq![default_color_target()],
            r.depth_stencil == default_depth_test(),
            r.input_assembler_desc == default_assembly(),
    {
        Pipeline::from_parts(
            default_layout(),
            Vec::new(),
            default_colors(),
            default_depth_stencil(),
            default_input_assembler(),
        )
    }
}

} // verus!
