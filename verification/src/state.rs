//! Fixed-function state of a render pipeline, as plain data.
//!
//! Fractional numbers are held by their IEEE 754 single-precision bit
//! pattern, so that two states are equal exactly when their bits are.

use vstd::prelude::*;
use crate::format::TextureFormat;

verus! {

/// How vertices are assembled into primitives.
#[derive(Clone, Copy, Debug, PartialEq, Eq, Hash)]
pub enum PrimitiveTopology {
    PointList,
    LineList,
    LineStrip,
    TriangleList,
    TriangleStrip,
}

/// Width of the indices of a strip topology.
#[derive(Clone, Copy, Debug, PartialEq, Eq, Hash)]
pub enum IndexFormat {
    Uint16,
    Uint32,
}

/// Winding order of a front-facing triangle.
#[derive(Clone, Copy, Debug, PartialEq, Eq, Hash)]
pub enum FrontFace {
    Ccw,
    Cw,
}

/// A side of a triangle.
#[derive(Clone, Copy, Debug, PartialEq, Eq, Hash)]
pub enum Face {
    Front,
    Back,
}

/// How a polygon is rasterized.
#[derive(Clone, Copy, Debug, PartialEq, Eq, Hash)]
pub enum PolygonMode {
    Fill,
    Line,
    Point,
}

/// Primitive assembly and rasterization.
#[derive(Clone, Copy, Debug, PartialEq, Eq, Hash)]
pub struct PrimitiveState {
    pub topology: PrimitiveTopology,
    pub strip_index_format: Option<IndexFormat>,
    pub front_face: FrontFace,
    pub cull_mode: Option<Face>,
    pub unclipped_depth: bool,
    pub polygon_mode: PolygonMode,
    pub conservative: bool,
}

impl PrimitiveState {
    /// Filled, counter-clockwise triangle lists, nothing culled.
    pub open spec fn spec_default() -> PrimitiveState {
        PrimitiveState {
            topology: PrimitiveTopology::TriangleList,
            strip_index_format: None,
            front_face: FrontFace::Ccw,
            cull_mode: None,
            unclipped_depth: false,
            polygon_mode: PolygonMode::Fill,
            conservative: false,
        }
    }
}

impl Default for PrimitiveState {
    fn default() -> (state: PrimitiveState)
        ensures
            state == PrimitiveState::spec_default(),
    {
        PrimitiveState {
            topology: PrimitiveTopology::TriangleList,
            strip_index_format: None,
            front_face: FrontFace::Ccw,
            cull_mode: None,
            unclipped_depth: false,
            polygon_mode: PolygonMode::Fill,
            conservative: false,
        }
    }
}

/// Comparison of a new depth or stencil value against the stored one.
#[derive(Clone, Copy, Debug, PartialEq, Eq, Hash)]
pub enum CompareFunction {
    Never,
    Less,
    Equal,
    LessEqual,
    Greater,
    NotEqual,
    GreaterEqual,
    Always,
}

/// What happens to a stored stencil value.
#[derive(Clone, Copy, Debug, PartialEq, Eq, Hash)]
pub enum StencilOperation {
    Keep,
    Zero,
    Replace,
    Invert,
    IncrementClamp,
    DecrementClamp,
    IncrementWrap,
    DecrementWrap,
}

/// Stencil test and operations for one side of a triangle.
#[derive(Clone, Copy, Debug, PartialEq, Eq, Hash)]
pub struct StencilFaceState {
    pub compare: CompareFunction,
    pub fail_op: StencilOperation,
    pub depth_fail_op: StencilOperation,
    pub pass_op: StencilOperation,
}

impl StencilFaceState {
    /// The test always passes and the stored value is always kept.
    pub open spec fn spec_ignore() -> StencilFaceState {
        StencilFaceState {
            compare: CompareFunction::Always,
            fail_op: StencilOperation::Keep,
            depth_fail_op: StencilOperation::Keep,
            pass_op: StencilOperation::Keep,
        }
    }

    #[verifier::when_used_as_spec(spec_ignore)]
    pub fn ignore() -> (state: StencilFaceState)
        ensures
            state == Self::spec_ignore(),
    {
        StencilFaceState {
            compare: CompareFunction::Always,
            fail_op: StencilOperation::Keep,
            depth_fail_op: StencilOperation::Keep,
            pass_op: StencilOperation::Keep,
        }
    }
}

/// Stencil state of both sides, with the masks applied on read and write.
#[derive(Clone, Copy, Debug, PartialEq, Eq, Hash)]
pub struct StencilState {
    pub front: StencilFaceState,
    pub back: StencilFaceState,
    pub read_mask: u32,
    pub write_mask: u32,
}

impl StencilState {
    /// Whether the stencil test can have any effect.
    pub open spec fn is_enabled(self) -> bool {
        (self.front != StencilFaceState::spec_ignore() || self.back != StencilFaceState::spec_ignore())
            && (self.read_mask != 0 || self.write_mask != 0)
    }
}

/// Depth bias. The two fractional fields hold bit patterns.
#[derive(Clone, Copy, Debug, PartialEq, Eq, Hash)]
pub struct DepthBiasState {
    pub constant: i32,
    pub slope_scale_bits: u32,
    pub clamp_bits: u32,
}

impl DepthBiasState {
    /// Whether the bias moves any depth value. Positive and negative zero
    /// both count as no slope.
    pub open spec fn is_enabled(self) -> bool {
        self.constant != 0 || (self.slope_scale_bits != 0 && self.slope_scale_bits != 0x8000_0000)
    }
}

/// Depth and stencil test of a pipeline.
#[derive(Clone, Copy, Debug, PartialEq, Eq, Hash)]
pub struct DepthStencilState {
    pub format: TextureFormat,
    pub depth_write_enabled: bool,
    pub depth_compare: CompareFunction,
    pub stencil: StencilState,
    pub bias: DepthBiasState,
}

/// Multisampling of a pipeline.
#[derive(Clone, Copy, Debug, PartialEq, Eq, Hash)]
pub struct MultisampleState {
    pub count: u32,
    pub mask: u64,
    pub alpha_to_coverage_enabled: bool,
}

/// Ways of combining a fragment with the stored colour.
#[derive(Clone, Copy, Debug, PartialEq, Eq, Hash)]
pub enum BlendState {
    Replace,
    AlphaBlending,
    PremultipliedAlphaBlending,
}

/// Colour channels that a pipeline writes.
#[derive(Clone, Copy, Debug, PartialEq, Eq, Hash)]
pub struct ColorWrites {
    pub red: bool,
    pub green: bool,
    pub blue: bool,
    pub alpha: bool,
}

impl ColorWrites {
    /// Every channel.
    pub open spec fn spec_all() -> ColorWrites {
        ColorWrites { red: true, green: true, blue: true, alpha: true }
    }

    #[verifier::when_used_as_spec(spec_all)]
    pub fn all() -> (writes: ColorWrites)
        ensures
            writes == Self::spec_all(),
    {
        ColorWrites { red: true, green: true, blue: true, alpha: true }
    }
}

/// One colour target of the fragment stage.
#[derive(Clone, Copy, Debug, PartialEq, Eq, Hash)]
pub struct ColorTargetState {
    pub format: TextureFormat,
    pub blend: Option<BlendState>,
    pub write_mask: ColorWrites,
}

} // verus!
