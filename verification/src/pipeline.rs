//! The render pipeline of the skybox pass.

use vstd::prelude::*;
use crate::format::{TextureFormat, TEXTURE_FORMAT_HDR};
use crate::layout::{
    numbered_in_order, sampler, texture_cube, uniform_buffer, BindGroupLayoutDescriptor,
    BindGroupLayoutDescriptorView, BindGroupLayoutEntries, BindGroupLayoutEntry,
    BindGroupLayoutEntryBuilder, BindingType, SamplerBindingType, ShaderStages,
    TextureSampleType, Uniform,
};
use crate::state::{
    ColorTargetState, ColorWrites, CompareFunction, DepthBiasState, DepthStencilState,
    MultisampleState, PrimitiveState, StencilFaceState, StencilState,
};

verus! {

/// Identifier of the shader asset that holds both entry points of the pass.
pub const SKYBOX_SHADER_HANDLE: u128 = 0xa66cf9cc_cab8_47f8_ac32_db82fdc4f29b;

/// A range of push constant memory that some stages can see.
#[derive(Clone, Copy, Debug, PartialEq, Eq, Hash)]
pub struct PushConstantRange {
    pub stages: ShaderStages,
    pub start: u32,
    pub end: u32,
}

/// A definition handed to the shader preprocessor.
#[derive(Clone, Debug, PartialEq, Eq, Hash)]
pub enum ShaderDefVal {
    Bool(String, bool),
    Int(String, i32),
    UInt(String, u32),
}

/// Whether a vertex buffer advances per vertex or per instance.
#[derive(Clone, Copy, Debug, PartialEq, Eq, Hash)]
pub enum VertexStepMode {
    Vertex,
    Instance,
}

/// Component layout of a vertex attribute.
#[derive(Clone, Copy, Debug, PartialEq, Eq, Hash)]
pub enum VertexFormat {
    Float32,
    Float32x2,
    Float32x3,
    Float32x4,
}

/// One input of the vertex shader, within a vertex buffer.
#[derive(Clone, Copy, Debug, PartialEq, Eq, Hash)]
pub struct VertexAttribute {
    pub format: VertexFormat,
    pub offset: u64,
    pub shader_location: u32,
}

/// How a vertex buffer is read.
#[derive(Clone, Debug, PartialEq, Eq, Hash)]
pub struct VertexBufferLayout {
    pub array_stride: u64,
    pub step_mode: VertexStepMode,
    pub attributes: Vec<VertexAttribute>,
}

/// The vertex stage of a pipeline.
#[derive(Clone, Debug, PartialEq, Eq, Hash)]
pub struct VertexState {
    pub shader: u128,
    pub shader_defs: Vec<ShaderDefVal>,
    pub entry_point: &'static str,
    pub buffers: Vec<VertexBufferLayout>,
}

/// What a [`VertexState`] says.
pub struct VertexStateView {
    pub shader: u128,
    pub shader_defs: Seq<ShaderDefVal>,
    pub entry_point: Seq<char>,
    pub buffers: Seq<VertexBufferLayout>,
}

impl View for VertexState {
    type V = VertexStateView;

    open spec fn view(&self) -> VertexStateView {
        VertexStateView {
            shader: self.shader,
            shader_defs: self.shader_defs@,
            entry_point: self.entry_point@,
            buffers: self.buffers@,
        }
    }
}

/// The fragment stage of a pipeline.
#[derive(Clone, Debug, PartialEq, Eq, Hash)]
pub struct FragmentState {
    pub shader: u128,
    pub shader_defs: Vec<ShaderDefVal>,
    pub entry_point: &'static str,
    pub targets: Vec<Option<ColorTargetState>>,
}

/// What a [`FragmentState`] says.
pub struct FragmentStateView {
    pub shader: u128,
    pub shader_defs: Seq<ShaderDefVal>,
    pub entry_point: Seq<char>,
    pub targets: Seq<Option<ColorTargetState>>,
}

impl View for FragmentState {
    type V = FragmentStateView;

    open spec fn view(&self) -> FragmentStateView {
        FragmentStateView {
            shader: self.shader,
            shader_defs: self.shader_defs@,
            entry_point: self.entry_point@,
            targets: self.targets@,
        }
    }
}

/// A render pipeline, before any device has seen it.
#[derive(Clone, Debug, PartialEq, Eq, Hash)]
pub struct RenderPipelineDescriptor {
    pub label: Option<&'static str>,
    pub layout: Vec<BindGroupLayoutDescriptor>,
    pub push_constant_ranges: Vec<PushConstantRange>,
    pub vertex: VertexState,
    pub primitive: PrimitiveState,
    pub depth_stencil: Option<DepthStencilState>,
    pub multisample: MultisampleState,
    pub fragment: Option<FragmentState>,
    pub zero_initialize_workgroup_memory: bool,
}

/// What a [`RenderPipelineDescriptor`] says.
pub struct RenderPipelineDescriptorView {
    pub label: Option<Seq<char>>,
    pub layout: Seq<BindGroupLayoutDescriptorView>,
    pub push_constant_ranges: Seq<PushConstantRange>,
    pub vertex: VertexStateView,
    pub primitive: PrimitiveState,
    pub depth_stencil: Option<DepthStencilState>,
    pub multisample: MultisampleState,
    pub fragment: Option<FragmentStateView>,
    pub zero_initialize_workgroup_memory: bool,
}

impl View for RenderPipelineDescriptor {
    type V = RenderPipelineDescriptorView;

    open spec fn view(&self) -> RenderPipelineDescriptorView {
        RenderPipelineDescriptorView {
            label: match self.label {
                Some(label) => Some(label@),
                None => None,
            },
            layout: self.layout@.map_values(|layout: BindGroupLayoutDescriptor| layout@),
            push_constant_ranges: self.push_constant_ranges@,
            vertex: self.vertex@,
            primitive: self.primitive,
            depth_stencil: self.depth_stencil,
            multisample: self.multisample,
            fragment: match self.fragment {
                Some(fragment) => Some(fragment@),
                None => None,
            },
            zero_initialize_workgroup_memory: self.zero_initialize_workgroup_memory,
        }
    }
}

/// What distinguishes one skybox pipeline from another.
#[derive(Clone, Copy, Debug, PartialEq, Eq, Hash)]
pub struct SkyboxPipelineKey {
    pub hdr: bool,
    pub samples: u32,
    pub depth_format: TextureFormat,
}

/// The skybox pass: one bind group, shared by all its pipelines.
#[derive(Clone, Debug, PartialEq, Eq, Hash)]
pub struct SkyboxPipeline {
    pub bind_group_layout: BindGroupLayoutDescriptor,
}

/// The four bindings of the skybox bind group: the cubemap, its sampler, the
/// uniforms of the view and the uniforms of the skybox. All are visible to
/// the fragment stage; the view uniforms also to the vertex stage.
pub open spec fn skybox_bind_group_layout_entries() -> Seq<BindGroupLayoutEntry> {
    seq![
        BindGroupLayoutEntry {
            binding: 0,
            visibility: ShaderStages::Fragment,
            ty: BindingType::TextureCube {
                sample_type: TextureSampleType::Float { filterable: true },
            },
        },
        BindGroupLayoutEntry {
            binding: 1,
            visibility: ShaderStages::Fragment,
            ty: BindingType::Sampler(SamplerBindingType::Filtering),
        },
        BindGroupLayoutEntry {
            binding: 2,
            visibility: ShaderStages::VertexFragment,
            ty: BindingType::UniformBuffer { uniform: Uniform::View, has_dynamic_offset: true },
        },
        BindGroupLayoutEntry {
            binding: 3,
            visibility: ShaderStages::Fragment,
            ty: BindingType::UniformBuffer { uniform: Uniform::Skybox, has_dynamic_offset: true },
        },
    ]
}

/// The depth test of a skybox: drawn wherever nothing nearer was drawn,
/// never written, no stencil, no bias.
pub open spec fn skybox_depth_stencil(depth_format: TextureFormat) -> DepthStencilState {
    DepthStencilState {
        format: depth_format,
        depth_write_enabled: false,
        depth_compare: CompareFunction::GreaterEqual,
        stencil: StencilState {
            front: StencilFaceState::spec_ignore(),
            back: StencilFaceState::spec_ignore(),
            read_mask: 0,
            write_mask: 0,
        },
        bias: DepthBiasState { constant: 0, slope_scale_bits: 0, clamp_bits: 0 },
    }
}

impl SkyboxPipeline {
    /// What [`SkyboxPipeline::new`] describes.
    pub open spec fn spec_new() -> BindGroupLayoutDescriptorView {
        BindGroupLayoutDescriptorView {
            label: "skybox_bind_group_layout"@,
            entries: skybox_bind_group_layout_entries(),
        }
    }

    /// The pipeline that `key` selects, over one bind group of layout
    /// `layout`.
    pub open spec fn spec_specialize(
        layout: BindGroupLayoutDescriptorView,
        key: SkyboxPipelineKey,
    ) -> RenderPipelineDescriptorView {
        RenderPipelineDescriptorView {
            label: Some("skybox_pipeline"@),
            layout: seq![layout],
            push_constant_ranges: Seq::empty(),
            vertex: VertexStateView {
                shader: SKYBOX_SHADER_HANDLE,
                shader_defs: Seq::empty(),
                entry_point: "skybox_vertex"@,
                buffers: Seq::empty(),
            },
            primitive: PrimitiveState::spec_default(),
            depth_stencil: Some(skybox_depth_stencil(key.depth_format)),
            multisample: MultisampleState {
                count: key.samples,
                mask: u64::MAX,
                alpha_to_coverage_enabled: false,
            },
            fragment: Some(
                FragmentStateView {
                    shader: SKYBOX_SHADER_HANDLE,
                    shader_defs: Seq::empty(),
                    entry_point: "skybox_fragment"@,
                    targets: seq![
                        Some(
                            ColorTargetState {
                                format: TextureFormat::spec_of_view(key.hdr),
                                blend: None,
                                write_mask: ColorWrites::spec_all(),
                            },
                        ),
                    ],
                },
            ),
            zero_initialize_workgroup_memory: false,
        }
    }

    /// The skybox pass with its bind group layout.
    pub fn new() -> (pipeline: SkyboxPipeline)
        ensures
            pipeline.bind_group_layout@ == Self::spec_new(),
    {
        let mut builders: Vec<BindGroupLayoutEntryBuilder> = Vec::new();
        builders.push(texture_cube(TextureSampleType::Float { filterable: true }));
        builders.push(sampler(SamplerBindingType::Filtering));
        builders.push(uniform_buffer(Uniform::View, true).visibility(ShaderStages::VertexFragment));
        builders.push(uniform_buffer(Uniform::Skybox, true));
        let entries = BindGroupLayoutEntries::sequential(ShaderStages::Fragment, builders);
        assert(entries@ =~= skybox_bind_group_layout_entries());
        SkyboxPipeline {
            bind_group_layout: BindGroupLayoutDescriptor { label: "skybox_bind_group_layout", entries },
        }
    }

    /// The pipeline that `key` selects.
    pub fn specialize(&self, key: SkyboxPipelineKey) -> (descriptor: RenderPipelineDescriptor)
        ensures
            descriptor@ == Self::spec_specialize(self.bind_group_layout@, key),
    {
        let mut layout: Vec<BindGroupLayoutDescriptor> = Vec::new();
        layout.push(self.bind_group_layout.duplicate());
        let mut targets: Vec<Option<ColorTargetState>> = Vec::new();
        targets.push(
            Some(
                ColorTargetState {
                    format: if key.hdr {
                        TEXTURE_FORMAT_HDR
                    } else {
                        TextureFormat::bevy_default()
                    },
                    blend: None,
                    write_mask: ColorWrites::all(),
                },
            ),
        );
        let descriptor = RenderPipelineDescriptor {
            label: Some("skybox_pipeline"),
            layout,
            push_constant_ranges: Vec::new(),
            vertex: VertexState {
                shader: SKYBOX_SHADER_HANDLE,
                shader_defs: Vec::new(),
                entry_point: "skybox_vertex",
                buffers: Vec::new(),
            },
            primitive: PrimitiveState::default(),
            depth_stencil: Some(
                DepthStencilState {
                    format: key.depth_format,
                    depth_write_enabled: false,
                    depth_compare: CompareFunction::GreaterEqual,
                    stencil: StencilState {
                        front: StencilFaceState::ignore(),
                        back: StencilFaceState::ignore(),
                        read_mask: 0,
                        write_mask: 0,
                    },
                    bias: DepthBiasState { constant: 0, slope_scale_bits: 0, clamp_bits: 0 },
                },
            ),
            multisample: MultisampleState {
                count: key.samples,
                mask: u64::MAX,
                alpha_to_coverage_enabled: false,
            },
            fragment: Some(
                FragmentState {
                    shader: SKYBOX_SHADER_HANDLE,
                    shader_defs: Vec::new(),
                    entry_point: "skybox_fragment",
                    targets,
                },
            ),
            zero_initialize_workgroup_memory: false,
        };
        proof {
            let want = Self::spec_specialize(self.bind_group_layout@, key);
            assert(descriptor@.layout =~= want.layout);
            assert(descriptor@.push_constant_ranges =~= want.push_constant_ranges);
            assert(descriptor@.vertex.shader_defs =~= want.vertex.shader_defs);
            assert(descriptor@.vertex.buffers =~= want.vertex.buffers);
            assert(descriptor@.fragment->0.shader_defs =~= want.fragment->0.shader_defs);
            assert(descriptor@.fragment->0.targets =~= want.fragment->0.targets);
        }
        descriptor
    }
}

/// Two keys that select the same pipeline are the same key: a pipeline can
/// be looked up by its key alone.
pub proof fn lemma_specialize_is_injective(
    layout: BindGroupLayoutDescriptorView,
    a: SkyboxPipelineKey,
    b: SkyboxPipelineKey,
)
    requires
        SkyboxPipeline::spec_specialize(layout, a) == SkyboxPipeline::spec_specialize(layout, b),
    ensures
        a == b,
{
    let of_a = SkyboxPipeline::spec_specialize(layout, a);
    let of_b = SkyboxPipeline::spec_specialize(layout, b);
    assert(of_a.multisample.count == of_b.multisample.count);
    assert(of_a.depth_stencil->0.format == of_b.depth_stencil->0.format);
    assert(of_a.fragment->0.targets[0]->0.format == of_b.fragment->0.targets[0]->0.format);
}

/// A skybox pipeline tests depth but changes neither depth nor stencil,
/// whatever its key.
pub proof fn lemma_specialize_leaves_depth_and_stencil(
    layout: BindGroupLayoutDescriptorView,
    key: SkyboxPipelineKey,
)
    ensures
        SkyboxPipeline::spec_specialize(layout, key).depth_stencil matches Some(state) && {
            &&& !state.depth_write_enabled
            &&& !state.stencil.is_enabled()
            &&& !state.bias.is_enabled()
        },
{
}

/// In the skybox bind group layout each entry's binding is its position.
/// The fragment stage sees every binding; the vertex stage sees the view
/// uniforms and nothing else.
pub proof fn lemma_skybox_layout_is_numbered_and_visible()
    ensures
        numbered_in_order(skybox_bind_group_layout_entries()),
        forall|i: int|
            0 <= i < skybox_bind_group_layout_entries().len() ==> {
                let entry = #[trigger] skybox_bind_group_layout_entries()[i];
                &&& entry.visibility.has_fragment()
                &&& entry.visibility.has_vertex() <==> entry.ty is UniformBuffer
                    && entry.ty->uniform == Uniform::View
            },
{
}

} // verus!
