use bevy_image::BevyDefault;
use bevy_render::render_resource as gpu;
use bevy_render::view::ViewTarget;
use skybox_pipeline::format::{TextureFormat, CORE_3D_DEPTH_FORMAT, TEXTURE_FORMAT_HDR};
use skybox_pipeline::layout::{BindingType, ShaderStages, TextureSampleType, SamplerBindingType};
use skybox_pipeline::pipeline::{SkyboxPipeline, SKYBOX_SHADER_HANDLE};
use skybox_pipeline::prepare::Msaa;
use skybox_pipeline::state::{
    ColorWrites, CompareFunction, Face, FrontFace, IndexFormat, PolygonMode, PrimitiveState,
    PrimitiveTopology, StencilFaceState, StencilOperation,
};

fn gpu_format(format: TextureFormat) -> gpu::TextureFormat {
    match format {
        TextureFormat::Rgba8UnormSrgb => gpu::TextureFormat::Rgba8UnormSrgb,
        TextureFormat::Rgba16Float => gpu::TextureFormat::Rgba16Float,
        TextureFormat::Depth32Float => gpu::TextureFormat::Depth32Float,
    }
}

fn gpu_stages(stages: ShaderStages) -> gpu::ShaderStages {
    match stages {
        ShaderStages::Hidden => gpu::ShaderStages::NONE,
        ShaderStages::Vertex => gpu::ShaderStages::VERTEX,
        ShaderStages::Fragment => gpu::ShaderStages::FRAGMENT,
        ShaderStages::Compute => gpu::ShaderStages::COMPUTE,
        ShaderStages::VertexFragment => gpu::ShaderStages::VERTEX_FRAGMENT,
    }
}

fn gpu_compare(compare: CompareFunction) -> gpu::CompareFunction {
    match compare {
        CompareFunction::Never => gpu::CompareFunction::Never,
        CompareFunction::Less => gpu::CompareFunction::Less,
        CompareFunction::Equal => gpu::CompareFunction::Equal,
        CompareFunction::LessEqual => gpu::CompareFunction::LessEqual,
        CompareFunction::Greater => gpu::CompareFunction::Greater,
        CompareFunction::NotEqual => gpu::CompareFunction::NotEqual,
        CompareFunction::GreaterEqual => gpu::CompareFunction::GreaterEqual,
        CompareFunction::Always => gpu::CompareFunction::Always,
    }
}

fn gpu_stencil_operation(operation: StencilOperation) -> gpu::StencilOperation {
    match operation {
        StencilOperation::Keep => gpu::StencilOperation::Keep,
        StencilOperation::Zero => gpu::StencilOperation::Zero,
        StencilOperation::Replace => gpu::StencilOperation::Replace,
        StencilOperation::Invert => gpu::StencilOperation::Invert,
        StencilOperation::IncrementClamp => gpu::StencilOperation::IncrementClamp,
        StencilOperation::DecrementClamp => gpu::StencilOperation::DecrementClamp,
        StencilOperation::IncrementWrap => gpu::StencilOperation::IncrementWrap,
        StencilOperation::DecrementWrap => gpu::StencilOperation::DecrementWrap,
    }
}

fn gpu_primitive(state: PrimitiveState) -> gpu::PrimitiveState {
    gpu::PrimitiveState {
        topology: match state.topology {
            PrimitiveTopology::PointList => gpu::PrimitiveTopology::PointList,
            PrimitiveTopology::LineList => gpu::PrimitiveTopology::LineList,
            PrimitiveTopology::LineStrip => gpu::PrimitiveTopology::LineStrip,
            PrimitiveTopology::TriangleList => gpu::PrimitiveTopology::TriangleList,
            PrimitiveTopology::TriangleStrip => gpu::PrimitiveTopology::TriangleStrip,
        },
        strip_index_format: state.strip_index_format.map(|format| match format {
            IndexFormat::Uint16 => gpu::IndexFormat::Uint16,
            IndexFormat::Uint32 => gpu::IndexFormat::Uint32,
        }),
        front_face: match state.front_face {
            FrontFace::Ccw => gpu::FrontFace::Ccw,
            FrontFace::Cw => gpu::FrontFace::Cw,
        },
        cull_mode: state.cull_mode.map(|face| match face {
            Face::Front => gpu::Face::Front,
            Face::Back => gpu::Face::Back,
        }),
        unclipped_depth: state.unclipped_depth,
        polygon_mode: match state.polygon_mode {
            PolygonMode::Fill => gpu::PolygonMode::Fill,
            PolygonMode::Line => gpu::PolygonMode::Line,
            PolygonMode::Point => gpu::PolygonMode::Point,
        },
        conservative: state.conservative,
    }
}

#[test]
fn hdr_format_is_the_engines() {
    assert_eq!(gpu_format(TEXTURE_FORMAT_HDR), ViewTarget::TEXTURE_FORMAT_HDR);
}

#[test]
fn default_format_is_the_engines() {
    assert_eq!(gpu_format(TextureFormat::bevy_default()), gpu::TextureFormat::bevy_default());
}

#[test]
fn depth_format_is_a_depth_format() {
    let format = gpu_format(CORE_3D_DEPTH_FORMAT);
    assert!(format.is_depth_stencil_format());
    assert!(!format.has_stencil_aspect());
}

#[test]
fn msaa_samples_are_the_engines() {
    assert_eq!(Msaa::Off.samples(), bevy_render::view::Msaa::Off.samples());
    assert_eq!(Msaa::Sample2.samples(), bevy_render::view::Msaa::Sample2.samples());
    assert_eq!(Msaa::Sample4.samples(), bevy_render::view::Msaa::Sample4.samples());
    assert_eq!(Msaa::Sample8.samples(), bevy_render::view::Msaa::Sample8.samples());
}

#[test]
fn default_primitive_state_is_the_engines() {
    assert_eq!(gpu_primitive(PrimitiveState::default()), gpu::PrimitiveState::default());
}

#[test]
fn stencil_ignore_is_the_engines() {
    let ignore = StencilFaceState::ignore();
    let converted = gpu::StencilFaceState {
        compare: gpu_compare(ignore.compare),
        fail_op: gpu_stencil_operation(ignore.fail_op),
        depth_fail_op: gpu_stencil_operation(ignore.depth_fail_op),
        pass_op: gpu_stencil_operation(ignore.pass_op),
    };
    assert_eq!(converted, gpu::StencilFaceState::IGNORE);
}

#[test]
fn all_color_writes_are_the_engines() {
    let all = ColorWrites::all();
    let mut converted = gpu::ColorWrites::empty();
    converted.set(gpu::ColorWrites::RED, all.red);
    converted.set(gpu::ColorWrites::GREEN, all.green);
    converted.set(gpu::ColorWrites::BLUE, all.blue);
    converted.set(gpu::ColorWrites::ALPHA, all.alpha);
    assert_eq!(converted, gpu::ColorWrites::ALL);
}

#[test]
fn shader_handle_is_the_uuid() {
    let uuid = bevy_asset::uuid::Uuid::parse_str("a66cf9cc-cab8-47f8-ac32-db82fdc4f29b").unwrap();
    assert_eq!(uuid.as_u128(), SKYBOX_SHADER_HANDLE);
}

#[test]
fn layout_is_what_the_engine_builds() {
    let built = gpu::BindGroupLayoutEntries::sequential(
        gpu::ShaderStages::FRAGMENT,
        (
            gpu::binding_types::texture_cube(gpu::TextureSampleType::Float { filterable: true }),
            gpu::binding_types::sampler(gpu::SamplerBindingType::Filtering),
            gpu::binding_types::uniform_buffer_sized(true, None)
                .visibility(gpu::ShaderStages::VERTEX_FRAGMENT),
            gpu::binding_types::uniform_buffer_sized(true, None),
        ),
    );
    let planned = SkyboxPipeline::new().bind_group_layout.entries;
    assert_eq!(planned.len(), built.len());
    for (plan, real) in planned.iter().zip(built.iter()) {
        assert_eq!(plan.binding, real.binding);
        assert_eq!(gpu_stages(plan.visibility), real.visibility);
        assert_eq!(real.count, None);
        let converted = match plan.ty {
            BindingType::TextureCube { sample_type } => gpu::BindingType::Texture {
                sample_type: match sample_type {
                    TextureSampleType::Float { filterable } => {
                        gpu::TextureSampleType::Float { filterable }
                    }
                    TextureSampleType::Depth => gpu::TextureSampleType::Depth,
                    TextureSampleType::Sint => gpu::TextureSampleType::Sint,
                    TextureSampleType::Uint => gpu::TextureSampleType::Uint,
                },
                view_dimension: gpu::TextureViewDimension::Cube,
                multisampled: false,
            },
            BindingType::Sampler(kind) => gpu::BindingType::Sampler(match kind {
                SamplerBindingType::Filtering => gpu::SamplerBindingType::Filtering,
                SamplerBindingType::NonFiltering => gpu::SamplerBindingType::NonFiltering,
                SamplerBindingType::Comparison => gpu::SamplerBindingType::Comparison,
            }),
            BindingType::UniformBuffer { has_dynamic_offset, .. } => gpu::BindingType::Buffer {
                ty: gpu::BufferBindingType::Uniform,
                has_dynamic_offset,
                min_binding_size: None,
            },
        };
        assert_eq!(converted, real.ty);
    }
}
