//! What is decided for each view that shows a skybox, once per frame.

use vstd::prelude::*;
use crate::bind_group::{
    conforms, BindGroupDescriptor, BindGroupDescriptorView, BindGroupEntries, BindGroupEntry,
    BindingResource,
};
use crate::format::{TextureFormat, CORE_3D_DEPTH_FORMAT};
use crate::layout::{BindGroupLayoutDescriptorView, Uniform};
use crate::pipeline::{skybox_bind_group_layout_entries, SkyboxPipeline, SkyboxPipelineKey};

verus! {

/// Multisampling level of a view.
#[derive(Clone, Copy, Debug, PartialEq, Eq, Hash)]
pub enum Msaa {
    Off,
    Sample2,
    Sample4,
    Sample8,
}

impl Msaa {
    /// Samples taken per pixel.
    pub open spec fn spec_samples(&self) -> u32 {
        match self {
            Msaa::Off => 1,
            Msaa::Sample2 => 2,
            Msaa::Sample4 => 4,
            Msaa::Sample8 => 8,
        }
    }

    #[verifier::when_used_as_spec(spec_samples)]
    pub fn samples(&self) -> (samples: u32)
        ensures
            samples == self.spec_samples(),
    {
        msaa_samples(*self)
    }
}

/// Asks `bevy_render::view::Msaa::samples` for the sample count of the
/// level of the same name. Not proved: that the count is 1 for `Off` and
/// 2, 4 and 8 for the three sampled levels, as that enumeration numbers
/// them.
#[verifier::external_body]
fn msaa_samples(msaa: Msaa) -> (samples: u32)
    ensures
        samples == msaa.spec_samples(),
{
    let level = match msaa {
        Msaa::Off => bevy_render::view::Msaa::Off,
        Msaa::Sample2 => bevy_render::view::Msaa::Sample2,
        Msaa::Sample4 => bevy_render::view::Msaa::Sample4,
        Msaa::Sample8 => bevy_render::view::Msaa::Sample8,
    };
    level.samples()
}

/// The pipeline key of a view: its dynamic range, its sample count, and the
/// depth format of the 3D passes.
pub open spec fn spec_skybox_pipeline_key(hdr: bool, msaa: Msaa) -> SkyboxPipelineKey {
    SkyboxPipelineKey { hdr, samples: msaa.spec_samples(), depth_format: CORE_3D_DEPTH_FORMAT }
}

/// The key of the pipeline that draws the skybox of a view.
pub fn prepare_skybox_pipeline(hdr: bool, msaa: Msaa) -> (key: SkyboxPipelineKey)
    ensures
        key == spec_skybox_pipeline_key(hdr, msaa),
{
    SkyboxPipelineKey { hdr, samples: msaa.samples(), depth_format: CORE_3D_DEPTH_FORMAT }
}

/// The bind group of a view's skybox, with the index of the view's skybox
/// uniforms in their buffer.
#[derive(Debug, PartialEq, Eq, Hash)]
pub struct SkyboxBindGroup(pub (BindGroupDescriptor, u32));

impl View for SkyboxBindGroup {
    type V = (BindGroupDescriptorView, u32);

    open spec fn view(&self) -> (BindGroupDescriptorView, u32) {
        let (descriptor, uniform_index) = self.0;
        (descriptor@, uniform_index)
    }
}

/// The resources of the skybox bind group, in binding order.
pub open spec fn skybox_bind_group_entries() -> Seq<BindGroupEntry> {
    seq![
        BindGroupEntry { binding: 0, resource: BindingResource::TextureView },
        BindGroupEntry { binding: 1, resource: BindingResource::Sampler },
        BindGroupEntry { binding: 2, resource: BindingResource::Uniforms(Uniform::View) },
        BindGroupEntry { binding: 3, resource: BindingResource::Uniforms(Uniform::Skybox) },
    ]
}

/// What [`prepare_skybox_bind_group`] decides.
pub open spec fn spec_skybox_bind_group(
    pipeline: SkyboxPipeline,
    image_ready: bool,
    view_uniforms_ready: bool,
    skybox_uniforms_ready: bool,
    uniform_index: u32,
) -> Option<(BindGroupDescriptorView, u32)> {
    if image_ready && view_uniforms_ready && skybox_uniforms_ready {
        Some(
            (
                BindGroupDescriptorView {
                    label: "skybox_bind_group"@,
                    layout: pipeline.bind_group_layout@,
                    entries: skybox_bind_group_entries(),
                },
                uniform_index,
            ),
        )
    } else {
        None
    }
}

/// The bind group of a view's skybox, if there is anything to bind yet.
///
/// A group is made only when the cubemap is on the device and both uniform
/// buffers have been written; until then the view goes without.
pub fn prepare_skybox_bind_group(
    pipeline: &SkyboxPipeline,
    image_ready: bool,
    view_uniforms_ready: bool,
    skybox_uniforms_ready: bool,
    uniform_index: u32,
) -> (group: Option<SkyboxBindGroup>)
    ensures
        match group {
            Some(group) => Some(group@),
            None => None,
        } == spec_skybox_bind_group(
            *pipeline,
            image_ready,
            view_uniforms_ready,
            skybox_uniforms_ready,
            uniform_index,
        ),
{
    if image_ready && view_uniforms_ready && skybox_uniforms_ready {
        let mut resources: Vec<BindingResource> = Vec::new();
        resources.push(BindingResource::TextureView);
        resources.push(BindingResource::Sampler);
        resources.push(BindingResource::Uniforms(Uniform::View));
        resources.push(BindingResource::Uniforms(Uniform::Skybox));
        let entries = BindGroupEntries::sequential(resources);
        assert(entries@ =~= skybox_bind_group_entries());
        Some(
            SkyboxBindGroup(
                (
                    BindGroupDescriptor {
                        label: "skybox_bind_group",
                        layout: pipeline.bind_group_layout.duplicate(),
                        entries,
                    },
                    uniform_index,
                ),
            ),
        )
    } else {
        None
    }
}

/// The skybox bind group fills the skybox bind group layout: every binding
/// of the layout gets a resource of the kind it asks for.
pub proof fn lemma_skybox_bind_group_conforms()
    ensures
        conforms(skybox_bind_group_entries(), skybox_bind_group_layout_entries()),
{
}

/// The pipeline prepared for a view takes as many samples as the view and
/// renders to the view's main texture format.
pub proof fn lemma_view_pipeline_matches_view(
    layout: BindGroupLayoutDescriptorView,
    hdr: bool,
    msaa: Msaa,
)
    ensures
        ({
            let descriptor = SkyboxPipeline::spec_specialize(
                layout,
                spec_skybox_pipeline_key(hdr, msaa),
            );
            &&& descriptor.multisample.count == msaa.spec_samples()
            &&& descriptor.fragment matches Some(fragment)
            &&& fragment.targets.len() == 1
            &&& fragment.targets[0] matches Some(target)
            &&& target.format == TextureFormat::spec_of_view(hdr)
        }),
{
}

} // verus!
