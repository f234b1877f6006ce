//! Bind groups: which resource goes to each binding of a layout.

use vstd::prelude::*;
use crate::layout::{
    BindGroupLayoutDescriptor, BindGroupLayoutDescriptorView, BindGroupLayoutEntry, BindingType,
    Uniform,
};

verus! {

/// A resource of the skybox pass, by its role.
#[derive(Clone, Copy, Debug, PartialEq, Eq, Hash)]
pub enum BindingResource {
    /// The view of the cubemap texture.
    TextureView,
    /// The sampler of the cubemap texture.
    Sampler,
    /// The buffer that holds every `Uniform` of that kind written this frame.
    Uniforms(Uniform),
}

impl BindingResource {
    /// Whether a binding of type `ty` accepts the resource.
    pub open spec fn fits(self, ty: BindingType) -> bool {
        match self {
            BindingResource::TextureView => ty is TextureCube,
            BindingResource::Sampler => ty is Sampler,
            BindingResource::Uniforms(uniform) => ty is UniformBuffer && ty->uniform == uniform,
        }
    }
}

/// A resource at a binding.
#[derive(Clone, Copy, Debug, PartialEq, Eq, Hash)]
pub struct BindGroupEntry {
    pub binding: u32,
    pub resource: BindingResource,
}

/// The entries of a bind group whose bindings are numbered in order from
/// zero.
pub open spec fn spec_sequential(resources: Seq<BindingResource>) -> Seq<BindGroupEntry> {
    Seq::new(
        resources.len(),
        |i: int| BindGroupEntry { binding: i as u32, resource: resources[i] },
    )
}

/// Whether `entries` fill `layout` entry by entry: the same bindings in the
/// same order, each with a resource that its binding accepts.
pub open spec fn conforms(entries: Seq<BindGroupEntry>, layout: Seq<BindGroupLayoutEntry>) -> bool {
    &&& entries.len() == layout.len()
    &&& forall|i: int|
        0 <= i < entries.len() ==> {
            &&& (#[trigger] entries[i]).binding == layout[i].binding
            &&& entries[i].resource.fits(layout[i].ty)
        }
}

pub struct BindGroupEntries;

impl BindGroupEntries {
    /// Numbers the resources in order from zero.
    pub fn sequential(resources: Vec<BindingResource>) -> (entries: Vec<BindGroupEntry>)
        requires
            resources@.len() <= u32::MAX,
        ensures
            entries@ == spec_sequential(resources@),
    {
        let mut entries: Vec<BindGroupEntry> = Vec::new();
        let mut binding: u32 = 0;
        let mut i: usize = 0;
        while i < resources.len()
            invariant
                resources@.len() <= u32::MAX,
                i <= resources@.len(),
                binding == i,
                entries@ == spec_sequential(resources@.take(i as int)),
            decreases resources@.len() - i,
        {
            entries.push(BindGroupEntry { binding, resource: resources[i] });
            assert(resources@.take(i + 1)[i as int] == resources@[i as int]);
            assert(entries@ =~= spec_sequential(resources@.take(i + 1)));
            binding = binding + 1;
            i = i + 1;
        }
        assert(resources@.take(i as int) =~= resources@);
        entries
    }
}

/// A labelled bind group for a layout.
#[derive(Clone, Debug, PartialEq, Eq, Hash)]
pub struct BindGroupDescriptor {
    pub label: &'static str,
    pub layout: BindGroupLayoutDescriptor,
    pub entries: Vec<BindGroupEntry>,
}

/// What a [`BindGroupDescriptor`] says.
pub struct BindGroupDescriptorView {
    pub label: Seq<char>,
    pub layout: BindGroupLayoutDescriptorView,
    pub entries: Seq<BindGroupEntry>,
}

impl View for BindGroupDescriptor {
    type V = BindGroupDescriptorView;

    open spec fn view(&self) -> BindGroupDescriptorView {
        BindGroupDescriptorView {
            label: self.label@,
            layout: self.layout@,
            entries: self.entries@,
        }
    }
}

} // verus!
