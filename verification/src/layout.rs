//! Bind group layouts: what a shader finds at each binding of a group.

use vstd::prelude::*;

verus! {

/// The shader stages that can see a binding.
#[derive(Clone, Copy, Debug, PartialEq, Eq, Hash)]
pub enum ShaderStages {
    Hidden,
    Vertex,
    Fragment,
    Compute,
    VertexFragment,
}

impl ShaderStages {
    /// Whether the vertex stage is among the stages.
    pub open spec fn has_vertex(self) -> bool {
        self == ShaderStages::Vertex || self == ShaderStages::VertexFragment
    }

    /// Whether the fragment stage is among the stages.
    pub open spec fn has_fragment(self) -> bool {
        self == ShaderStages::Fragment || self == ShaderStages::VertexFragment
    }
}

/// What sampling a texture yields.
#[derive(Clone, Copy, Debug, PartialEq, Eq, Hash)]
pub enum TextureSampleType {
    Float { filterable: bool },
    Depth,
    Sint,
    Uint,
}

/// What a sampler does between texels.
#[derive(Clone, Copy, Debug, PartialEq, Eq, Hash)]
pub enum SamplerBindingType {
    Filtering,
    NonFiltering,
    Comparison,
}

/// A uniform structure of the skybox shader. Its size in bytes follows from
/// the shader's layout rules and is for the caller to supply.
#[derive(Clone, Copy, Debug, PartialEq, Eq, Hash)]
pub enum Uniform {
    /// Camera matrices and viewport of the view being drawn.
    View,
    /// Brightness and rotation of the skybox.
    Skybox,
}

/// The kind of resource bound at a binding.
#[derive(Clone, Copy, Debug, PartialEq, Eq, Hash)]
pub enum BindingType {
    /// A cube texture that is not multisampled.
    TextureCube { sample_type: TextureSampleType },
    Sampler(SamplerBindingType),
    /// A uniform buffer that holds at least one `uniform`.
    UniformBuffer { uniform: Uniform, has_dynamic_offset: bool },
}

/// One binding of a bind group layout.
#[derive(Clone, Copy, Debug, PartialEq, Eq, Hash)]
pub struct BindGroupLayoutEntry {
    pub binding: u32,
    pub visibility: ShaderStages,
    pub ty: BindingType,
}

/// A binding that has no number yet, and perhaps no visibility.
#[derive(Clone, Copy, Debug, PartialEq, Eq, Hash)]
pub struct BindGroupLayoutEntryBuilder {
    pub ty: BindingType,
    pub visibility: Option<ShaderStages>,
}

impl BindGroupLayoutEntryBuilder {
    /// The builder with its visibility set to `visibility`.
    pub open spec fn spec_visibility(self, visibility: ShaderStages) -> BindGroupLayoutEntryBuilder {
        BindGroupLayoutEntryBuilder { ty: self.ty, visibility: Some(visibility) }
    }

    /// The entry at `binding`: the builder's own visibility where it has
    /// one, else `default_visibility`.
    pub open spec fn spec_build(&self, binding: u32, default_visibility: ShaderStages) -> BindGroupLayoutEntry {
        BindGroupLayoutEntry {
            binding,
            visibility: match self.visibility {
                Some(visibility) => visibility,
                None => default_visibility,
            },
            ty: self.ty,
        }
    }

    #[verifier::when_used_as_spec(spec_visibility)]
    pub fn visibility(self, visibility: ShaderStages) -> (builder: BindGroupLayoutEntryBuilder)
        ensures
            builder == self.spec_visibility(visibility),
    {
        BindGroupLayoutEntryBuilder { ty: self.ty, visibility: Some(visibility) }
    }

    #[verifier::when_used_as_spec(spec_build)]
    pub fn build(&self, binding: u32, default_visibility: ShaderStages) -> (entry: BindGroupLayoutEntry)
        ensures
            entry == self.spec_build(binding, default_visibility),
    {
        let visibility = match self.visibility {
            Some(visibility) => visibility,
            None => default_visibility,
        };
        BindGroupLayoutEntry { binding, visibility, ty: self.ty }
    }
}

/// A cube texture binding, visible where the layout says by default.
pub fn texture_cube(sample_type: TextureSampleType) -> (builder: BindGroupLayoutEntryBuilder)
    ensures
        builder == (BindGroupLayoutEntryBuilder {
            ty: BindingType::TextureCube { sample_type },
            visibility: None,
        }),
{
    BindGroupLayoutEntryBuilder { ty: BindingType::TextureCube { sample_type }, visibility: None }
}

/// A sampler binding, visible where the layout says by default.
pub fn sampler(sampler_binding_type: SamplerBindingType) -> (builder: BindGroupLayoutEntryBuilder)
    ensures
        builder == (BindGroupLayoutEntryBuilder {
            ty: BindingType::Sampler(sampler_binding_type),
            visibility: None,
        }),
{
    BindGroupLayoutEntryBuilder { ty: BindingType::Sampler(sampler_binding_type), visibility: None }
}

/// A uniform buffer binding, visible where the layout says by default.
pub fn uniform_buffer(uniform: Uniform, has_dynamic_offset: bool) -> (builder: BindGroupLayoutEntryBuilder)
    ensures
        builder == (BindGroupLayoutEntryBuilder {
            ty: BindingType::UniformBuffer { uniform, has_dynamic_offset },
            visibility: None,
        }),
{
    BindGroupLayoutEntryBuilder {
        ty: BindingType::UniformBuffer { uniform, has_dynamic_offset },
        visibility: None,
    }
}

/// The entries of a layout whose bindings are numbered in order from zero.
pub open spec fn spec_sequential(
    default_visibility: ShaderStages,
    builders: Seq<BindGroupLayoutEntryBuilder>,
) -> Seq<BindGroupLayoutEntry> {
    Seq::new(builders.len(), |i: int| builders[i].spec_build(i as u32, default_visibility))
}

/// Whether the entry at each position carries that position as its binding.
pub open spec fn numbered_in_order(entries: Seq<BindGroupLayoutEntry>) -> bool {
    forall|i: int| 0 <= i < entries.len() ==> (#[trigger] entries[i]).binding == i
}

pub struct BindGroupLayoutEntries;

impl BindGroupLayoutEntries {
    /// Numbers the builders in order from zero and builds each with
    /// `default_visibility`.
    pub fn sequential(default_visibility: ShaderStages, builders: Vec<BindGroupLayoutEntryBuilder>) -> (entries: Vec<BindGroupLayoutEntry>)
        requires
            builders@.len() <= u32::MAX,
        ensures
            entries@ == spec_sequential(default_visibility, builders@),
            numbered_in_order(entries@),
    {
        let mut entries: Vec<BindGroupLayoutEntry> = Vec::new();
        let mut binding: u32 = 0;
        let mut i: usize = 0;
        while i < builders.len()
            invariant
                builders@.len() <= u32::MAX,
                i <= builders@.len(),
                binding == i,
                entries@ == spec_sequential(default_visibility, builders@.take(i as int)),
            decreases builders@.len() - i,
        {
            entries.push(builders[i].build(binding, default_visibility));
            assert(builders@.take(i + 1)[i as int] == builders@[i as int]);
            assert(entries@ =~= spec_sequential(default_visibility, builders@.take(i + 1)));
            binding = binding + 1;
            i = i + 1;
        }
        assert(builders@.take(i as int) =~= builders@);
        entries
    }
}

/// A labelled bind group layout.
#[derive(Clone, Debug, PartialEq, Eq, Hash)]
pub struct BindGroupLayoutDescriptor {
    pub label: &'static str,
    pub entries: Vec<BindGroupLayoutEntry>,
}

/// What a [`BindGroupLayoutDescriptor`] says.
pub struct BindGroupLayoutDescriptorView {
    pub label: Seq<char>,
    pub entries: Seq<BindGroupLayoutEntry>,
}

impl View for BindGroupLayoutDescriptor {
    type V = BindGroupLayoutDescriptorView;

    open spec fn view(&self) -> BindGroupLayoutDescriptorView {
        BindGroupLayoutDescriptorView { label: self.label@, entries: self.entries@ }
    }
}

impl BindGroupLayoutDescriptor {
    /// A descriptor that says the same.
    pub fn duplicate(&self) -> (copy: BindGroupLayoutDescriptor)
        ensures
            copy@ == self@,
    {
        let mut entries: Vec<BindGroupLayoutEntry> = Vec::new();
        let mut i: usize = 0;
        while i < self.entries.len()
            invariant
                i <= self.entries@.len(),
                entries@ == self.entries@.take(i as int),
            decreases self.entries@.len() - i,
        {
            entries.push(self.entries[i]);
            assert(entries@ =~= self.entries@.take(i + 1));
            i = i + 1;
        }
        assert(self.entries@.take(i as int) =~= self.entries@);
        BindGroupLayoutDescriptor { label: self.label, entries }
    }
}

} // verus!
