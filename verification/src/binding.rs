//! Bind-group layouts and the groups built against them.
//!
//! A layout is an ordered list of binding slots, each with a shader
//! visibility and a resource kind. A bind group is a concrete list of
//! resources; it conforms to a layout exactly when the slots line up
//! one for one, each resource is of the slot's kind, and a uniform
//! buffer is at least as large as the slot's minimum binding size.
//! Building a group against a layout it does not conform to is the
//! fatal `BindingMismatch` of the error taxonomy, and the builder
//! here returns it precisely in that case.

use vstd::prelude::*;
use crate::error::RenderError;

verus! {

/// Which shader stage may read a binding.
#[derive(Clone, Copy, Debug, PartialEq, Eq, Structural)]
pub enum Visibility {
    VertexStage,
    FragmentStage,
}

/// The kind of resource a binding slot expects.
#[derive(Clone, Copy, Debug, PartialEq, Eq, Structural)]
pub enum BindingKind {
    /// A filterable, two-dimensional, single-sampled texture.
    SampledTexture,
    /// A filtering sampler.
    FilteringSampler,
    /// A uniform buffer bound with at least this many bytes.
    UniformBuffer { min_binding_size: u64 },
}

/// One slot of a bind-group layout.
#[derive(Clone, Copy, Debug, PartialEq, Eq, Structural)]
pub struct LayoutEntry {
    /// The binding slot number the shader names.
    pub binding: u32,
    /// The stage that reads the slot.
    pub visibility: Visibility,
    /// The resource kind the slot expects.
    pub kind: BindingKind,
}

/// An ordered bind-group layout.
#[derive(Clone, Debug, PartialEq, Eq)]
pub struct BindGroupLayout {
    pub entries: Vec<LayoutEntry>,
}

/// A concrete resource offered for one binding slot.
#[derive(Clone, Copy, Debug, PartialEq, Eq, Structural)]
pub enum BoundResource {
    /// A view of a sampled texture.
    TextureView,
    /// A filtering sampler.
    SamplerResource,
    /// A whole uniform buffer of this many bytes.
    WholeBuffer { size: u64 },
}

/// One slot of a bind group: the slot number and the resource bound
/// into it.
#[derive(Clone, Copy, Debug, PartialEq, Eq, Structural)]
pub struct BindGroupEntry {
    pub binding: u32,
    pub resource: BoundResource,
}

/// Whether a resource is of a slot's kind: textures to texture slots,
/// samplers to sampler slots, and buffers no smaller than the slot's
/// minimum to uniform slots.
pub open spec fn resource_matches_kind(kind: BindingKind, resource: BoundResource) -> bool {
    match (kind, resource) {
        (BindingKind::SampledTexture, BoundResource::TextureView) => true,
        (BindingKind::FilteringSampler, BoundResource::SamplerResource) => true,
        (
            BindingKind::UniformBuffer { min_binding_size },
            BoundResource::WholeBuffer { size },
        ) => size >= min_binding_size,
        _ => false,
    }
}

/// Whether a resource list conforms to a layout: same slot count, the
/// same slot numbers in the same order, and a matching kind at every
/// slot.
pub open spec fn group_conforms(layout: BindGroupLayout, resources: Seq<BindGroupEntry>) -> bool {
    &&& resources.len() == layout.entries@.len()
    &&& forall|k: int|
        0 <= k < resources.len() ==> (#[trigger] resources[k]).binding
            == layout.entries@[k].binding
    &&& forall|k: int|
        0 <= k < resources.len() ==> resource_matches_kind(
            layout.entries@[k].kind,
            (#[trigger] resources[k]).resource,
        )
}

/// A bind group that was checked against its layout.
#[derive(Clone, Debug, PartialEq, Eq)]
pub struct BindGroup {
    /// The layout the group was built against.
    pub layout: BindGroupLayout,
    /// The resources bound, one per slot of the layout.
    pub entries: Vec<BindGroupEntry>,
}

impl BindGroup {
    /// The checked-conformance invariant every built group carries.
    pub open spec fn well_formed(&self) -> bool {
        group_conforms(self.layout, self.entries@)
    }
}

/// Whether one offered resource is of one slot's kind.
fn entry_matches(entry: &LayoutEntry, resource: &BindGroupEntry) -> (r: bool)
    ensures
        r == (resource.binding == entry.binding && resource_matches_kind(
            entry.kind,
            resource.resource,
        )),
{
    if resource.binding != entry.binding {
        return false;
    }
    match (&entry.kind, &resource.resource) {
        (BindingKind::SampledTexture, BoundResource::TextureView) => true,
        (BindingKind::FilteringSampler, BoundResource::SamplerResource) => true,
        (BindingKind::UniformBuffer { min_binding_size }, BoundResource::WholeBuffer { size }) => {
            *size >= *min_binding_size
        },
        _ => false,
    }
}

/// Builds a bind group against a layout. Returns the group exactly
/// when the resources conform — same slots, same order, matching
/// kinds, buffers large enough — and the fatal `BindingMismatch`
/// otherwise.
pub fn build_group(layout: BindGroupLayout, resources: Vec<BindGroupEntry>) -> (r: Result<
    BindGroup,
    RenderError,
>)
    ensures
        match r {
            Ok(g) => {
                &&& group_conforms(layout, resources@)
                &&& g.layout == layout
                &&& g.entries@ == resources@
                &&& g.well_formed()
            },
            Err(e) => {
                &&& !group_conforms(layout, resources@)
                &&& e == RenderError::BindingMismatch
            },
        },
{
    if resources.len() != layout.entries.len() {
        return Err(RenderError::BindingMismatch);
    }
    let mut k: usize = 0;
    while k < resources.len()
        invariant
            k <= resources@.len(),
            resources@.len() == layout.entries@.len(),
            forall|j: int|
                0 <= j < k ==> (#[trigger] resources@[j]).binding == layout.entries@[j].binding
                    && resource_matches_kind(layout.entries@[j].kind, resources@[j].resource),
        decreases resources@.len() - k,
    {
        if !entry_matches(&layout.entries[k], &resources[k]) {
            return Err(RenderError::BindingMismatch);
        }
        k = k + 1;
    }
    Ok(BindGroup { layout, entries: resources })
}

/// The slots of the texture group's layout: slot 0 a sampled texture
/// and slot 1 a filtering sampler, both read by the fragment stage.
pub open spec fn texture_layout_entries() -> Seq<LayoutEntry> {
    seq![
        (LayoutEntry {
            binding: 0,
            visibility: Visibility::FragmentStage,
            kind: BindingKind::SampledTexture,
        }),
        (LayoutEntry {
            binding: 1,
            visibility: Visibility::FragmentStage,
            kind: BindingKind::FilteringSampler,
        }),
    ]
}

/// The slots of a matrix group's layout: slot 0 a uniform buffer
/// holding one 4×4 matrix — 64 bytes at least — read by the vertex
/// stage.
pub open spec fn mat4_layout_entries() -> Seq<LayoutEntry> {
    seq![
        (LayoutEntry {
            binding: 0,
            visibility: Visibility::VertexStage,
            kind: BindingKind::UniformBuffer { min_binding_size: 64 },
        }),
    ]
}

/// Builds the texture group's layout.
pub fn texture_bind_group_layout() -> (l: BindGroupLayout)
    ensures
        l.entries@ == texture_layout_entries(),
{
    let l = BindGroupLayout {
        entries: vec![
            LayoutEntry {
                binding: 0,
                visibility: Visibility::FragmentStage,
                kind: BindingKind::SampledTexture,
            },
            LayoutEntry {
                binding: 1,
                visibility: Visibility::FragmentStage,
                kind: BindingKind::FilteringSampler,
            },
        ],
    };
    proof {
        assert(l.entries@ =~= texture_layout_entries());
    }
    l
}

/// Builds a matrix group's layout.
pub fn mat4_bind_group_layout() -> (l: BindGroupLayout)
    ensures
        l.entries@ == mat4_layout_entries(),
{
    let l = BindGroupLayout {
        entries: vec![
            LayoutEntry {
                binding: 0,
                visibility: Visibility::VertexStage,
                kind: BindingKind::UniformBuffer { min_binding_size: 64 },
            },
        ],
    };
    proof {
        assert(l.entries@ =~= mat4_layout_entries());
    }
    l
}

/// A uniform buffer the engine re-uploads each frame, with overwrite
/// semantics: every upload replaces the whole contents.
#[derive(Clone, Debug)]
pub struct UniformBuffer {
    pub contents: Vec<u8>,
}

impl UniformBuffer {
    /// Creates the buffer holding its initial payload.
    pub fn create(bytes: Vec<u8>) -> (b: UniformBuffer)
        ensures
            b.contents@ == bytes@,
    {
        UniformBuffer { contents: bytes }
    }

    /// Overwrites the whole contents with this frame's payload; the
    /// draw recorded after the upload reads exactly these bytes.
    pub fn upload(&mut self, bytes: &Vec<u8>)
        ensures
            final(self).contents@ == bytes@,
    {
        self.contents = bytes.clone();
    }

    /// The whole buffer, offered as a binding.
    pub fn as_entire_binding(&self, binding: u32) -> (e: BindGroupEntry)
        ensures
            e == (BindGroupEntry {
                binding,
                resource: BoundResource::WholeBuffer { size: self.contents@.len() as u64 },
            }),
    {
        BindGroupEntry {
            binding,
            resource: BoundResource::WholeBuffer { size: self.contents.len() as u64 },
        }
    }
}

} // verus!
