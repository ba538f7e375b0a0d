//! The selectable render variants.
//!
//! One startup identifier chooses among fixed render configurations —
//! shader, bind-group set, vertex layouts, clear color, draw shape.
//! An unrecognized identifier is the fatal `UnknownVariant`: no
//! render loop starts. Each variant's pipeline and frame plan are
//! built by one parameterized builder rather than duplicated loop
//! bodies.

use vstd::prelude::*;
use vstd::string::StringSliceAdditionalSpecFns;
use crate::binding::{texture_layout_entries, mat4_layout_entries, texture_bind_group_layout,
    mat4_bind_group_layout};
use crate::error::RenderError;
use crate::frame::{Pipeline, FramePlan};
use crate::geometry::{
    ColorVertex, TexVertex, StepMode, color_vertex_attrs, tex_vertex_attrs, transform_attrs,
};
use crate::transform::Transform;

verus! {

/// The fixed render configurations a run can select.
#[derive(Clone, Copy, Debug, PartialEq, Eq, Structural)]
pub enum RenderVariant {
    /// A bare surface cleared to a solid color; nothing is drawn.
    Window,
    /// A triangle whose vertices live in the shader: no buffers.
    SolidTriangle,
    /// A colored triangle fed from a vertex buffer.
    BufferedTriangle,
    /// Four colored triangles fed from one vertex buffer.
    MultiTriangle,
    /// A colored triangle drawn through an index buffer.
    IndexedTriangle,
    /// A textured quad drawn through an index buffer.
    TexturedQuad,
    /// The textured quad under an animated model transform with view
    /// and projection matrices.
    AnimatedQuad,
}

/// The identifier that selects a variant.
pub open spec fn variant_token(v: RenderVariant) -> Seq<u8> {
    match v {
        RenderVariant::Window => seq![('w' as u8), ('i' as u8), ('n' as u8), ('d' as u8), ('o' as u8), ('w' as u8)],
        RenderVariant::SolidTriangle => seq![('v' as u8), ('1' as u8)],
        RenderVariant::BufferedTriangle => seq![('v' as u8), ('2' as u8)],
        RenderVariant::MultiTriangle => seq![('v' as u8), ('3' as u8)],
        RenderVariant::IndexedTriangle => seq![('s' as u8), ('h' as u8), ('a' as u8), ('d' as u8), ('e' as u8), ('r' as u8)],
        RenderVariant::TexturedQuad => seq![('t' as u8), ('e' as u8), ('x' as u8), ('t' as u8), ('u' as u8), ('r' as u8), ('e' as u8)],
        RenderVariant::AnimatedQuad => seq![('c' as u8), ('o' as u8), ('o' as u8), ('r' as u8), ('d' as u8)],
    }
}

/// Whether two byte slices hold the same bytes.
fn bytes_eq(a: &[u8], b: &[u8]) -> (r: bool)
    ensures
        r == (a@ == b@),
{
    if a.len() != b.len() {
        proof {
            assert(a@ != b@);
        }
        return false;
    }
    let mut k: usize = 0;
    while k < a.len()
        invariant
            k <= a@.len(),
            a@.len() == b@.len(),
            forall|i: int| 0 <= i < k ==> a@[i] == b@[i],
        decreases a@.len() - k,
    {
        if a[k] != b[k] {
            return false;
        }
        k = k + 1;
    }
    proof {
        assert(a@ =~= b@);
    }
    true
}

/// Parses a startup identifier. Returns the variant whose identifier
/// the string holds, and the fatal `UnknownVariant` exactly when it
/// matches none.
pub fn parse_variant(name: &str) -> (r: Result<RenderVariant, RenderError>)
    ensures
        match r {
            Ok(v) => name.spec_bytes() == variant_token(v),
            Err(e) => {
                &&& e == RenderError::UnknownVariant
                &&& forall|v: RenderVariant| name.spec_bytes() != variant_token(v)
            },
        },
{
    let nb = name.as_bytes();
    let window_pat: [u8; 6] = [('w' as u8), ('i' as u8), ('n' as u8), ('d' as u8), ('o' as u8), ('w' as u8)];
    let v1_pat: [u8; 2] = [('v' as u8), ('1' as u8)];
    let v2_pat: [u8; 2] = [('v' as u8), ('2' as u8)];
    let v3_pat: [u8; 2] = [('v' as u8), ('3' as u8)];
    let shader_pat: [u8; 6] = [('s' as u8), ('h' as u8), ('a' as u8), ('d' as u8), ('e' as u8), ('r' as u8)];
    let texture_pat: [u8; 7] = [('t' as u8), ('e' as u8), ('x' as u8), ('t' as u8), ('u' as u8), ('r' as u8), ('e' as u8)];
    let coord_pat: [u8; 5] = [('c' as u8), ('o' as u8), ('o' as u8), ('r' as u8), ('d' as u8)];
    proof {
        assert(window_pat@ =~= variant_token(RenderVariant::Window));
        assert(v1_pat@ =~= variant_token(RenderVariant::SolidTriangle));
        assert(v2_pat@ =~= variant_token(RenderVariant::BufferedTriangle));
        assert(v3_pat@ =~= variant_token(RenderVariant::MultiTriangle));
        assert(shader_pat@ =~= variant_token(RenderVariant::IndexedTriangle));
        assert(texture_pat@ =~= variant_token(RenderVariant::TexturedQuad));
        assert(coord_pat@ =~= variant_token(RenderVariant::AnimatedQuad));
    }
    if bytes_eq(nb, window_pat.as_slice()) {
        Ok(RenderVariant::Window)
    } else if bytes_eq(nb, v1_pat.as_slice()) {
        Ok(RenderVariant::SolidTriangle)
    } else if bytes_eq(nb, v2_pat.as_slice()) {
        Ok(RenderVariant::BufferedTriangle)
    } else if bytes_eq(nb, v3_pat.as_slice()) {
        Ok(RenderVariant::MultiTriangle)
    } else if bytes_eq(nb, shader_pat.as_slice()) {
        Ok(RenderVariant::IndexedTriangle)
    } else if bytes_eq(nb, texture_pat.as_slice()) {
        Ok(RenderVariant::TexturedQuad)
    } else if bytes_eq(nb, coord_pat.as_slice()) {
        Ok(RenderVariant::AnimatedQuad)
    } else {
        Err(RenderError::UnknownVariant)
    }
}

/// The color a variant's pass clears to before drawing.
#[derive(Clone, Copy, Debug, PartialEq, Eq, Structural)]
pub enum ClearColor {
    Black,
    Green,
}

/// The clear color of each variant: the two earliest demos clear to
/// green, the rest to black.
pub open spec fn spec_clear_color(v: RenderVariant) -> ClearColor {
    match v {
        RenderVariant::Window => ClearColor::Green,
        RenderVariant::SolidTriangle => ClearColor::Green,
        _ => ClearColor::Black,
    }
}

/// The color this variant's pass clears to.
pub fn clear_color(v: RenderVariant) -> (c: ClearColor)
    ensures
        c == spec_clear_color(v),
{
    match v {
        RenderVariant::Window => ClearColor::Green,
        RenderVariant::SolidTriangle => ClearColor::Green,
        _ => ClearColor::Black,
    }
}

/// Whether a variant repaints continuously: it asks for the next
/// redraw every time the pending ones are cleared. The three
/// triangle-buffer demos repaint only when the platform asks.
pub open spec fn spec_is_continuous(v: RenderVariant) -> bool {
    match v {
        RenderVariant::SolidTriangle => false,
        RenderVariant::BufferedTriangle => false,
        RenderVariant::MultiTriangle => false,
        _ => true,
    }
}

/// Whether this variant repaints continuously.
pub fn is_continuous(v: RenderVariant) -> (r: bool)
    ensures
        r == spec_is_continuous(v),
{
    match v {
        RenderVariant::SolidTriangle => false,
        RenderVariant::BufferedTriangle => false,
        RenderVariant::MultiTriangle => false,
        _ => true,
    }
}

/// Whether a variant draws through an index buffer.
pub open spec fn spec_is_indexed(v: RenderVariant) -> bool {
    match v {
        RenderVariant::IndexedTriangle => true,
        RenderVariant::TexturedQuad => true,
        RenderVariant::AnimatedQuad => true,
        _ => false,
    }
}

/// Builds the pipeline for a variant: its bind-group layouts, slot by
/// slot, and its vertex-buffer layouts. The bare window variant has
/// no pipeline at all.
pub fn pipeline_for(v: RenderVariant) -> (r: Option<Pipeline>)
    ensures
        match r {
            None => v == RenderVariant::Window,
            Some(p) => {
                &&& v != RenderVariant::Window
                &&& match v {
                    RenderVariant::Window => false,
                    RenderVariant::SolidTriangle => {
                        &&& p.bind_group_layouts@.len() == 0
                        &&& p.vertex_layouts@.len() == 0
                    },
                    RenderVariant::BufferedTriangle | RenderVariant::MultiTriangle
                        | RenderVariant::IndexedTriangle => {
                        &&& p.bind_group_layouts@.len() == 0
                        &&& p.vertex_layouts@.len() == 1
                        &&& p.vertex_layouts@[0].array_stride == 24
                        &&& p.vertex_layouts@[0].step_mode == StepMode::PerVertex
                        &&& p.vertex_layouts@[0].attributes@ == color_vertex_attrs()
                    },
                    RenderVariant::TexturedQuad => {
                        &&& p.bind_group_layouts@.len() == 1
                        &&& p.bind_group_layouts@[0].entries@ == texture_layout_entries()
                        &&& p.vertex_layouts@.len() == 1
                        &&& p.vertex_layouts@[0].array_stride == 20
                        &&& p.vertex_layouts@[0].step_mode == StepMode::PerVertex
                        &&& p.vertex_layouts@[0].attributes@ == tex_vertex_attrs()
                    },
                    RenderVariant::AnimatedQuad => {
                        &&& p.bind_group_layouts@.len() == 3
                        &&& p.bind_group_layouts@[0].entries@ == texture_layout_entries()
                        &&& p.bind_group_layouts@[1].entries@ == mat4_layout_entries()
                        &&& p.bind_group_layouts@[2].entries@ == mat4_layout_entries()
                        &&& p.vertex_layouts@.len() == 2
                        &&& p.vertex_layouts@[0].array_stride == 20
                        &&& p.vertex_layouts@[0].step_mode == StepMode::PerVertex
                        &&& p.vertex_layouts@[0].attributes@ == tex_vertex_attrs()
                        &&& p.vertex_layouts@[1].array_stride == 64
                        &&& p.vertex_layouts@[1].step_mode == StepMode::PerInstance
                        &&& p.vertex_layouts@[1].attributes@ == transform_attrs()
                    },
                }
            },
        },
{
    match v {
        RenderVariant::Window => None,
        RenderVariant::SolidTriangle => Some(Pipeline {
            bind_group_layouts: Vec::new(),
            vertex_layouts: Vec::new(),
        }),
        RenderVariant::BufferedTriangle | RenderVariant::MultiTriangle
            | RenderVariant::IndexedTriangle => {
            let p = Pipeline {
                bind_group_layouts: Vec::new(),
                vertex_layouts: vec![ColorVertex::buffer_layout()],
            };
            Some(p)
        },
        RenderVariant::TexturedQuad => {
            let p = Pipeline {
                bind_group_layouts: vec![texture_bind_group_layout()],
                vertex_layouts: vec![TexVertex::buffer_layout()],
            };
            Some(p)
        },
        RenderVariant::AnimatedQuad => {
            let p = Pipeline {
                bind_group_layouts: vec![
                    texture_bind_group_layout(),
                    mat4_bind_group_layout(),
                    mat4_bind_group_layout(),
                ],
                vertex_layouts: vec![TexVertex::buffer_layout(), Transform::buffer_layout()],
            };
            Some(p)
        },
    }
}

/// Lays out one frame of a variant over the platform layer's resource
/// ids, which are assigned by convention: the pipeline is id 0, bind
/// groups take ids equal to their slots, vertex buffers ids equal to
/// their slots, and the index buffer — for indexed variants — id 0.
/// The draw covers the given full counts, one instance. The bare
/// window variant draws nothing and has no plan.
pub fn frame_plan(v: RenderVariant, vertex_count: u32, index_count: u32) -> (r: Option<FramePlan>)
    ensures
        match r {
            None => v == RenderVariant::Window,
            Some(plan) => {
                &&& v != RenderVariant::Window
                &&& plan.pipeline == 0
                // the shader of the hard-coded triangle always draws
                // three vertices, whatever geometry the caller owns
                &&& plan.vertex_count == (if v == RenderVariant::SolidTriangle {
                    3u32
                } else {
                    vertex_count
                })
                &&& plan.index_count == index_count
                &&& plan.index_buffer == (if spec_is_indexed(v) {
                    Some(0usize)
                } else {
                    None::<usize>
                })
                &&& match v {
                    RenderVariant::Window => false,
                    RenderVariant::SolidTriangle => {
                        &&& plan.bind_groups@ =~= Seq::<usize>::empty()
                        &&& plan.vertex_buffers@ =~= Seq::<usize>::empty()
                    },
                    RenderVariant::BufferedTriangle | RenderVariant::MultiTriangle
                        | RenderVariant::IndexedTriangle => {
                        &&& plan.bind_groups@ =~= Seq::<usize>::empty()
                        &&& plan.vertex_buffers@ =~= seq![0usize]
                    },
                    RenderVariant::TexturedQuad => {
                        &&& plan.bind_groups@ =~= seq![0usize]
                        &&& plan.vertex_buffers@ =~= seq![0usize]
                    },
                    RenderVariant::AnimatedQuad => {
                        &&& plan.bind_groups@ =~= seq![0usize, 1usize, 2usize]
                        &&& plan.vertex_buffers@ =~= seq![0usize, 1usize]
                    },
                }
            },
        },
{
    match v {
        RenderVariant::Window => None,
        RenderVariant::SolidTriangle => Some(FramePlan {
            pipeline: 0,
            bind_groups: Vec::new(),
            vertex_buffers: Vec::new(),
            index_buffer: None,
            vertex_count: 3,
            index_count,
        }),
        RenderVariant::BufferedTriangle | RenderVariant::MultiTriangle => Some(FramePlan {
            pipeline: 0,
            bind_groups: Vec::new(),
            vertex_buffers: vec![0usize],
            index_buffer: None,
            vertex_count,
            index_count,
        }),
        RenderVariant::IndexedTriangle => Some(FramePlan {
            pipeline: 0,
            bind_groups: Vec::new(),
            vertex_buffers: vec![0usize],
            index_buffer: Some(0usize),
            vertex_count,
            index_count,
        }),
        RenderVariant::TexturedQuad => Some(FramePlan {
            pipeline: 0,
            bind_groups: vec![0usize],
            vertex_buffers: vec![0usize],
            index_buffer: Some(0usize),
            vertex_count,
            index_count,
        }),
        RenderVariant::AnimatedQuad => Some(FramePlan {
            pipeline: 0,
            bind_groups: vec![0usize, 1usize, 2usize],
            vertex_buffers: vec![0usize, 1usize],
            index_buffer: Some(0usize),
            vertex_count,
            index_count,
        }),
    }
}

} // verus!
