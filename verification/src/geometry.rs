//! Static mesh geometry and its exact GPU layout.
//!
//! Two vertex shapes exist: a position with a color, and a position
//! with a texture coordinate. For each, the byte layout of the packed
//! vertex buffer is pinned down exactly — field order, attribute
//! offsets, stride — and the serializer is proved to produce it, so
//! the buffer uploaded always matches the vertex-buffer layout
//! declared to the pipeline. Index data is a stream of 16-bit words,
//! so a mesh may hold at most 65536 vertices.

use vstd::prelude::*;
use crate::algebra::Vec3Bits;
use crate::codec::{
    bytes_of_words, bytes_of_shorts, words_to_bytes, shorts_to_bytes, lemma_bytes_of_words_len,
};
use crate::scalar::{
    ZERO_BITS, ONE_BITS, NEG_ONE_BITS, HALF_BITS, NEG_HALF_BITS, QUARTER_BITS, NEG_QUARTER_BITS,
};
use crate::transform::Transform;

verus! {

/// A vertex carrying a position and a color, three lanes each.
#[derive(Clone, Copy, Debug)]
pub struct ColorVertex {
    pub pos: Vec3Bits,
    pub color: Vec3Bits,
}

/// A vertex carrying a position and a two-lane texture coordinate.
#[derive(Clone, Copy, Debug)]
pub struct TexVertex {
    pub pos: Vec3Bits,
    pub tex_coord: [u32; 2],
}

/// Builds a colored vertex.
pub fn color_vertex(pos: Vec3Bits, color: Vec3Bits) -> (v: ColorVertex)
    ensures
        v == (ColorVertex { pos, color }),
{
    ColorVertex { pos, color }
}

/// Builds a textured vertex.
pub fn tex_vertex(pos: Vec3Bits, tex_coord: [u32; 2]) -> (v: TexVertex)
    ensures
        v == (TexVertex { pos, tex_coord }),
{
    TexVertex { pos, tex_coord }
}

/// The six words of one packed colored vertex: position, then color.
pub open spec fn words_of_color_vertex(v: ColorVertex) -> Seq<u32> {
    seq![v.pos[0], v.pos[1], v.pos[2], v.color[0], v.color[1], v.color[2]]
}

/// The five words of one packed textured vertex: position, then
/// texture coordinate.
pub open spec fn words_of_tex_vertex(v: TexVertex) -> Seq<u32> {
    seq![v.pos[0], v.pos[1], v.pos[2], v.tex_coord[0], v.tex_coord[1]]
}

/// The packed word stream of a colored mesh, vertex by vertex.
pub open spec fn words_of_color_vertices(vs: Seq<ColorVertex>) -> Seq<u32>
    decreases vs.len(),
{
    if vs.len() == 0 {
        Seq::empty()
    } else {
        words_of_color_vertex(vs[0]) + words_of_color_vertices(vs.drop_first())
    }
}

/// The packed word stream of a textured mesh, vertex by vertex.
pub open spec fn words_of_tex_vertices(vs: Seq<TexVertex>) -> Seq<u32>
    decreases vs.len(),
{
    if vs.len() == 0 {
        Seq::empty()
    } else {
        words_of_tex_vertex(vs[0]) + words_of_tex_vertices(vs.drop_first())
    }
}

/// The exact byte payload of a packed colored vertex buffer.
pub open spec fn color_mesh_bytes(vs: Seq<ColorVertex>) -> Seq<u8> {
    bytes_of_words(words_of_color_vertices(vs))
}

/// The exact byte payload of a packed textured vertex buffer.
pub open spec fn tex_mesh_bytes(vs: Seq<TexVertex>) -> Seq<u8> {
    bytes_of_words(words_of_tex_vertices(vs))
}

/// One more colored vertex appends its six words.
pub proof fn lemma_words_of_color_vertices_push(vs: Seq<ColorVertex>, v: ColorVertex)
    ensures
        words_of_color_vertices(vs.push(v)) == words_of_color_vertices(vs)
            + words_of_color_vertex(v),
    decreases vs.len(),
{
    if vs.len() == 0 {
        assert(vs.push(v).drop_first() =~= vs);
        assert(words_of_color_vertices(vs.push(v)) =~= words_of_color_vertices(vs)
            + words_of_color_vertex(v));
    } else {
        assert(vs.push(v)[0] == vs[0]);
        assert(vs.push(v).drop_first() =~= vs.drop_first().push(v));
        lemma_words_of_color_vertices_push(vs.drop_first(), v);
        assert(words_of_color_vertices(vs.push(v)) =~= words_of_color_vertices(vs)
            + words_of_color_vertex(v));
    }
}

/// One more textured vertex appends its five words.
pub proof fn lemma_words_of_tex_vertices_push(vs: Seq<TexVertex>, v: TexVertex)
    ensures
        words_of_tex_vertices(vs.push(v)) == words_of_tex_vertices(vs) + words_of_tex_vertex(v),
    decreases vs.len(),
{
    if vs.len() == 0 {
        assert(vs.push(v).drop_first() =~= vs);
        assert(words_of_tex_vertices(vs.push(v)) =~= words_of_tex_vertices(vs)
            + words_of_tex_vertex(v));
    } else {
        assert(vs.push(v)[0] == vs[0]);
        assert(vs.push(v).drop_first() =~= vs.drop_first().push(v));
        lemma_words_of_tex_vertices_push(vs.drop_first(), v);
        assert(words_of_tex_vertices(vs.push(v)) =~= words_of_tex_vertices(vs)
            + words_of_tex_vertex(v));
    }
}

/// A colored mesh packs six words per vertex.
pub proof fn lemma_words_of_color_vertices_len(vs: Seq<ColorVertex>)
    ensures
        words_of_color_vertices(vs).len() == 6 * vs.len(),
    decreases vs.len(),
{
    if vs.len() != 0 {
        lemma_words_of_color_vertices_len(vs.drop_first());
    }
}

/// A textured mesh packs five words per vertex.
pub proof fn lemma_words_of_tex_vertices_len(vs: Seq<TexVertex>)
    ensures
        words_of_tex_vertices(vs).len() == 5 * vs.len(),
    decreases vs.len(),
{
    if vs.len() != 0 {
        lemma_words_of_tex_vertices_len(vs.drop_first());
    }
}

/// Serializes a colored mesh; each vertex occupies exactly the
/// 24-byte stride its declared layout promises.
pub fn color_vertices_to_bytes(vs: &Vec<ColorVertex>) -> (out: Vec<u8>)
    ensures
        out@ == color_mesh_bytes(vs@),
        out@.len() == 24 * vs@.len(),
{
    let mut words: Vec<u32> = Vec::new();
    let mut i: usize = 0;
    assert(vs@.take(0) =~= Seq::<ColorVertex>::empty());
    while i < vs.len()
        invariant
            i <= vs@.len(),
            words@ == words_of_color_vertices(vs@.take(i as int)),
        decreases vs@.len() - i,
    {
        let v = vs[i];
        words.push(v.pos[0]);
        words.push(v.pos[1]);
        words.push(v.pos[2]);
        words.push(v.color[0]);
        words.push(v.color[1]);
        words.push(v.color[2]);
        proof {
            assert(vs@.take(i + 1) =~= vs@.take(i as int).push(vs@[i as int]));
            lemma_words_of_color_vertices_push(vs@.take(i as int), vs@[i as int]);
            assert(words@ =~= words_of_color_vertices(vs@.take(i + 1)));
        }
        i = i + 1;
    }
    proof {
        assert(vs@.take(vs@.len() as int) =~= vs@);
        lemma_words_of_color_vertices_len(vs@);
        lemma_bytes_of_words_len(words_of_color_vertices(vs@));
    }
    words_to_bytes(&words)
}

/// Serializes a textured mesh; each vertex occupies exactly the
/// 20-byte stride its declared layout promises.
pub fn tex_vertices_to_bytes(vs: &Vec<TexVertex>) -> (out: Vec<u8>)
    ensures
        out@ == tex_mesh_bytes(vs@),
        out@.len() == 20 * vs@.len(),
{
    let mut words: Vec<u32> = Vec::new();
    let mut i: usize = 0;
    assert(vs@.take(0) =~= Seq::<TexVertex>::empty());
    while i < vs.len()
        invariant
            i <= vs@.len(),
            words@ == words_of_tex_vertices(vs@.take(i as int)),
        decreases vs@.len() - i,
    {
        let v = vs[i];
        words.push(v.pos[0]);
        words.push(v.pos[1]);
        words.push(v.pos[2]);
        words.push(v.tex_coord[0]);
        words.push(v.tex_coord[1]);
        proof {
            assert(vs@.take(i + 1) =~= vs@.take(i as int).push(vs@[i as int]));
            lemma_words_of_tex_vertices_push(vs@.take(i as int), vs@[i as int]);
            assert(words@ =~= words_of_tex_vertices(vs@.take(i + 1)));
        }
        i = i + 1;
    }
    proof {
        assert(vs@.take(vs@.len() as int) =~= vs@);
        lemma_words_of_tex_vertices_len(vs@);
        lemma_bytes_of_words_len(words_of_tex_vertices(vs@));
    }
    words_to_bytes(&words)
}

/// How many lanes one vertex attribute spans.
#[derive(Clone, Copy, Debug, PartialEq, Eq)]
pub enum AttrFormat {
    /// Two single-precision lanes.
    Xy,
    /// Three single-precision lanes.
    Xyz,
    /// Four single-precision lanes.
    Xyzw,
}

/// Whether a vertex buffer advances per vertex or per instance.
#[derive(Clone, Copy, Debug, PartialEq, Eq)]
pub enum StepMode {
    PerVertex,
    PerInstance,
}

/// One attribute of a vertex-buffer layout: its lane format, its byte
/// offset within the stride, and the shader location it feeds.
#[derive(Clone, Copy, Debug, PartialEq, Eq)]
pub struct VertexAttribute {
    pub format: AttrFormat,
    pub offset: u64,
    pub shader_location: u32,
}

/// A vertex-buffer layout as declared to the pipeline: the byte
/// stride between consecutive elements, the step mode, and the
/// ordered attributes.
#[derive(Clone, Debug, PartialEq, Eq)]
pub struct VertexBufferLayout {
    pub array_stride: u64,
    pub step_mode: StepMode,
    pub attributes: Vec<VertexAttribute>,
}

/// The byte size of an attribute: four bytes per lane.
pub open spec fn attr_size(f: AttrFormat) -> u64 {
    match f {
        AttrFormat::Xy => 8,
        AttrFormat::Xyz => 12,
        AttrFormat::Xyzw => 16,
    }
}

/// A layout is well formed when every attribute lies within the
/// stride, consecutive attributes do not overlap, and no two
/// attributes feed the same shader location.
pub open spec fn layout_well_formed(l: VertexBufferLayout) -> bool {
    &&& forall|i: int|
        0 <= i < l.attributes@.len() ==> (#[trigger] l.attributes@[i].offset) + attr_size(
            l.attributes@[i].format,
        ) <= l.array_stride
    &&& forall|i: int, j: int|
        0 <= i < j < l.attributes@.len() ==> (#[trigger] l.attributes@[i]).offset + attr_size(
            l.attributes@[i].format,
        ) <= (#[trigger] l.attributes@[j]).offset
    &&& forall|i: int, j: int|
        0 <= i < j < l.attributes@.len() ==> (#[trigger] l.attributes@[i]).shader_location != (
        #[trigger] l.attributes@[j]).shader_location
}

/// The attributes of a packed colored vertex: position at offset 0
/// feeding location 0, color at offset 12 feeding location 1.
pub open spec fn color_vertex_attrs() -> Seq<VertexAttribute> {
    seq![
        (VertexAttribute { format: AttrFormat::Xyz, offset: 0, shader_location: 0 }),
        (VertexAttribute { format: AttrFormat::Xyz, offset: 12, shader_location: 1 }),
    ]
}

/// The attributes of a packed textured vertex: position at offset 0
/// feeding location 0, texture coordinate at offset 12 feeding
/// location 1.
pub open spec fn tex_vertex_attrs() -> Seq<VertexAttribute> {
    seq![
        (VertexAttribute { format: AttrFormat::Xyz, offset: 0, shader_location: 0 }),
        (VertexAttribute { format: AttrFormat::Xy, offset: 12, shader_location: 1 }),
    ]
}

/// The attributes of the per-instance matrix buffer: one four-lane
/// column every 16 bytes, feeding locations 2 through 5.
pub open spec fn transform_attrs() -> Seq<VertexAttribute> {
    seq![
        (VertexAttribute { format: AttrFormat::Xyzw, offset: 0, shader_location: 2 }),
        (VertexAttribute { format: AttrFormat::Xyzw, offset: 16, shader_location: 3 }),
        (VertexAttribute { format: AttrFormat::Xyzw, offset: 32, shader_location: 4 }),
        (VertexAttribute { format: AttrFormat::Xyzw, offset: 48, shader_location: 5 }),
    ]
}

impl ColorVertex {
    /// The layout of a packed colored vertex buffer: 24-byte stride,
    /// stepped per vertex.
    pub fn buffer_layout() -> (l: VertexBufferLayout)
        ensures
            l.array_stride == 24,
            l.step_mode == StepMode::PerVertex,
            l.attributes@ == color_vertex_attrs(),
            layout_well_formed(l),
    {
        VertexBufferLayout {
            array_stride: 24,
            step_mode: StepMode::PerVertex,
            attributes: vec![
                VertexAttribute { format: AttrFormat::Xyz, offset: 0, shader_location: 0 },
                VertexAttribute { format: AttrFormat::Xyz, offset: 12, shader_location: 1 },
            ],
        }
    }
}

impl TexVertex {
    /// The layout of a packed textured vertex buffer: 20-byte stride,
    /// stepped per vertex.
    pub fn buffer_layout() -> (l: VertexBufferLayout)
        ensures
            l.array_stride == 20,
            l.step_mode == StepMode::PerVertex,
            l.attributes@ == tex_vertex_attrs(),
            layout_well_formed(l),
    {
        VertexBufferLayout {
            array_stride: 20,
            step_mode: StepMode::PerVertex,
            attributes: vec![
                VertexAttribute { format: AttrFormat::Xyz, offset: 0, shader_location: 0 },
                VertexAttribute { format: AttrFormat::Xy, offset: 12, shader_location: 1 },
            ],
        }
    }
}

impl Transform {
    /// The layout of the per-instance matrix buffer: one 4×4 matrix
    /// per instance, 64-byte stride, one four-lane attribute per
    /// column.
    pub fn buffer_layout() -> (l: VertexBufferLayout)
        ensures
            l.array_stride == 64,
            l.step_mode == StepMode::PerInstance,
            l.attributes@ == transform_attrs(),
            layout_well_formed(l),
    {
        VertexBufferLayout {
            array_stride: 64,
            step_mode: StepMode::PerInstance,
            attributes: vec![
                VertexAttribute { format: AttrFormat::Xyzw, offset: 0, shader_location: 2 },
                VertexAttribute { format: AttrFormat::Xyzw, offset: 16, shader_location: 3 },
                VertexAttribute { format: AttrFormat::Xyzw, offset: 32, shader_location: 4 },
                VertexAttribute { format: AttrFormat::Xyzw, offset: 48, shader_location: 5 },
            ],
        }
    }
}

/// The single colored triangle: apex red, bottom-left green,
/// bottom-right blue.
pub open spec fn triangle_vertices_spec() -> Seq<ColorVertex> {
    seq![
        (ColorVertex {
            pos: [ZERO_BITS, HALF_BITS, ZERO_BITS],
            color: [ONE_BITS, ZERO_BITS, ZERO_BITS],
        }),
        (ColorVertex {
            pos: [NEG_HALF_BITS, NEG_HALF_BITS, ZERO_BITS],
            color: [ZERO_BITS, ONE_BITS, ZERO_BITS],
        }),
        (ColorVertex {
            pos: [HALF_BITS, NEG_HALF_BITS, ZERO_BITS],
            color: [ZERO_BITS, ZERO_BITS, ONE_BITS],
        }),
    ]
}

/// Builds the single colored triangle.
pub fn triangle_vertices() -> (vs: Vec<ColorVertex>)
    ensures
        vs@ == triangle_vertices_spec(),
{
    let vs = vec![
        color_vertex([ZERO_BITS, HALF_BITS, ZERO_BITS], [ONE_BITS, ZERO_BITS, ZERO_BITS]),
        color_vertex([NEG_HALF_BITS, NEG_HALF_BITS, ZERO_BITS], [ZERO_BITS, ONE_BITS, ZERO_BITS]),
        color_vertex([HALF_BITS, NEG_HALF_BITS, ZERO_BITS], [ZERO_BITS, ZERO_BITS, ONE_BITS]),
    ];
    proof {
        assert(vs@ =~= triangle_vertices_spec());
    }
    vs
}

/// The corners of the four smaller triangles, arranged in a
/// two-by-two pattern: each triangle has a red, a green and a blue
/// corner.
pub open spec fn two_triangle_vertices_spec() -> Seq<ColorVertex> {
    seq![
        (ColorVertex { pos: [NEG_QUARTER_BITS, HALF_BITS, ZERO_BITS], color: [ONE_BITS, ZERO_BITS, ZERO_BITS] }),
        (ColorVertex { pos: [ZERO_BITS, ZERO_BITS, ZERO_BITS], color: [ZERO_BITS, ONE_BITS, ZERO_BITS] }),
        (ColorVertex { pos: [NEG_HALF_BITS, ZERO_BITS, ZERO_BITS], color: [ZERO_BITS, ZERO_BITS, ONE_BITS] }),
        (ColorVertex { pos: [QUARTER_BITS, HALF_BITS, ZERO_BITS], color: [ONE_BITS, ZERO_BITS, ZERO_BITS] }),
        (ColorVertex { pos: [ZERO_BITS, ZERO_BITS, ZERO_BITS], color: [ZERO_BITS, ONE_BITS, ZERO_BITS] }),
        (ColorVertex { pos: [HALF_BITS, ZERO_BITS, ZERO_BITS], color: [ZERO_BITS, ZERO_BITS, ONE_BITS] }),
        (ColorVertex { pos: [NEG_QUARTER_BITS, ZERO_BITS, ZERO_BITS], color: [ONE_BITS, ZERO_BITS, ZERO_BITS] }),
        (ColorVertex { pos: [ZERO_BITS, NEG_HALF_BITS, ZERO_BITS], color: [ZERO_BITS, ONE_BITS, ZERO_BITS] }),
        (ColorVertex { pos: [NEG_HALF_BITS, NEG_HALF_BITS, ZERO_BITS], color: [ZERO_BITS, ZERO_BITS, ONE_BITS] }),
        (ColorVertex { pos: [QUARTER_BITS, ZERO_BITS, ZERO_BITS], color: [ONE_BITS, ZERO_BITS, ZERO_BITS] }),
        (ColorVertex { pos: [ZERO_BITS, NEG_HALF_BITS, ZERO_BITS], color: [ZERO_BITS, ONE_BITS, ZERO_BITS] }),
        (ColorVertex { pos: [HALF_BITS, NEG_HALF_BITS, ZERO_BITS], color: [ZERO_BITS, ZERO_BITS, ONE_BITS] }),
    ]
}

/// Builds the four smaller triangles.
pub fn two_triangle_vertices() -> (vs: Vec<ColorVertex>)
    ensures
        vs@ == two_triangle_vertices_spec(),
{
    let red: Vec3Bits = [ONE_BITS, ZERO_BITS, ZERO_BITS];
    let green: Vec3Bits = [ZERO_BITS, ONE_BITS, ZERO_BITS];
    let blue: Vec3Bits = [ZERO_BITS, ZERO_BITS, ONE_BITS];
    let vs = vec![
        color_vertex([NEG_QUARTER_BITS, HALF_BITS, ZERO_BITS], red),
        color_vertex([ZERO_BITS, ZERO_BITS, ZERO_BITS], green),
        color_vertex([NEG_HALF_BITS, ZERO_BITS, ZERO_BITS], blue),
        color_vertex([QUARTER_BITS, HALF_BITS, ZERO_BITS], red),
        color_vertex([ZERO_BITS, ZERO_BITS, ZERO_BITS], green),
        color_vertex([HALF_BITS, ZERO_BITS, ZERO_BITS], blue),
        color_vertex([NEG_QUARTER_BITS, ZERO_BITS, ZERO_BITS], red),
        color_vertex([ZERO_BITS, NEG_HALF_BITS, ZERO_BITS], green),
        color_vertex([NEG_HALF_BITS, NEG_HALF_BITS, ZERO_BITS], blue),
        color_vertex([QUARTER_BITS, ZERO_BITS, ZERO_BITS], red),
        color_vertex([ZERO_BITS, NEG_HALF_BITS, ZERO_BITS], green),
        color_vertex([HALF_BITS, NEG_HALF_BITS, ZERO_BITS], blue),
    ];
    proof {
        assert(vs@ =~= two_triangle_vertices_spec());
    }
    vs
}

/// The wide colored triangle drawn through an index buffer: corners
/// at the bottom edges and the top middle, indices in order.
pub fn indexed_triangle_mesh() -> (r: (Vec<ColorVertex>, Vec<u16>))
    ensures
        r.0@ == seq![
            (ColorVertex {
                pos: [NEG_ONE_BITS, NEG_ONE_BITS, ZERO_BITS],
                color: [ONE_BITS, ZERO_BITS, ZERO_BITS],
            }),
            (ColorVertex {
                pos: [ONE_BITS, NEG_ONE_BITS, ZERO_BITS],
                color: [ZERO_BITS, ONE_BITS, ZERO_BITS],
            }),
            (ColorVertex {
                pos: [ZERO_BITS, ONE_BITS, ZERO_BITS],
                color: [ZERO_BITS, ZERO_BITS, ONE_BITS],
            }),
        ],
        r.1@ == seq![0u16, 1u16, 2u16],
{
    let vs = vec![
        color_vertex([NEG_ONE_BITS, NEG_ONE_BITS, ZERO_BITS], [ONE_BITS, ZERO_BITS, ZERO_BITS]),
        color_vertex([ONE_BITS, NEG_ONE_BITS, ZERO_BITS], [ZERO_BITS, ONE_BITS, ZERO_BITS]),
        color_vertex([ZERO_BITS, ONE_BITS, ZERO_BITS], [ZERO_BITS, ZERO_BITS, ONE_BITS]),
    ];
    let is = vec![0u16, 1u16, 2u16];
    proof {
        assert(is@ =~= seq![0u16, 1u16, 2u16]);
    }
    (vs, is)
}

/// The textured unit quad and the six indices that split it into two
/// triangles.
pub fn create_vertices() -> (r: (Vec<TexVertex>, Vec<u16>))
    ensures
        r.0@ == seq![
            (TexVertex { pos: [NEG_HALF_BITS, NEG_HALF_BITS, ZERO_BITS], tex_coord: [ZERO_BITS, ONE_BITS] }),
            (TexVertex { pos: [HALF_BITS, NEG_HALF_BITS, ZERO_BITS], tex_coord: [ONE_BITS, ONE_BITS] }),
            (TexVertex { pos: [HALF_BITS, HALF_BITS, ZERO_BITS], tex_coord: [ONE_BITS, ZERO_BITS] }),
            (TexVertex { pos: [NEG_HALF_BITS, HALF_BITS, ZERO_BITS], tex_coord: [ZERO_BITS, ZERO_BITS] }),
        ],
        r.1@ == seq![0u16, 1u16, 3u16, 1u16, 2u16, 3u16],
{
    let vs = vec![
        tex_vertex([NEG_HALF_BITS, NEG_HALF_BITS, ZERO_BITS], [ZERO_BITS, ONE_BITS]),
        tex_vertex([HALF_BITS, NEG_HALF_BITS, ZERO_BITS], [ONE_BITS, ONE_BITS]),
        tex_vertex([HALF_BITS, HALF_BITS, ZERO_BITS], [ONE_BITS, ZERO_BITS]),
        tex_vertex([NEG_HALF_BITS, HALF_BITS, ZERO_BITS], [ZERO_BITS, ZERO_BITS]),
    ];
    let is = vec![0u16, 1u16, 3u16, 1u16, 2u16, 3u16];
    proof {
        assert(is@ =~= seq![0u16, 1u16, 3u16, 1u16, 2u16, 3u16]);
    }
    (vs, is)
}

/// Whether every index points at a vertex of the mesh.
pub open spec fn indices_in_range(indices: Seq<u16>, vertex_count: int) -> bool {
    forall|k: int| 0 <= k < indices.len() ==> (#[trigger] indices[k]) < vertex_count
}

/// Checks that every index points at a vertex of the mesh.
pub fn check_indices(indices: &Vec<u16>, vertex_count: u32) -> (ok: bool)
    ensures
        ok == indices_in_range(indices@, vertex_count as int),
{
    let mut i: usize = 0;
    while i < indices.len()
        invariant
            i <= indices@.len(),
            forall|k: int| 0 <= k < i ==> (#[trigger] indices@[k]) < vertex_count,
        decreases indices@.len() - i,
    {
        if indices[i] as u32 >= vertex_count {
            return false;
        }
        i = i + 1;
    }
    true
}

/// The packed buffers of one uploaded mesh, with the counts the draw
/// call covers.
#[derive(Clone, Debug)]
pub struct GeometryStore {
    /// The packed vertex buffer payload.
    pub vertex_data: Vec<u8>,
    /// The packed 16-bit index buffer payload; empty for non-indexed
    /// meshes.
    pub index_data: Vec<u8>,
    /// How many vertices the vertex buffer holds.
    pub vertex_count: u32,
    /// How many indices the index buffer holds.
    pub index_count: u32,
}

impl GeometryStore {
    /// Packs a colored mesh for upload. Indices are 16-bit, so the
    /// mesh may hold at most 65536 vertices; violating that is a
    /// caller error, excluded here.
    pub fn upload_color_mesh(vertices: &Vec<ColorVertex>, indices: &Vec<u16>) -> (g: GeometryStore)
        requires
            vertices@.len() <= 65536,
            indices@.len() <= u32::MAX,
        ensures
            g.vertex_data@ == color_mesh_bytes(vertices@),
            g.index_data@ == bytes_of_shorts(indices@),
            g.vertex_count == vertices@.len(),
            g.index_count == indices@.len(),
    {
        GeometryStore {
            vertex_data: color_vertices_to_bytes(vertices),
            index_data: shorts_to_bytes(indices),
            vertex_count: vertices.len() as u32,
            index_count: indices.len() as u32,
        }
    }

    /// Packs a textured mesh for upload, under the same 16-bit index
    /// limit.
    pub fn upload_tex_mesh(vertices: &Vec<TexVertex>, indices: &Vec<u16>) -> (g: GeometryStore)
        requires
            vertices@.len() <= 65536,
            indices@.len() <= u32::MAX,
        ensures
            g.vertex_data@ == tex_mesh_bytes(vertices@),
            g.index_data@ == bytes_of_shorts(indices@),
            g.vertex_count == vertices@.len(),
            g.index_count == indices@.len(),
    {
        GeometryStore {
            vertex_data: tex_vertices_to_bytes(vertices),
            index_data: shorts_to_bytes(indices),
            vertex_count: vertices.len() as u32,
            index_count: indices.len() as u32,
        }
    }
}

} // verus!
