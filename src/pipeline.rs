//! The render pipeline's fixed inputs: the resource bindings the shader
//! reads, the full-screen quad, its vertex layout and the one draw call.

use vstd::prelude::*;

verus! {

/// Bytes in the shader parameter block: four 32-bit fields (time, artifact
/// amplifier, adjusted CRT amount, bloom factor).
pub const UNIFORM_SIZE: u64 = 16;

/// Bytes from one vertex to the next: a position and a texture coordinate,
/// two 32-bit floats each.
pub const VERTEX_STRIDE: u64 = 16;

/// What the fragment shader finds at a binding slot.
#[derive(Clone, Copy, Debug, PartialEq, Eq, Structural)]
pub enum BindingKind {
    /// A filterable 2D float texture.
    SampledTexture,
    /// A filtering sampler: linear filtering, clamped to the edge.
    FilteringSampler,
    /// A uniform buffer of at least `min_size` bytes.
    UniformBuffer { min_size: u64 },
}

/// The bindings, slot `i` at index `i`.
pub open spec fn binding_slots() -> Seq<BindingKind> {
    seq![
        BindingKind::SampledTexture,
        BindingKind::FilteringSampler,
        BindingKind::UniformBuffer { min_size: UNIFORM_SIZE },
    ]
}

/// The layout of the one bind group, all slots visible to the fragment
/// stage: the image at slot 0, its sampler at slot 1, the parameters at 2.
pub fn bind_group_layout() -> (r: Vec<BindingKind>)
    ensures
        r@ == binding_slots(),
{
    let mut r: Vec<BindingKind> = Vec::new();
    r.push(BindingKind::SampledTexture);
    r.push(BindingKind::FilteringSampler);
    r.push(BindingKind::UniformBuffer { min_size: UNIFORM_SIZE });
    assert(r@ =~= binding_slots());
    r
}

/// A corner of the quad: its position in clip space (each coordinate -1
/// or 1) and its texture coordinate (each 0 or 1, `v` growing downwards).
#[derive(Clone, Copy, Debug, PartialEq, Eq, Structural)]
pub struct QuadVertex {
    pub x: i8,
    pub y: i8,
    pub u: u8,
    pub v: u8,
}

/// The texture coordinate that shows the image upright at a corner: left
/// edge at `u` 0, top edge at `v` 0.
pub open spec fn maps_upright(c: QuadVertex) -> bool {
    &&& c.x == -1 || c.x == 1
    &&& c.y == -1 || c.y == 1
    &&& c.u == (c.x + 1) / 2
    &&& c.v == (1 - c.y) / 2
}

/// The four corners, counter-clockwise from the bottom left.
pub open spec fn quad_corners() -> Seq<QuadVertex> {
    seq![
        QuadVertex { x: -1i8, y: -1i8, u: 0, v: 1 },
        QuadVertex { x: 1, y: -1i8, u: 1, v: 1 },
        QuadVertex { x: 1, y: 1, u: 1, v: 0 },
        QuadVertex { x: -1i8, y: 1, u: 0, v: 0 },
    ]
}

/// The two triangles, as corner indices: they share the diagonal from the
/// bottom left to the top right.
pub open spec fn quad_triangles() -> Seq<u16> {
    seq![0u16, 1, 2, 2, 3, 0]
}

/// The corners of the quad that covers the viewport.
pub fn quad_vertices() -> (r: Vec<QuadVertex>)
    ensures
        r@ == quad_corners(),
        forall|i: int| 0 <= i < r@.len() ==> maps_upright(#[trigger] r@[i]),
{
    let mut r: Vec<QuadVertex> = Vec::new();
    r.push(QuadVertex { x: -1, y: -1, u: 0, v: 1 });
    r.push(QuadVertex { x: 1, y: -1, u: 1, v: 1 });
    r.push(QuadVertex { x: 1, y: 1, u: 1, v: 0 });
    r.push(QuadVertex { x: -1, y: 1, u: 0, v: 0 });
    assert(r@ =~= quad_corners());
    r
}

/// The index list that draws the quad as two triangles.
pub fn quad_indices() -> (r: Vec<u16>)
    ensures
        r@ == quad_triangles(),
        forall|i: int| 0 <= i < r@.len() ==> (#[trigger] r@[i] as int) < quad_corners().len(),
{
    let r: Vec<u16> = vec![0, 1, 2, 2, 3, 0];
    assert(r@ =~= quad_triangles());
    r
}

/// One vertex attribute: two 32-bit floats at `offset` within a vertex,
/// read by the shader at `location`.
#[derive(Clone, Copy, Debug, PartialEq, Eq, Structural)]
pub struct VertexAttribute {
    pub offset: u64,
    pub location: u32,
}

/// Bytes taken by one attribute.
pub const ATTRIBUTE_SIZE: u64 = 8;

/// The attributes of a quad vertex: the position at location 0 and the
/// texture coordinate at location 1, one after the other.
pub fn vertex_attributes() -> (r: Vec<VertexAttribute>)
    ensures
        r@ == seq![
            VertexAttribute { offset: 0, location: 0 },
            VertexAttribute { offset: ATTRIBUTE_SIZE, location: 1 },
        ],
        forall|i: int|
            0 <= i < r@.len() ==> #[trigger] r@[i].offset + ATTRIBUTE_SIZE <= VERTEX_STRIDE,
{
    let mut r: Vec<VertexAttribute> = Vec::new();
    r.push(VertexAttribute { offset: 0, location: 0 });
    r.push(VertexAttribute { offset: ATTRIBUTE_SIZE, location: 1 });
    r
}

/// An indexed draw: `index_count` indices from `first_index`, with
/// `base_vertex` added to each, for `instance_count` instances.
#[derive(Clone, Copy, Debug, PartialEq, Eq, Structural)]
pub struct DrawCall {
    pub first_index: u32,
    pub index_count: u32,
    pub base_vertex: i32,
    pub instance_count: u32,
}

/// The draw that covers every index of the quad once.
pub open spec fn quad_draw() -> DrawCall {
    DrawCall { first_index: 0, index_count: quad_triangles().len() as u32, base_vertex: 0, instance_count: 1 }
}

/// The one draw call of a frame.
pub fn draw_call() -> (r: DrawCall)
    ensures
        r == quad_draw(),
        r.index_count == 6,
{
    DrawCall { first_index: 0, index_count: 6, base_vertex: 0, instance_count: 1 }
}

} // verus!
