//! The byte layout of a vertex: for each attribute of the vertex, the
//! stride of the whole vertex and the attribute's byte offset into it, as
//! an attribute-pointer call wants them.
//!
//! An attribute is a run of f32 components, four bytes each; attributes lie
//! in the vertex back to back, in declaration order, with no padding.

use vstd::prelude::*;

verus! {

/// Bytes in one f32 component of an attribute.
pub const COMPONENT_BYTES: usize = 4;

/// One vertex attribute as the shader declares it: its location and how
/// many f32 components it has.
#[derive(PartialEq, Eq, Structural, Clone, Copy, Debug)]
pub struct VertexAttrib {
    /// The attribute's location in the shader.
    pub location: usize,
    /// How many f32 components the attribute has.
    pub components: usize,
}

/// What one attribute-pointer call takes: the attribute itself, the byte
/// stride of the whole vertex, and the attribute's byte offset into it.
#[derive(PartialEq, Eq, Structural, Clone, Copy, Debug)]
pub struct AttribPointer {
    /// The attribute's location in the shader.
    pub location: usize,
    /// How many f32 components the attribute has.
    pub components: usize,
    /// Bytes from one vertex to the next: the size of the whole vertex.
    pub stride: usize,
    /// Bytes from the start of a vertex to this attribute.
    pub offset: usize,
}

/// The bytes one attribute occupies inside a vertex.
pub open spec fn attrib_bytes(a: VertexAttrib) -> int {
    a.components * COMPONENT_BYTES
}

/// The byte offset of attribute `i`: the bytes of all attributes before it.
pub open spec fn offset_of(attrs: Seq<VertexAttrib>, i: int) -> int
    decreases i,
{
    if i <= 0 {
        0
    } else {
        offset_of(attrs, i - 1) + attrib_bytes(attrs[i - 1])
    }
}

/// The byte stride of a vertex: the bytes of all its attributes together.
pub open spec fn stride_of(attrs: Seq<VertexAttrib>) -> int {
    offset_of(attrs, attrs.len() as int)
}

/// Offsets never shrink as attributes are passed: each attribute occupies a
/// non-negative number of bytes.
pub proof fn lemma_offset_monotonic(attrs: Seq<VertexAttrib>, i: int, j: int)
    requires
        0 <= i <= j,
    ensures
        offset_of(attrs, i) <= offset_of(attrs, j),
    decreases j - i,
{
    if i < j {
        lemma_offset_monotonic(attrs, i, j - 1);
    }
}

/// Lay the attributes out: each keeps its location and component count and
/// gets the vertex's stride and its own byte offset.
pub fn layout_attribs(attrs: &Vec<VertexAttrib>) -> (r: Vec<AttribPointer>)
    requires
        stride_of(attrs@) <= usize::MAX,
    ensures
        r@.len() == attrs@.len(),
        forall|i: int| 0 <= i < r@.len() ==> #[trigger] r@[i] == (AttribPointer {
            location: attrs@[i].location,
            components: attrs@[i].components,
            stride: stride_of(attrs@) as usize,
            offset: offset_of(attrs@, i) as usize,
        }),
{
    let n = attrs.len();
    let mut stride: usize = 0;
    let mut i: usize = 0;
    while i < n
        invariant
            n == attrs@.len(),
            i <= n,
            stride_of(attrs@) <= usize::MAX,
            stride == offset_of(attrs@, i as int),
        decreases n - i,
    {
        proof {
            lemma_offset_monotonic(attrs@, 0, i as int);
            lemma_offset_monotonic(attrs@, i + 1, attrs@.len() as int);
        }
        stride = stride + attrs[i].components * COMPONENT_BYTES;
        i = i + 1;
    }
    let mut r: Vec<AttribPointer> = Vec::new();
    let mut offset: usize = 0;
    let mut i: usize = 0;
    while i < n
        invariant
            n == attrs@.len(),
            i <= n,
            stride_of(attrs@) <= usize::MAX,
            stride == stride_of(attrs@),
            offset == offset_of(attrs@, i as int),
            r@.len() == i,
            forall|k: int| 0 <= k < i ==> #[trigger] r@[k] == (AttribPointer {
                location: attrs@[k].location,
                components: attrs@[k].components,
                stride: stride_of(attrs@) as usize,
                offset: offset_of(attrs@, k) as usize,
            }),
        decreases n - i,
    {
        proof {
            lemma_offset_monotonic(attrs@, 0, i as int);
            lemma_offset_monotonic(attrs@, i + 1, attrs@.len() as int);
        }
        r.push(AttribPointer {
            location: attrs[i].location,
            components: attrs[i].components,
            stride,
            offset,
        });
        offset = offset + attrs[i].components * COMPONENT_BYTES;
        i = i + 1;
    }
    r
}

/// The demo's vertex: a position and then a color, three f32 components
/// each, at shader locations 0 and 1.
pub fn demo_vertex_layout() -> (r: Vec<VertexAttrib>)
    ensures
        r@.len() == 2,
        r@[0] == (VertexAttrib { location: 0, components: 3 }),
        r@[1] == (VertexAttrib { location: 1, components: 3 }),
{
    let mut r: Vec<VertexAttrib> = Vec::new();
    r.push(VertexAttrib { location: 0, components: 3 });
    r.push(VertexAttrib { location: 1, components: 3 });
    r
}

} // verus!
