//! The fixed rectangle's vertex layout.
//!
//! The rectangle is six vertices — two triangles — each vertex eight
//! floats wide: a position, a color and a texture coordinate,
//! interleaved in one buffer. The float values themselves live in the
//! shell beside the buffer upload; this module pins down the layout the
//! shell declares to the driver: which attribute sits at which slot,
//! how many components it has, and at which offset within a vertex.

use vstd::prelude::*;

verus! {

/// How many floats one interleaved vertex occupies: the stride.
pub const FLOATS_PER_VERTEX: u32 = 8;

/// One vertex attribute as declared to the driver: the shader-side slot
/// it binds to, its number of float components, and its offset within a
/// vertex, counted in floats.
#[derive(Clone, Copy, Debug, PartialEq, Eq, Structural)]
pub struct VertexAttribute {
    pub slot: u32,
    pub components: u32,
    pub offset: u32,
}

/// The three attributes of a vertex, in slot order: position (three
/// components), color (three components), texture coordinate (two
/// components).
pub open spec fn attribute_seq() -> Seq<VertexAttribute> {
    seq![
        VertexAttribute { slot: 0, components: 3, offset: 0 },
        VertexAttribute { slot: 1, components: 3, offset: 3 },
        VertexAttribute { slot: 2, components: 2, offset: 6 },
    ]
}

/// Whether a layout is packed: the first attribute starts the vertex,
/// each later one starts where the previous ended, and together they
/// fill the stride exactly.
pub open spec fn is_packed(attrs: Seq<VertexAttribute>, stride: u32) -> bool {
    &&& attrs.len() > 0
    &&& attrs[0].offset == 0
    &&& forall|i: int|
        0 < i < attrs.len() ==> (#[trigger] attrs[i]).offset == attrs[i - 1].offset + attrs[i
            - 1].components
    &&& attrs.last().offset + attrs.last().components == stride
}

/// The vertex layout the shell declares to the driver.
pub fn vertex_attributes() -> (attrs: Vec<VertexAttribute>)
    ensures
        attrs@ == attribute_seq(),
{
    let mut attrs: Vec<VertexAttribute> = Vec::new();
    attrs.push(VertexAttribute { slot: 0, components: 3, offset: 0 });
    attrs.push(VertexAttribute { slot: 1, components: 3, offset: 3 });
    attrs.push(VertexAttribute { slot: 2, components: 2, offset: 6 });
    proof {
        assert(attrs@ =~= attribute_seq());
    }
    attrs
}

/// The rectangle's layout leaves no gap and no overlap: the three
/// attributes tile a vertex, and together they account for every one of
/// its `FLOATS_PER_VERTEX` floats.
pub proof fn lemma_layout_packed()
    ensures
        is_packed(attribute_seq(), FLOATS_PER_VERTEX),
{
}

} // verus!
