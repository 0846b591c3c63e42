use vstd::prelude::*;
use crate::color::Color;

verus! {

/// Scalar attribute slots per vertex: two for position, two for the texture
/// coordinate, four for color. The stream is bound to fixed attribute slots,
/// so this layout is part of the contract with the shader backend and is fixed
/// for the life of a frame context.
pub const VERTEX_SCALARS: u32 = 8;

/// Bytes per scalar attribute slot (one 32-bit float on the wire).
pub const SCALAR_BYTES: u32 = 4;

/// One vertex of the stream handed to the rasterizer: a position in pixel
/// coordinates, a texture coordinate (each axis 0 or 1, the corners of
/// texture space), and a color.
#[derive(Clone, Copy, PartialEq, Eq, Structural, Debug)]
pub struct Vertex {
    pub x: i32,
    pub y: i32,
    pub u: u8,
    pub v: u8,
    pub color: Color,
}

/// One vertex attribute as the backend must register it: the attribute slot
/// it binds, how many scalars it spans, and its offset into the vertex in
/// scalars.
#[derive(Clone, Copy, PartialEq, Eq, Structural, Debug)]
pub struct Attribute {
    pub slot: u32,
    pub scalars: u32,
    pub offset: u32,
}

/// The fixed attribute layout of a vertex: position, then texture coordinate,
/// then color, packed without gaps.
pub open spec fn attribute_layout_spec() -> Seq<Attribute> {
    seq![
        Attribute { slot: 0, scalars: 2, offset: 0 },
        Attribute { slot: 1, scalars: 2, offset: 2 },
        Attribute { slot: 2, scalars: 4, offset: 4 },
    ]
}

/// The attribute layout the backend registers once at setup, one entry per
/// attribute slot of the vertex stream.
pub fn attribute_layout() -> (layout: Vec<Attribute>)
    ensures
        layout@ == attribute_layout_spec(),
{
    let mut layout: Vec<Attribute> = Vec::new();
    layout.push(Attribute { slot: 0, scalars: 2, offset: 0 });
    layout.push(Attribute { slot: 1, scalars: 2, offset: 2 });
    layout.push(Attribute { slot: 2, scalars: 4, offset: 4 });
    proof {
        assert(layout@ =~= attribute_layout_spec());
    }
    layout
}

/// The stride of one vertex in bytes, as the backend passes it when it
/// registers the attributes.
pub fn vertex_stride_bytes() -> (stride: u32)
    ensures
        stride == VERTEX_SCALARS * SCALAR_BYTES,
{
    VERTEX_SCALARS * SCALAR_BYTES
}

/// Law: the attribute layout is packed. The attributes bind consecutive
/// slots starting at zero, the first attribute starts at offset zero, each
/// later one starts where the one before it ends, and together they span the
/// whole vertex: the stride never drifts from the registered attributes.
pub proof fn lemma_attribute_layout_packed()
    ensures
        attribute_layout_spec().len() > 0,
        forall|i: int|
            0 <= i < attribute_layout_spec().len() ==> (#[trigger] attribute_layout_spec()[i].slot)
                == i,
        attribute_layout_spec()[0].offset == 0,
        forall|i: int|
            0 < i < attribute_layout_spec().len() ==> (#[trigger] attribute_layout_spec()[i].offset)
                == attribute_layout_spec()[i - 1].offset + attribute_layout_spec()[i - 1].scalars,
        attribute_layout_spec().last().offset + attribute_layout_spec().last().scalars
            == VERTEX_SCALARS,
{
}

} // verus!
