//! The standalone triangle vertex array of the basic pipeline.

use vstd::prelude::*;

use crate::graphics::mesh::AttribPointer;

verus! {

/// The fixed triangle: three positions in fixed-point units, no texture
/// coordinates.
pub open spec fn spec_triangle_vertices() -> Seq<i64> {
    seq![-500i64, -500i64, 0i64, 500i64, -500i64, 0i64, 0i64, 500i64, 0i64]
}

/// An order to draw `vertex_count` vertices of one vertex array as a
/// triangle list.
#[derive(Clone, Copy, PartialEq, Eq, Structural, Debug)]
pub struct VaoDraw {
    pub vao: u32,
    pub vertex_count: u32,
}

/// A plain vertex array holding the fixed triangle.
#[derive(Clone, Copy, PartialEq, Eq, Structural, Debug)]
pub struct Vao {
    pub id: u32,
}

impl Vao {
    pub fn new(id: u32) -> (r: Self)
        ensures
            r == (Vao { id }),
    {
        Vao { id }
    }

    /// The vertex data the embedding uploads into the array's buffer.
    pub fn vertex_data() -> (r: Vec<i64>)
        ensures
            r@ == spec_triangle_vertices(),
    {
        let r: Vec<i64> = vec![-500, -500, 0, 500, -500, 0, 0, 500, 0];
        proof {
            assert(r@ =~= spec_triangle_vertices());
        }
        r
    }

    /// The single position attribute of the triangle's layout: three
    /// components per vertex, tightly packed.
    pub fn attrib() -> (r: AttribPointer)
        ensures
            r == (AttribPointer { index: 0u32, components: 3u32, stride: 3u32, offset: 0u32 }),
    {
        AttribPointer { index: 0, components: 3, stride: 3, offset: 0 }
    }

    /// The draw order for the triangle: all three vertices, then unbind.
    pub fn draw(&self) -> (r: VaoDraw)
        ensures
            r == (VaoDraw { vao: self.id, vertex_count: 3u32 }),
    {
        VaoDraw { vao: self.id, vertex_count: 3 }
    }
}

} // verus!
