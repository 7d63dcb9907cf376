//! The fixed geometry every draw call shares: one quad covering the whole
//! draw surface in normalized device coordinates, as two triangles.

use vstd::prelude::*;

verus! {

/// One vertex of the quad; each coordinate is a corner of the normalized
/// device square, so `-1` or `1`.
#[derive(Clone, Copy, Debug, PartialEq, Eq, Structural)]
pub struct Vertex {
    pub pos_x: i8,
    pub pos_y: i8,
}

/// The quad's vertices and the indices of its two triangles; immutable
/// after creation and shared by every draw call.
pub struct RenderGeometry {
    pub vertices: Vec<Vertex>,
    pub indices: Vec<u8>,
}

/// The four corners, counter-clockwise from the lower left.
pub open spec fn quad_vertices() -> Seq<Vertex> {
    seq![
        Vertex { pos_x: -1i8, pos_y: -1i8 },
        Vertex { pos_x: -1i8, pos_y: 1i8 },
        Vertex { pos_x: 1i8, pos_y: 1i8 },
        Vertex { pos_x: 1i8, pos_y: -1i8 },
    ]
}

/// Two triangles sharing the main diagonal: corners 0-1-2 and 2-3-0.
pub open spec fn quad_indices() -> Seq<u8> {
    seq![0u8, 1u8, 2u8, 2u8, 3u8, 0u8]
}

impl RenderGeometry {
    /// Each index points at one of the four vertices.
    pub open spec fn wf(self) -> bool {
        &&& self.vertices@.len() == 4
        &&& forall|i: int| 0 <= i < self.indices@.len() ==> self.indices@[i] < 4
    }
}

/// Build the full-surface quad: four corner vertices and the six indices of
/// its two triangles.
pub fn whole_surface_triangles() -> (g: RenderGeometry)
    ensures
        g.vertices@ == quad_vertices(),
        g.indices@ == quad_indices(),
        g.wf(),
{
    let mut vertices: Vec<Vertex> = Vec::new();
    vertices.push(Vertex { pos_x: -1, pos_y: -1 });
    vertices.push(Vertex { pos_x: -1, pos_y: 1 });
    vertices.push(Vertex { pos_x: 1, pos_y: 1 });
    vertices.push(Vertex { pos_x: 1, pos_y: -1 });
    let mut indices: Vec<u8> = Vec::new();
    indices.push(0);
    indices.push(1);
    indices.push(2);
    indices.push(2);
    indices.push(3);
    indices.push(0);
    proof {
        assert(vertices@ =~= quad_vertices());
        assert(indices@ =~= quad_indices());
    }
    RenderGeometry { vertices, indices }
}

} // verus!
