use vstd::prelude::*;

use crate::layout::{is_packed_layout, packed_layout, VertexFormat, VertexLayout};

verus! {

/// A corner of the mesh. The table's coordinates are whole numbers, so they
/// are held exactly as integers; the renderer widens them to `f32` when it
/// fills the vertex buffer.
#[derive(Clone, Copy, Debug, PartialEq, Eq, Structural)]
pub struct Vertex {
    /// Position in model space.
    pub x: i8,
    pub y: i8,
    pub z: i8,
    /// Texture coordinate.
    pub u: i8,
    pub v: i8,
}

impl Vertex {
    /// Formats of a vertex as the shader sees it: position, then texture
    /// coordinate.
    pub open spec fn formats() -> Seq<VertexFormat> {
        seq![VertexFormat::Float32x3, VertexFormat::Float32x2]
    }

    /// Layout of the vertex buffer: position at location 0, texture
    /// coordinate at location 1, tightly packed, 20 bytes per vertex.
    pub fn desc() -> (l: VertexLayout)
        ensures
            is_packed_layout(l, Self::formats()),
            l.array_stride == 20,
    {
        let formats = vec![VertexFormat::Float32x3, VertexFormat::Float32x2];
        assert(formats@ == Self::formats());
        let l = packed_layout(&formats);
        assert(l.array_stride == 20) by {
            reveal_with_fuel(crate::layout::packed_offset, 3);
        }
        l
    }
}

/// Twice the signed area of the triangle `a b c` in the xy plane: positive
/// exactly when its corners run counter-clockwise.
pub open spec fn winding(a: Vertex, b: Vertex, c: Vertex) -> int {
    (b.x - a.x) * (c.y - a.y) - (b.y - a.y) * (c.x - a.x)
}

/// Little-endian reading of two bytes.
pub open spec fn le_u16(lo: u8, hi: u8) -> int {
    lo as int + 256 * hi as int
}

/// The bytes `b` hold the indices `idx` two per value, all in one byte order.
pub open spec fn packed_u16(b: Seq<u8>, idx: Seq<u16>) -> bool {
    &&& b.len() == 2 * idx.len()
    &&& {
        ||| forall|i: int| 0 <= i < idx.len() ==> idx[i] == #[trigger] le_u16(b[2 * i], b[2 * i + 1])
        ||| forall|i: int| 0 <= i < idx.len() ==> idx[i] == #[trigger] le_u16(b[2 * i + 1], b[2 * i])
    }
}

/// Relies on `bytemuck::cast_slice`: the indices' memory, two bytes each, in
/// the machine's own byte order.
#[verifier::external_body]
fn cast_indices(idx: &[u16]) -> (r: Vec<u8>)
    ensures
        packed_u16(r@, idx@),
{
    bytemuck::cast_slice::<u16, u8>(idx).to_vec()
}

/// Vertex table plus a list of 16-bit indices, three per triangle.
#[derive(Debug)]
pub struct Geometry {
    pub vertices: Vec<Vertex>,
    pub indices: Vec<u16>,
}

impl Geometry {
    /// Every index names an existing vertex.
    pub open spec fn indices_in_range(&self) -> bool {
        forall|i: int| 0 <= i < self.indices@.len() ==> (#[trigger] self.indices@[i] as int) < self.vertices@.len()
    }

    /// The `t`-th triangle of the index list.
    pub open spec fn triangle_winding(&self, t: int) -> int {
        winding(
            self.vertices@[self.indices@[3 * t] as int],
            self.vertices@[self.indices@[3 * t + 1] as int],
            self.vertices@[self.indices@[3 * t + 2] as int],
        )
    }

    /// Every triangle runs counter-clockwise.
    pub open spec fn counter_clockwise(&self) -> bool {
        forall|t: int| 0 <= t < self.indices@.len() / 3 ==> #[trigger] self.triangle_winding(t) > 0
    }

    pub open spec fn wf(&self) -> bool {
        &&& self.indices@.len() % 3 == 0
        &&& self.indices@.len() <= u32::MAX
        &&& self.vertices@.len() <= u32::MAX
        &&& self.indices_in_range()
        &&& self.counter_clockwise()
    }

    /// The fixed quad: four corners, two counter-clockwise triangles.
    pub fn quad() -> (g: Geometry)
        ensures
            g.wf(),
            g.vertices@ == seq![
                Vertex { x: -1i8, y: -1i8, z: 0i8, u: -1i8, v: -1i8 },
                Vertex { x: -1i8, y: 1i8, z: 0i8, u: -1i8, v: 1i8 },
                Vertex { x: 1i8, y: -1i8, z: 0i8, u: 1i8, v: -1i8 },
                Vertex { x: 1i8, y: 1i8, z: 0i8, u: 1i8, v: 1i8 },
            ],
            g.indices@ == seq![0u16, 2, 1, 1, 2, 3],
    {
        let a = Vertex { x: -1, y: -1, z: 0, u: -1, v: -1 };
        let b = Vertex { x: -1, y: 1, z: 0, u: -1, v: 1 };
        let c = Vertex { x: 1, y: -1, z: 0, u: 1, v: -1 };
        let d = Vertex { x: 1, y: 1, z: 0, u: 1, v: 1 };
        let vertices = vec![a, b, c, d];
        let indices: Vec<u16> = vec![0, 2, 1, 1, 2, 3];
        let g = Geometry { vertices, indices };
        assert(g.indices@ == seq![0u16, 2, 1, 1, 2, 3]);
        assert(g.vertices@ == seq![a, b, c, d]);
        assert(a.x == -1 && a.y == -1 && b.x == -1 && b.y == 1);
        assert(c.x == 1 && c.y == -1 && d.x == 1 && d.y == 1);
        assert(winding(a, c, b) == 4);
        assert(winding(b, c, d) == 4);
        assert(g.triangle_winding(0) == winding(a, c, b));
        assert(g.triangle_winding(1) == winding(b, c, d));
        g
    }

    /// Number of vertices, as a draw call counts them.
    pub fn num_vertices(&self) -> (n: u32)
        requires
            self.wf(),
        ensures
            n == self.vertices@.len(),
    {
        self.vertices.len() as u32
    }

    /// Number of indices, the range one indexed draw covers.
    pub fn num_indices(&self) -> (n: u32)
        requires
            self.wf(),
        ensures
            n == self.indices@.len(),
    {
        self.indices.len() as u32
    }

    /// Contents of the index buffer.
    pub fn index_bytes(&self) -> (b: Vec<u8>)
        ensures
            packed_u16(b@, self.indices@),
    {
        cast_indices(self.indices.as_slice())
    }
}

} // verus!
