//! Shapes and the vertex geometry generated from them.
//!
//! A quad is an axis-aligned rectangle given by a center position, a scale
//! (width / height / depth) and a fill color. Its four vertices sit at the
//! center offset by half the scale in the four sign combinations, all
//! sharing the quad's color.

use vstd::prelude::*;

verus! {

/// Coordinates and extents fit comfortably below this bound, so that every
/// sum and product the geometry forms stays well inside `i64`.
pub const COORD_LIMIT: i64 = 0x8000_0000;

/// A point or extent in integer world units.
#[derive(Clone, Copy, Debug, PartialEq, Eq, Structural)]
pub struct Vec3 {
    pub x: i64,
    pub y: i64,
    pub z: i64,
}

/// An RGBA color. Each channel holds the bit pattern of a 32-bit IEEE-754
/// float in the 0..1 range; the library never does arithmetic on channels,
/// it only carries them to the GPU boundary verbatim.
#[derive(Clone, Copy, Debug, PartialEq, Eq, Structural)]
pub struct Rgba {
    pub r: u32,
    pub g: u32,
    pub b: u32,
    pub a: u32,
}

/// One vertex of a shape: a position and a color.
#[derive(Clone, Copy, Debug, PartialEq, Eq, Structural)]
pub struct Vertex {
    pub position: Vec3,
    pub color: Rgba,
}

/// A drawable shape.
#[derive(Clone, Copy, Debug)]
pub enum Shape2D {
    Quad { position: Vec3, scale: Vec3, color: Rgba },
}

impl Vec3 {
    /// Every component is strictly inside the coordinate range.
    pub open spec fn in_range(self) -> bool {
        &&& -COORD_LIMIT < self.x < COORD_LIMIT
        &&& -COORD_LIMIT < self.y < COORD_LIMIT
        &&& -COORD_LIMIT < self.z < COORD_LIMIT
    }
}

impl Shape2D {
    /// A well-formed shape: coordinates in range, and a scale that is a
    /// nonnegative width / height / depth.
    pub open spec fn wf(self) -> bool {
        match self {
            Shape2D::Quad { position, scale, color: _ } => {
                &&& position.in_range()
                &&& scale.in_range()
                &&& scale.x >= 0
                &&& scale.y >= 0
                &&& scale.z >= 0
            },
        }
    }

    /// The center position of the shape.
    pub open spec fn position(self) -> Vec3 {
        match self {
            Shape2D::Quad { position, .. } => position,
        }
    }

    /// The scale (width / height / depth) of the shape.
    pub open spec fn scale(self) -> Vec3 {
        match self {
            Shape2D::Quad { scale, .. } => scale,
        }
    }

    /// The fill color of the shape.
    pub open spec fn color(self) -> Rgba {
        match self {
            Shape2D::Quad { color, .. } => color,
        }
    }

    /// The four vertices of the shape, counter-clockwise from the bottom-left
    /// corner: the center offset by half the scale in each sign combination,
    /// every vertex carrying the shape's color.
    pub open spec fn spec_vertices(self) -> Seq<Vertex> {
        let p = self.position();
        let hx = (self.scale().x / 2) as i64;
        let hy = (self.scale().y / 2) as i64;
        let c = self.color();
        seq![
            Vertex { position: Vec3 { x: (p.x - hx) as i64, y: (p.y - hy) as i64, z: p.z }, color: c },
            Vertex { position: Vec3 { x: (p.x - hx) as i64, y: (p.y + hy) as i64, z: p.z }, color: c },
            Vertex { position: Vec3 { x: (p.x + hx) as i64, y: (p.y + hy) as i64, z: p.z }, color: c },
            Vertex { position: Vec3 { x: (p.x + hx) as i64, y: (p.y - hy) as i64, z: p.z }, color: c },
        ]
    }

    /// Build the vertex data for one draw of this shape.
    pub fn vertices(&self) -> (verts: Vec<Vertex>)
        requires
            self.wf(),
        ensures
            verts@ == self.spec_vertices(),
            verts@.len() == 4,
            forall|i: int| 0 <= i < 4 ==> (#[trigger] verts@[i]).color == self.color(),
    {
        match *self {
            Shape2D::Quad { position, scale, color } => {
                let half_x: i64 = scale.x / 2;
                let half_y: i64 = scale.y / 2;
                let mut verts: Vec<Vertex> = Vec::new();
                verts.push(Vertex {
                    position: Vec3 { x: position.x - half_x, y: position.y - half_y, z: position.z },
                    color,
                });
                verts.push(Vertex {
                    position: Vec3 { x: position.x - half_x, y: position.y + half_y, z: position.z },
                    color,
                });
                verts.push(Vertex {
                    position: Vec3 { x: position.x + half_x, y: position.y + half_y, z: position.z },
                    color,
                });
                verts.push(Vertex {
                    position: Vec3 { x: position.x + half_x, y: position.y - half_y, z: position.z },
                    color,
                });
                proof {
                    assert(verts@ =~= self.spec_vertices());
                }
                verts
            },
        }
    }
}

/// The index list for one quad: two triangles, both wound counter-clockwise,
/// addressing the four vertices of [`Shape2D::spec_vertices`].
pub open spec fn spec_quad_indices() -> Seq<u16> {
    seq![0u16, 2u16, 1u16, 0u16, 3u16, 2u16]
}

/// Build the index data for one indexed quad draw.
pub fn quad_indices() -> (idx: Vec<u16>)
    ensures
        idx@ == spec_quad_indices(),
{
    let mut idx: Vec<u16> = Vec::new();
    idx.push(0);
    idx.push(2);
    idx.push(1);
    idx.push(0);
    idx.push(3);
    idx.push(2);
    proof {
        assert(idx@ =~= spec_quad_indices());
    }
    idx
}

/// Twice the signed area of the triangle (a, b, c), projected onto the x-y
/// plane; positive exactly when the corners turn counter-clockwise.
pub open spec fn doubled_signed_area(a: Vec3, b: Vec3, c: Vec3) -> int {
    (b.x - a.x) * (c.y - a.y) - (b.y - a.y) * (c.x - a.x)
}

/// The index list cuts every quad with positive half-extents into two
/// counter-clockwise triangles that cover the quad with no overlap and no
/// gap: every index addresses one of the four vertices, all four corners are
/// used, both triangles have positive signed area, and the two areas add up
/// to exactly the area of the rectangle the vertices span.
pub proof fn law_indices_two_ccw_triangles(shape: Shape2D)
    requires
        shape.wf(),
        shape.scale().x >= 2,
        shape.scale().y >= 2,
    ensures
        ({
            let vs = shape.spec_vertices();
            let idx = spec_quad_indices();
            let area_first = doubled_signed_area(
                vs[idx[0] as int].position,
                vs[idx[1] as int].position,
                vs[idx[2] as int].position,
            );
            let area_second = doubled_signed_area(
                vs[idx[3] as int].position,
                vs[idx[4] as int].position,
                vs[idx[5] as int].position,
            );
            &&& forall|i: int| 0 <= i < idx.len() ==> 0 <= #[trigger] idx[i] < vs.len()
            &&& idx.to_set() =~= set![0u16, 1u16, 2u16, 3u16]
            &&& area_first > 0
            &&& area_second > 0
            &&& area_first + area_second == 2 * (vs[2].position.x - vs[0].position.x) * (
            vs[2].position.y - vs[0].position.y)
        }),
{
    let vs = shape.spec_vertices();
    let idx = spec_quad_indices();
    let hx = shape.scale().x as int / 2;
    let hy = shape.scale().y as int / 2;
    assert(hx >= 1 && hy >= 1);
    assert(idx.to_set() =~= set![0u16, 1u16, 2u16, 3u16]) by {
        assert(idx[0] == 0u16 && idx[2] == 1u16 && idx[1] == 2u16 && idx[4] == 3u16);
    }
    let a1 = doubled_signed_area(vs[0].position, vs[2].position, vs[1].position);
    let a2 = doubled_signed_area(vs[0].position, vs[3].position, vs[2].position);
    assert(a1 == (2 * hx) * (2 * hy) - (2 * hy) * 0);
    assert(a2 == (2 * hx) * (2 * hy) - 0 * (2 * hx));
    assert((2 * hx) * (2 * hy) > 0) by (nonlinear_arith)
        requires
            hx >= 1 && hy >= 1,
    ;
    assert(a1 + a2 == 2 * (2 * hx) * (2 * hy)) by (nonlinear_arith)
        requires
            a1 == (2 * hx) * (2 * hy) && a2 == (2 * hx) * (2 * hy),
    ;
}

} // verus!
