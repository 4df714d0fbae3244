//! The mesh of a filled circle: a fan of triangles around its centre.

use vstd::prelude::*;

use crate::scalar::Scalar;
use crate::vertex::Vertex;

verus! {

/// A circle whose rim is to be traced. Its rim has `segments + 1` points: point `i` lies at the
/// angle of `i` parts out of `segments` of a full turn, at the distance `radius` from the
/// centre, with its horizontal distance divided by the ratio of `width` to `height`.
#[derive(Clone, Copy, Debug, PartialEq, Eq)]
pub struct CircleShape {
    pub segments: u32,
    pub radius: Scalar,
    pub width: u32,
    pub height: u32,
    pub center: [Scalar; 2],
    pub color: [Scalar; 3],
}

/// The vertices of a circle: its centre, then the points of its rim, all in one colour.
pub open spec fn disc(
    center: [Scalar; 2],
    color: [Scalar; 3],
    rim: Seq<[Scalar; 2]>,
) -> Seq<Vertex> {
    seq![Vertex { position: center, color }] + rim.map_values(
        |position: [Scalar; 2]| Vertex { position, color },
    )
}

/// The indices of a fan of `segments` triangles: triangle `t` joins vertex 0 to the vertices
/// `t + 1` and `t + 2`. Indices wrap around after 16 bits.
pub open spec fn fan(segments: int) -> Seq<u16> {
    Seq::new(
        (3 * segments) as nat,
        |k: int|
            if k % 3 == 0 {
                0
            } else {
                ((k / 3 + k % 3) % 0x1_0000) as u16
            },
    )
}

/// The vertices and indices of a circle of `segments` triangles around `(cx, cy)`, from the
/// points of its rim.
pub fn build_circle(
    segments: u32,
    cx: Scalar,
    cy: Scalar,
    color: [Scalar; 3],
    rim: &Vec<[Scalar; 2]>,
) -> (mesh: (Vec<Vertex>, Vec<u16>))
    requires
        3 * segments <= u32::MAX,
        rim@.len() == segments + 1,
    ensures
        mesh.0@ == disc([cx, cy], color, rim@),
        mesh.1@ == fan(segments as int),
        mesh.0@.len() == rim@.len() + 1,
        mesh.0@[0] == (Vertex { position: [cx, cy], color }),
        forall|i: int|
            0 <= i < rim@.len() ==> mesh.0@[i + 1] == (Vertex {
                position: #[trigger] rim@[i],
                color,
            }),
        mesh.1@.len() == 3 * segments,
        forall|k: int|
            0 <= k < 3 * segments ==> #[trigger] mesh.1@[k] == if k % 3 == 0 {
                0int
            } else {
                (k / 3 + k % 3) % 0x1_0000
            },
{
    let mut vertices: Vec<Vertex> = Vec::with_capacity((segments + 2) as usize);
    let mut indices: Vec<u16> = Vec::with_capacity((segments * 3) as usize);

    vertices.push(Vertex { position: [cx, cy], color });

    let mut point: usize = 0;
    while point < rim.len()
        invariant
            point <= rim@.len(),
            vertices@ == disc([cx, cy], color, rim@.take(point as int)),
        decreases rim@.len() - point,
    {
        vertices.push(Vertex { position: rim[point], color });
        point = point + 1;
        assert(vertices@ =~= disc([cx, cy], color, rim@.take(point as int)));
    }
    assert(rim@.take(point as int) =~= rim@);

    let mut i: u32 = 0;
    while i < segments
        invariant
            i <= segments,
            3 * segments <= u32::MAX,
            indices@ == fan(i as int),
        decreases segments - i,
    {
        let second: u32 = i + 1;
        let third: u32 = i + 2;
        assert(second as u16 == second % 0x1_0000) by (bit_vector);
        assert(third as u16 == third % 0x1_0000) by (bit_vector);
        indices.push(0);
        indices.push(#[verifier::truncate] (second as u16));
        indices.push(#[verifier::truncate] (third as u16));
        i = i + 1;
        assert(indices@ =~= fan(i as int));
    }

    (vertices, indices)
}

/// The mesh of a circle has its centre for vertex 0 and each point of its rim for the vertex
/// after the point before it: vertex `i + 1` lies where point `i` of the rim lies. All of them
/// have the circle's colour, and there are no others.
pub proof fn law_vertices_are_the_centre_and_the_rim(
    center: [Scalar; 2],
    color: [Scalar; 3],
    rim: Seq<[Scalar; 2]>,
    i: int,
)
    requires
        0 <= i < rim.len(),
    ensures
        disc(center, color, rim).len() == rim.len() + 1,
        disc(center, color, rim)[0].position == center,
        disc(center, color, rim)[0].color == color,
        disc(center, color, rim)[i + 1].position == rim[i],
        disc(center, color, rim)[i + 1].color == color,
{
}

/// Every triangle of a fan starts at the centre and goes on to two neighbouring vertices. Where
/// they are too many for an index of 16 bits, what is left over of them after whole multiples of
/// 65536 is taken.
pub proof fn law_fan_wraps_around(segments: int, t: int)
    requires
        0 <= t < segments,
    ensures
        fan(segments).len() == 3 * segments,
        fan(segments)[3 * t] == 0,
        fan(segments)[3 * t + 1] == (t + 1) % 0x1_0000,
        fan(segments)[3 * t + 2] == (t + 2) % 0x1_0000,
{
}

/// The triangles of a fan cover the circle, one after the other: triangle `t` has the corners
/// 0, `t + 1` and `t + 2`, so that its last edge is the first edge of the next triangle.
/// From 65535 segments on a corner no longer fits an index, and this fails.
pub proof fn law_fan_triangles(segments: int, t: int)
    requires
        0 <= t < segments < 0xffff,
    ensures
        fan(segments).len() == 3 * segments,
        fan(segments)[3 * t] == 0,
        fan(segments)[3 * t + 1] == t + 1,
        fan(segments)[3 * t + 2] == t + 2,
        t + 1 < segments ==> fan(segments)[3 * (t + 1) + 1] == fan(segments)[3 * t + 2],
{
}

/// A mesh uses its own vertices, and all of them: every index of a circle's fan is that of a
/// vertex of its disc, and every vertex is the corner of a triangle.
/// From 65535 segments on a corner no longer fits an index, and this fails.
pub proof fn law_mesh_uses_exactly_its_vertices(
    segments: int,
    center: [Scalar; 2],
    color: [Scalar; 3],
    rim: Seq<[Scalar; 2]>,
)
    requires
        0 < segments < 0xffff,
        rim.len() == segments + 1,
    ensures
        forall|k: int|
            0 <= k < fan(segments).len() ==> #[trigger] fan(segments)[k] < disc(
                center,
                color,
                rim,
            ).len(),
        forall|v: int|
            0 <= v < disc(center, color, rim).len() ==> #[trigger] fan(segments).contains(
                v as u16,
            ),
{
    assert forall|v: int|
        0 <= v < disc(center, color, rim).len() implies #[trigger] fan(segments).contains(
        v as u16,
    ) by {
        let k = if v == 0 {
            0
        } else if v <= segments {
            3 * (v - 1) + 1
        } else {
            3 * (v - 2) + 2
        };
        assert(fan(segments)[k] == v as u16);
    }
}

} // verus!
