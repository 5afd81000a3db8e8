//! Ad-hoc convex polygons: content hashing and fan triangulation.
//!
//! A polygon is a mesh built from an ordered vertex loop plus a content hash
//! over that loop — position-only and order-sensitive — used to deduplicate
//! polygons in the renderer's cache. Two polygons are equal exactly when
//! their hashes match.

use vstd::prelude::*;
use vstd::std_specs::cmp::PartialEqSpec;

use crate::error::RenderError;
use crate::fixed::Vec3Fx;
use crate::graphics::mesh::Mesh;
use crate::graphics::program::ShaderProgram;
use crate::registry::texture_registry::TextureId;

verus! {

/// Offset basis of the 64-bit FNV-1a hash.
pub const HASH_BASIS: u64 = 0xcbf29ce484222325;

/// Prime of the 64-bit FNV-1a hash.
pub const HASH_PRIME: u64 = 0x100000001b3;

/// One hash absorption step: mix a 64-bit word into the state.
pub open spec fn spec_hash_step(h: u64, w: u64) -> u64 {
    ((((h ^ w) as nat) * (HASH_PRIME as nat)) % 0x10000000000000000) as u64
}

/// Mix one vertex's coordinates into the hash state, x then y then z.
pub open spec fn spec_absorb_vertex(h: u64, v: Vec3Fx) -> u64 {
    spec_hash_step(spec_hash_step(spec_hash_step(h, v.x as u64), v.y as u64), v.z as u64)
}

/// The position-only, order-sensitive content hash of a vertex list.
pub open spec fn spec_vertex_hash(vs: Seq<Vec3Fx>) -> u64
    decreases vs.len(),
{
    if vs.len() == 0 {
        HASH_BASIS
    } else {
        spec_absorb_vertex(spec_vertex_hash(vs.drop_last()), vs.last())
    }
}

/// One hash absorption step: mix a 64-bit word into the state.
fn hash_step(h: u64, w: u64) -> (r: u64)
    ensures
        r == spec_hash_step(h, w),
{
    let x: u64 = h ^ w;
    proof {
        assert((x as nat) * (HASH_PRIME as nat) < 0x100000000000000000000000000000000)
            by (nonlinear_arith)
            requires
                (x as nat) < 0x10000000000000000,
                (HASH_PRIME as nat) < 0x10000000000000000,
        ;
    }
    (((x as u128) * (HASH_PRIME as u128)) % 0x10000000000000000u128) as u64
}

/// The interleaved vertex buffer of a polygon: each vertex's position
/// followed by a zero texture coordinate pair.
pub open spec fn spec_polygon_vbo(vs: Seq<Vec3Fx>) -> Seq<i64>
    decreases vs.len(),
{
    if vs.len() == 0 {
        Seq::empty()
    } else {
        spec_polygon_vbo(vs.drop_last()) + seq![
            vs.last().x,
            vs.last().y,
            vs.last().z,
            0i64,
            0i64,
        ]
    }
}

/// The fan triangulation of a convex loop of `n` vertices: vertex 0 is the
/// shared apex; triangle `i` is `(0, i + 1, i + 2)`.
pub open spec fn spec_fan_indices(n: int) -> Seq<u32>
    decreases n,
{
    if n <= 2 {
        Seq::empty()
    } else {
        spec_fan_indices(n - 1) + seq![0u32, (n - 2) as u32, (n - 1) as u32]
    }
}

/// A fan triangulation of `n >= 3` vertices has exactly `n - 2` triangles.
pub proof fn lemma_fan_triangle_count(n: int)
    requires
        n >= 3,
    ensures
        spec_fan_indices(n).len() == 3 * (n - 2),
    decreases n,
{
    if n > 3 {
        lemma_fan_triangle_count(n - 1);
    } else {
        assert(spec_fan_indices(2).len() == 0);
    }
}

/// A mesh for an ad-hoc convex polygon, deduplicated by its content hash.
#[derive(Debug)]
pub struct Polygon {
    pub mesh: Mesh,
    pub hash: u64,
}

impl Polygon {
    /// The content hash the polygon was built with.
    pub open spec fn spec_hash(&self) -> u64 {
        self.hash
    }

    /// The position-only, order-sensitive content hash of a vertex list.
    pub fn get_vertex_list_hash(vertices: &Vec<Vec3Fx>) -> (r: u64)
        ensures
            r == spec_vertex_hash(vertices@),
    {
        let mut h: u64 = HASH_BASIS;
        let mut i: usize = 0;
        while i < vertices.len()
            invariant
                i <= vertices@.len(),
                h == spec_vertex_hash(vertices@.take(i as int)),
            decreases vertices@.len() - i,
        {
            let v = vertices[i];
            h = hash_step(h, v.x as u64);
            h = hash_step(h, v.y as u64);
            h = hash_step(h, v.z as u64);
            proof {
                assert(vertices@.take(i + 1).drop_last() =~= vertices@.take(i as int));
                assert(vertices@.take(i + 1).last() == vertices@[i as int]);
            }
            i += 1;
        }
        proof {
            assert(vertices@.take(vertices@.len() as int) =~= vertices@);
        }
        h
    }

    /// Build a polygon mesh from a counter-clockwise vertex loop: interleave
    /// the positions with zero texture coordinates, fan-triangulate, and
    /// record the content hash. Fewer than three vertices cannot form a
    /// polygon and fail with [`RenderError::MalformedGeometry`].
    pub fn new(vertices: &Vec<Vec3Fx>, program: ShaderProgram) -> (r: Result<Polygon, RenderError>)
        requires
            vertices@.len() <= 0xFFFF_FFFF,
        ensures
            r is Ok <==> vertices@.len() >= 3,
            r matches Ok(p) ==> {
                &&& p.spec_hash() == spec_vertex_hash(vertices@)
                &&& p.mesh.vertices@ == spec_polygon_vbo(vertices@)
                &&& p.mesh.indices@ == spec_fan_indices(vertices@.len() as int)
                &&& p.mesh.program == program
                &&& p.mesh.textures@ == Seq::<(u32, TextureId)>::empty()
            },
            r matches Err(e) ==> e == RenderError::MalformedGeometry,
    {
        if vertices.len() < 3 {
            return Err(RenderError::MalformedGeometry);
        }

        let mut vbo: Vec<i64> = Vec::new();
        let mut i: usize = 0;
        while i < vertices.len()
            invariant
                i <= vertices@.len(),
                vbo@ == spec_polygon_vbo(vertices@.take(i as int)),
            decreases vertices@.len() - i,
        {
            let v = vertices[i];
            vbo.push(v.x);
            vbo.push(v.y);
            vbo.push(v.z);
            vbo.push(0);
            vbo.push(0);
            proof {
                assert(vertices@.take(i + 1).drop_last() =~= vertices@.take(i as int));
                assert(vertices@.take(i + 1).last() == vertices@[i as int]);
                assert(vbo@ =~= spec_polygon_vbo(vertices@.take(i + 1)));
            }
            i += 1;
        }
        proof {
            assert(vertices@.take(vertices@.len() as int) =~= vertices@);
        }

        let mut ebo: Vec<u32> = Vec::new();
        let mut t: usize = 1;
        while t < vertices.len() - 1
            invariant
                3 <= vertices@.len() <= 0xFFFF_FFFF,
                1 <= t <= vertices@.len() - 1,
                ebo@ == spec_fan_indices(t + 1),
            decreases vertices@.len() - t,
        {
            ebo.push(0);
            ebo.push(t as u32);
            ebo.push((t + 1) as u32);
            proof {
                assert(ebo@ =~= spec_fan_indices(t + 2));
            }
            t += 1;
        }

        let hash = Polygon::get_vertex_list_hash(vertices);
        Ok(Polygon { mesh: Mesh::new(vbo, ebo, program, None), hash })
    }
}

impl PartialEq for Polygon {
    /// Two polygons are equal exactly when their content hashes match.
    fn eq(&self, other: &Self) -> bool {
        self.hash == other.hash
    }
}

impl Eq for Polygon {

}

impl vstd::std_specs::cmp::PartialEqSpecImpl for Polygon {
    open spec fn obeys_eq_spec() -> bool {
        true
    }

    open spec fn eq_spec(&self, other: &Polygon) -> bool {
        self.spec_hash() == other.spec_hash()
    }
}

/// Vertex lists equal under the content hash give equal polygons: polygon
/// equality is exactly hash equality, so any two polygons carrying the same
/// list hash — in particular, built from the same list — compare equal.
pub proof fn lemma_hash_equal_implies_polygon_equal(
    vs: Seq<Vec3Fx>,
    ws: Seq<Vec3Fx>,
    p: Polygon,
    q: Polygon,
)
    requires
        spec_vertex_hash(vs) == spec_vertex_hash(ws),
        p.spec_hash() == spec_vertex_hash(vs),
        q.spec_hash() == spec_vertex_hash(ws),
    ensures
        p.eq_spec(&q),
{
}

} // verus!
