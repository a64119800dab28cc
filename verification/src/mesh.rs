//! Indexed triangle meshes: the triangles of the index list, the attributes
//! of their corners, and the vertex list of a mesh.

use crate::scalar::{Scalar, Vector2, Vector3};
use vstd::prelude::*;

verus! {

/// An indexed triangle list over flat attribute arrays: three scalars per
/// vertex in `positions` and `normals`, two in `texcoords`, and three
/// vertex numbers per triangle in `indices`.
#[derive(Clone, Debug)]
pub struct Mesh {
    pub positions: Vec<Scalar>,
    pub normals: Vec<Scalar>,
    pub texcoords: Vec<Scalar>,
    pub indices: Vec<u32>,
}

/// The attributes of the three corners of a triangle.
#[derive(Clone, Copy, Debug, PartialEq, Eq, Structural)]
pub struct Corners {
    pub a: Vector3,
    pub b: Vector3,
    pub c: Vector3,
    pub a_normal: Vector3,
    pub b_normal: Vector3,
    pub c_normal: Vector3,
    pub a_uv: Vector2,
    pub b_uv: Vector2,
    pub c_uv: Vector2,
}

/// One vertex of the vertex list of a mesh.
#[derive(Clone, Copy, Debug, PartialEq, Eq, Structural)]
pub struct Vertex {
    pub position: Vector3,
    pub normal: Vector3,
    pub tex_coords: Vector2,
}

/// The three scalars of vertex `v` in a flat array.
pub open spec fn vector3_at(data: Seq<Scalar>, v: int) -> Vector3 {
    Vector3 { x: data[3 * v], y: data[3 * v + 1], z: data[3 * v + 2] }
}

/// The two scalars of vertex `v` in a flat array.
pub open spec fn vector2_at(data: Seq<Scalar>, v: int) -> Vector2 {
    Vector2 { x: data[2 * v], y: data[2 * v + 1] }
}

fn fetch3(data: &Vec<Scalar>, v: usize) -> (out: Vector3)
    requires
        3 * v + 3 <= data.len(),
    ensures
        out == vector3_at(data@, v as int),
{
    Vector3 { x: data[3 * v], y: data[3 * v + 1], z: data[3 * v + 2] }
}

fn fetch2(data: &Vec<Scalar>, v: usize) -> (out: Vector2)
    requires
        2 * v + 2 <= data.len(),
    ensures
        out == vector2_at(data@, v as int),
{
    Vector2 { x: data[2 * v], y: data[2 * v + 1] }
}

impl Mesh {
    /// The number of complete triangles in the index list.
    pub open spec fn triangles(&self) -> nat {
        self.indices.len() as nat / 3
    }

    /// Whether vertex `v` has a position, a normal and a texture coordinate.
    pub open spec fn has_vertex(&self, v: int) -> bool {
        &&& 3 * v + 3 <= self.positions.len()
        &&& 3 * v + 3 <= self.normals.len()
        &&& 2 * v + 2 <= self.texcoords.len()
    }

    /// Whether every index used by a triangle is in range for all three
    /// attribute arrays. Indices after the last complete triangle are never
    /// used.
    pub open spec fn well_indexed(&self) -> bool {
        forall|k: int| 0 <= k < 3 * self.triangles() ==> self.has_vertex(#[trigger] self.indices@[k] as int)
    }

    /// The corners of triangle `t`.
    pub open spec fn corners_of(&self, t: int) -> Corners {
        let a = self.indices@[3 * t] as int;
        let b = self.indices@[3 * t + 1] as int;
        let c = self.indices@[3 * t + 2] as int;
        Corners {
            a: vector3_at(self.positions@, a),
            b: vector3_at(self.positions@, b),
            c: vector3_at(self.positions@, c),
            a_normal: vector3_at(self.normals@, a),
            b_normal: vector3_at(self.normals@, b),
            c_normal: vector3_at(self.normals@, c),
            a_uv: vector2_at(self.texcoords@, a),
            b_uv: vector2_at(self.texcoords@, b),
            c_uv: vector2_at(self.texcoords@, c),
        }
    }

    /// Whether the attribute arrays that are present describe as many
    /// vertices as `positions` does. An empty `normals` or `texcoords` means
    /// that the mesh has none.
    pub open spec fn attributes_agree(&self) -> bool {
        &&& self.normals.len() > 0 ==> self.positions.len() / 3 == self.normals.len() / 3
        &&& self.texcoords.len() > 0 ==> self.positions.len() / 3 == self.texcoords.len() / 2
    }

    /// The vertex that the vertex list holds at `v`: its position, and its
    /// normal and texture coordinate where the mesh has them, zeros where it
    /// has not.
    pub open spec fn vertex_of(&self, v: int) -> Vertex {
        Vertex {
            position: vector3_at(self.positions@, v),
            normal: if self.normals.len() > 0 {
                vector3_at(self.normals@, v)
            } else {
                Vector3::zero()
            },
            tex_coords: if self.texcoords.len() > 0 {
                vector2_at(self.texcoords@, v)
            } else {
                Vector2::zero()
            },
        }
    }

    pub fn triangle_count(&self) -> (n: usize)
        ensures
            n == self.triangles(),
    {
        self.indices.len() / 3
    }

    /// How many indices follow the last complete triangle: 0 in a proper
    /// triangle list, else the size of the malformed group that sampling
    /// skips.
    pub fn stray_indices(&self) -> (n: usize)
        ensures
            n == self.indices.len() % 3,
    {
        self.indices.len() % 3
    }

    fn vertex_in_range(&self, index: u32) -> (r: bool)
        ensures
            r == self.has_vertex(index as int),
    {
        let v: u64 = index as u64;
        3 * v + 3 <= self.positions.len() as u64 && 3 * v + 3 <= self.normals.len() as u64 && 2 * v
            + 2 <= self.texcoords.len() as u64
    }

    pub fn is_well_indexed(&self) -> (r: bool)
        ensures
            r == self.well_indexed(),
    {
        let used = 3 * self.triangle_count();
        let mut k: usize = 0;
        while k < used
            invariant
                used == 3 * self.triangles(),
                used <= self.indices.len(),
                k <= used,
                forall|j: int| 0 <= j < k ==> self.has_vertex(#[trigger] self.indices@[j] as int),
            decreases used - k,
        {
            if !self.vertex_in_range(self.indices[k]) {
                return false;
            }
            k += 1;
        }
        true
    }

    /// The corners of triangle `t`, fetched through the index list.
    pub fn corners(&self, t: usize) -> (corners: Corners)
        requires
            self.well_indexed(),
            t < self.triangles(),
        ensures
            corners == self.corners_of(t as int),
    {
        let ia = self.indices[3 * t];
        let ib = self.indices[3 * t + 1];
        let ic = self.indices[3 * t + 2];
        assert(self.has_vertex(self.indices@[3 * t] as int));
        assert(self.has_vertex(self.indices@[3 * t + 1] as int));
        assert(self.has_vertex(self.indices@[3 * t + 2] as int));
        let a = ia as usize;
        let b = ib as usize;
        let c = ic as usize;
        Corners {
            a: fetch3(&self.positions, a),
            b: fetch3(&self.positions, b),
            c: fetch3(&self.positions, c),
            a_normal: fetch3(&self.normals, a),
            b_normal: fetch3(&self.normals, b),
            c_normal: fetch3(&self.normals, c),
            a_uv: fetch2(&self.texcoords, a),
            b_uv: fetch2(&self.texcoords, b),
            c_uv: fetch2(&self.texcoords, c),
        }
    }

    pub fn has_agreeing_attributes(&self) -> (r: bool)
        ensures
            r == self.attributes_agree(),
    {
        let vertices = self.positions.len() / 3;
        (self.normals.len() == 0 || vertices == self.normals.len() / 3) && (self.texcoords.len()
            == 0 || vertices == self.texcoords.len() / 2)
    }
}

/// The contents of the two buffers that draw a mesh as triangles: one vertex
/// for every three scalars of `positions`, and the index list as it is.
pub fn gen_buffers(mesh: &Mesh) -> (buffers: (Vec<Vertex>, Vec<u32>))
    requires
        mesh.attributes_agree(),
    ensures
        buffers.0@.len() == mesh.positions.len() / 3,
        forall|v: int| 0 <= v < buffers.0@.len() ==> buffers.0@[v] == mesh.vertex_of(v),
        buffers.1@ == mesh.indices@,
{
    let n = mesh.positions.len() / 3;
    let has_normals = mesh.normals.len() > 0;
    let has_tex_coords = mesh.texcoords.len() > 0;
    let mut vertices: Vec<Vertex> = Vec::with_capacity(n);
    let mut v: usize = 0;
    while v < n
        invariant
            n == mesh.positions.len() / 3,
            has_normals == (mesh.normals.len() > 0),
            has_tex_coords == (mesh.texcoords.len() > 0),
            mesh.attributes_agree(),
            v <= n,
            vertices@.len() == v,
            forall|j: int| 0 <= j < v ==> vertices@[j] == mesh.vertex_of(j),
        decreases n - v,
    {
        let position = fetch3(&mesh.positions, v);
        let normal = if has_normals {
            fetch3(&mesh.normals, v)
        } else {
            Vector3::zero()
        };
        let tex_coords = if has_tex_coords {
            fetch2(&mesh.texcoords, v)
        } else {
            Vector2::zero()
        };
        vertices.push(Vertex { position, normal, tex_coords });
        v += 1;
    }
    let mut indices: Vec<u32> = Vec::with_capacity(mesh.indices.len());
    let mut k: usize = 0;
    while k < mesh.indices.len()
        invariant
            k <= mesh.indices.len(),
            indices@ == mesh.indices@.subrange(0, k as int),
        decreases mesh.indices.len() - k,
    {
        indices.push(mesh.indices[k]);
        proof {
            assert(indices@ =~= mesh.indices@.subrange(0, k + 1));
        }
        k += 1;
    }
    assert(indices@ =~= mesh.indices@);
    (vertices, indices)
}

} // verus!
