//! Drawing a triangle mesh with each face shaded by its slope.

use vstd::prelude::*;
use crate::draw::{textured_vertex, DebugDraw, DrawCall, Paint, Primitive, BITS_ONE};
use crate::scalar::{Axis, Scalar, Vec3};

verus! {

/// A triangle mesh with one normal for each face.
///
/// `tris` holds three vertex indices for each triangle. `normals` runs
/// parallel to `tris`: the normal of the triangle that starts at `tris[i]`
/// is `normals[i]`, and stands for all three of its corners.
#[derive(Debug)]
pub struct InputMesh {
    pub verts: Vec<Vec3>,
    pub tris: Vec<i32>,
    pub normals: Vec<Vec3>,
}

/// What an `InputMesh` holds, as mathematical values.
pub struct InputMeshView {
    pub verts: Seq<Vec3>,
    pub tris: Seq<i32>,
    pub normals: Seq<Vec3>,
}

impl View for InputMesh {
    type V = InputMeshView;

    open spec fn view(&self) -> InputMeshView {
        InputMeshView { verts: self.verts@, tris: self.tris@, normals: self.normals@ }
    }
}

/// The axis that follows `axis`, in the cycle x, y, z, x.
pub open spec fn axis_after(axis: Axis) -> Axis {
    match axis {
        Axis::X => Axis::Y,
        Axis::Y => Axis::Z,
        Axis::Z => Axis::X,
    }
}

/// The number of an axis: 0 for x, 1 for y, 2 for z.
pub open spec fn axis_number(axis: Axis) -> int {
    match axis {
        Axis::X => 0,
        Axis::Y => 1,
        Axis::Z => 2,
    }
}

/// The axis along which a normal is longest. It starts as x; y takes over
/// where the normal is strictly longer along y, and z where it is strictly
/// longer along z than along the axis held by then.
pub open spec fn dominant_axis(normal: Vec3) -> Axis {
    let first = if normal.y.abs_greater(normal.x) {
        Axis::Y
    } else {
        Axis::X
    };
    if normal.z.abs_greater(normal.component(first)) {
        Axis::Z
    } else {
        first
    }
}

/// Whether a face with this normal is too steep to walk on: its normal
/// rises less than the threshold, the cosine of the steepest walkable slope.
pub open spec fn is_steep(normal: Vec3, threshold: Scalar) -> bool {
    normal.y.less_than(threshold)
}

impl InputMeshView {
    /// Nothing is drawn of a mesh in which any of the three sequences is empty.
    pub open spec fn is_blank(self) -> bool {
        self.verts.len() == 0 || self.tris.len() == 0 || self.normals.len() == 0
    }

    /// Whether the mesh is stored as it promises: whole triangles, a normal
    /// slot for each index slot, and every index that of a vertex.
    pub open spec fn well_formed(self) -> bool {
        &&& self.normals.len() == self.tris.len()
        &&& self.tris.len() % 3 == 0
        &&& forall|k: int| 0 <= k < self.tris.len() ==> 0 <= #[trigger] self.tris[k] < self.verts.len()
    }

    /// How many triangles the mesh has.
    pub open spec fn triangle_count(self) -> int {
        self.tris.len() as int / 3
    }

    /// The paint of triangle `t`.
    pub open spec fn face_paint(self, t: int, threshold: Scalar) -> Paint {
        Paint::Slope { normal: (3 * t) as usize, steep: is_steep(self.normals[3 * t], threshold) }
    }

    /// The axis that gives the first texture coordinate of triangle `t`: the
    /// one after the axis along which its normal is longest.
    pub open spec fn face_u(self, t: int) -> Axis {
        axis_after(dominant_axis(self.normals[3 * t]))
    }

    /// The axis that gives the second texture coordinate of triangle `t`.
    pub open spec fn face_v(self, t: int) -> Axis {
        axis_after(self.face_u(t))
    }

    /// The calls for triangle `t`: its three corners.
    pub open spec fn face_calls(self, t: int, threshold: Scalar) -> Seq<DrawCall> {
        let paint = self.face_paint(t, threshold);
        let u = self.face_u(t);
        let v = self.face_v(t);
        seq![
            textured_vertex(self.tris[3 * t] as usize, paint, u, v),
            textured_vertex(self.tris[3 * t + 1] as usize, paint, u, v),
            textured_vertex(self.tris[3 * t + 2] as usize, paint, u, v),
        ]
    }

    /// The calls for the triangles below `n`, in order.
    pub open spec fn faces_pass(self, n: int, threshold: Scalar) -> Seq<DrawCall>
        decreases n,
    {
        if n <= 0 {
            Seq::empty()
        } else {
            self.faces_pass(n - 1, threshold) + self.face_calls(n - 1, threshold)
        }
    }

    /// Every call that drawing the mesh makes: none for a blank mesh, else
    /// one batch of triangles with texturing switched on around it.
    pub open spec fn draw_calls(self, threshold: Scalar) -> Seq<DrawCall> {
        if self.is_blank() {
            Seq::empty()
        } else {
            seq![DrawCall::Texture(true), slope_begin()] + self.faces_pass(
                self.triangle_count(),
                threshold,
            ) + seq![DrawCall::End, DrawCall::Texture(false)]
        }
    }
}

/// The call that opens the batch of triangles.
pub open spec fn slope_begin() -> DrawCall {
    DrawCall::Begin { prim: Primitive::Tris, size: Scalar { bits: BITS_ONE } }
}

/// A mesh without vertices makes no call at all.
pub proof fn law_no_vertices_no_calls(mesh: InputMeshView, threshold: Scalar)
    requires
        mesh.verts.len() == 0,
    ensures
        mesh.draw_calls(threshold) == Seq::<DrawCall>::empty(),
{
}

/// A face whose normal rises at least as much as the threshold is not
/// blended towards the unwalkable tint; one whose normal rises less is.
pub proof fn law_blend_follows_threshold(mesh: InputMeshView, t: int, threshold: Scalar)
    ensures
        mesh.normals[3 * t].y.at_least(threshold) ==> mesh.face_paint(t, threshold) == (Paint::Slope {
            normal: (3 * t) as usize,
            steep: false,
        }),
        mesh.normals[3 * t].y.less_than(threshold) ==> mesh.face_paint(t, threshold) == (Paint::Slope {
            normal: (3 * t) as usize,
            steep: true,
        }),
{
}

/// The two texture axes of a face are the two axes other than the one along
/// which its normal is longest, in cyclic order after it.
pub proof fn law_texture_axes_span_the_other_two(mesh: InputMeshView, t: int)
    ensures
        axis_number(mesh.face_u(t)) == (axis_number(dominant_axis(mesh.normals[3 * t])) + 1) % 3,
        axis_number(mesh.face_v(t)) == (axis_number(dominant_axis(mesh.normals[3 * t])) + 2) % 3,
        mesh.face_u(t) != dominant_axis(mesh.normals[3 * t]),
        mesh.face_v(t) != dominant_axis(mesh.normals[3 * t]),
        mesh.face_u(t) != mesh.face_v(t),
{
}

/// The axis that follows `axis` in the cycle x, y, z, x. It is found by
/// shifting one bit up by the axis's number and keeping the two low bits,
/// which on the three axes is the number plus one, modulo three.
pub fn next_axis(axis: Axis) -> (next: Axis)
    ensures
        next == axis_after(axis),
        axis_number(next) == (axis_number(axis) + 1) % 3,
{
    let number: u32 = match axis {
        Axis::X => 0,
        Axis::Y => 1,
        Axis::Z => 2,
    };
    assert(number < 3 ==> (1u32 << number) & 3 == (number + 1) % 3) by (bit_vector);
    let rotated: u32 = (1u32 << number) & 3;
    if rotated == 0 {
        Axis::X
    } else if rotated == 1 {
        Axis::Y
    } else {
        Axis::Z
    }
}

/// The axis along which a normal is longest.
pub fn longest_axis(normal: &Vec3) -> (axis: Axis)
    ensures
        axis == dominant_axis(*normal),
{
    let mut axis = Axis::X;
    if normal.y.abs_gt(normal.get(axis)) {
        axis = Axis::Y;
    }
    if normal.z.abs_gt(normal.get(axis)) {
        axis = Axis::Z;
    }
    axis
}

/// Whether a face with this normal is too steep to walk on.
pub fn face_is_steep(normal: &Vec3, threshold: Scalar) -> (steep: bool)
    ensures
        steep == is_steep(*normal, threshold),
{
    normal.y.lt(threshold)
}

impl InputMesh {
    /// A mesh that holds nothing.
    pub fn new() -> (mesh: InputMesh)
        ensures
            mesh@.verts.len() == 0,
            mesh@.tris.len() == 0,
            mesh@.normals.len() == 0,
            mesh@.well_formed(),
    {
        InputMesh { verts: Vec::new(), tris: Vec::new(), normals: Vec::new() }
    }

    /// Whether nothing is drawn of the mesh.
    pub fn is_blank(&self) -> (blank: bool)
        ensures
            blank == self@.is_blank(),
    {
        self.verts.len() == 0 || self.tris.len() == 0 || self.normals.len() == 0
    }

    /// Whether the mesh is stored as it promises.
    pub fn is_well_formed(&self) -> (ok: bool)
        ensures
            ok == self@.well_formed(),
    {
        if self.normals.len() != self.tris.len() || self.tris.len() % 3 != 0 {
            return false;
        }
        let nverts = self.verts.len();
        let mut k: usize = 0;
        while k < self.tris.len()
            invariant
                k <= self.tris@.len(),
                nverts == self.verts@.len(),
                forall|i: int| 0 <= i < k ==> 0 <= #[trigger] self.tris@[i] < nverts,
            decreases self.tris@.len() - k,
        {
            let index = self.tris[k];
            if index < 0 || index as usize >= nverts {
                return false;
            }
            k = k + 1;
        }
        true
    }
}

/// Draws a triangle mesh into `dd`, each face shaded by its slope. A blank
/// mesh makes no call. Otherwise texturing is switched on, one batch holds
/// the three corners of every triangle in turn, and texturing is switched
/// off again. A face is painted from its own normal, as steep where the
/// normal rises less than `walkable_thr`, the cosine of the steepest slope
/// that can be walked on; its texture coordinates come from the two axes
/// other than the one along which the normal is longest.
pub fn du_debug_draw_tri_mesh_slope<D: DebugDraw>(dd: &mut D, mesh: &InputMesh, walkable_thr: Scalar)
    requires
        mesh@.is_blank() || mesh@.well_formed(),
    ensures
        final(dd).trace() == old(dd).trace() + mesh@.draw_calls(walkable_thr),
{
    let ghost view = mesh@;
    if mesh.is_blank() {
        return ;
    }
    dd.texture(true);
    dd.begin(Primitive::Tris, Scalar { bits: BITS_ONE });
    let ghost batch_start = dd.trace();
    let ntris = mesh.tris.len();
    let mut i: usize = 0;
    while i < ntris
        invariant
            view == mesh@,
            view.well_formed(),
            ntris == mesh.tris@.len(),
            i <= ntris,
            i % 3 == 0,
            dd.trace() == batch_start + view.faces_pass(i as int / 3, walkable_thr),
        decreases ntris - i,
    {
        let normal = &mesh.normals[i];
        let paint = Paint::Slope { normal: i, steep: face_is_steep(normal, walkable_thr) };
        let u = next_axis(longest_axis(normal));
        let v = next_axis(u);
        let a = mesh.tris[i] as usize;
        let b = mesh.tris[i + 1] as usize;
        let c = mesh.tris[i + 2] as usize;
        dd.vertex_uv(a, paint, u, v);
        dd.vertex_uv(b, paint, u, v);
        dd.vertex_uv(c, paint, u, v);
        i = i + 3;
    }
    dd.end();
    dd.texture(false);
}

} // verus!
