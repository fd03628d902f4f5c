//! Drawing a polygon mesh: filled polygons, their boundaries, and the vertices.

use vstd::prelude::*;
use crate::draw::{plain_vertex, DebugDraw, DrawCall, Paint, Placement, Primitive};
use crate::draw::{BITS_LINE_WIDTH, BITS_ONE, BITS_POINT_SIZE};
use crate::scalar::{Scalar, Vec3};

verus! {

/// The area of polygons that cannot be walked on.
pub const RC_NULL_AREA: u8 = 0;

/// The area of ordinary walkable polygons.
pub const RC_WALKABLE_AREA: u8 = 63;

/// The index that stands for "no vertex": it pads a polygon's unused slots.
pub const RC_MESH_NULL_IDX: u16 = 0xffff;

/// A mesh of polygons over vertices on a cell grid.
#[derive(Debug)]
pub struct PolyMesh {
    /// Vertex positions, in grid cells.
    pub verts: Vec<Vec3>,
    /// For each polygon its vertex indices, padded with `RC_MESH_NULL_IDX`.
    pub polys: Vec<Vec<u16>>,
    /// For each polygon its area.
    pub areas: Vec<u8>,
    /// The greatest number of vertices a polygon may have.
    pub nvp: i32,
    /// The width of a grid cell, in world units.
    pub cs: Scalar,
    /// The height of a grid cell, in world units.
    pub ch: Scalar,
    /// The world position of the grid's origin.
    pub bmin: Vec3,
}

/// What a `PolyMesh` holds, as mathematical values.
pub struct PolyMeshView {
    pub verts: Seq<Vec3>,
    pub polys: Seq<Seq<u16>>,
    pub areas: Seq<u8>,
    pub nvp: int,
    pub cs: Scalar,
    pub ch: Scalar,
    pub bmin: Vec3,
}

impl View for PolyMesh {
    type V = PolyMeshView;

    open spec fn view(&self) -> PolyMeshView {
        PolyMeshView {
            verts: self.verts@,
            polys: Seq::new(self.polys@.len(), |p: int| self.polys@[p]@),
            areas: self.areas@,
            nvp: self.nvp as int,
            cs: self.cs,
            ch: self.ch,
            bmin: self.bmin,
        }
    }
}

/// The paint of a polygon of the given area.
pub open spec fn area_paint(area: u8) -> Paint {
    if area == RC_WALKABLE_AREA {
        Paint::Walkable
    } else if area == RC_NULL_AREA {
        Paint::Null
    } else {
        Paint::Area(area)
    }
}

/// How many of a polygon's slots a walk looks at: all that are stored, but at most `nvp`.
pub open spec fn slot_limit(poly: Seq<u16>, nvp: int) -> int {
    if nvp <= 0 {
        0
    } else if nvp < poly.len() {
        nvp
    } else {
        poly.len() as int
    }
}

/// Where a walk that starts at slot `from` stops: at the first slot that
/// holds the sentinel, or at `limit`.
pub open spec fn run_end(poly: Seq<u16>, limit: int, from: int) -> int
    decreases limit - from,
{
    if from >= limit || poly[from] == RC_MESH_NULL_IDX {
        from
    } else {
        run_end(poly, limit, from + 1)
    }
}

/// The calls for one polygon corner: the vertex, unless its index is out of range.
pub open spec fn corner_calls(nverts: int, index: u16, placement: Placement, paint: Paint) -> Seq<
    DrawCall,
> {
    if (index as int) < nverts {
        seq![plain_vertex(index as usize, placement, paint)]
    } else {
        Seq::empty()
    }
}

/// The calls for the fan triangle that ends at slot `j`: slots 0, `j - 1` and `j`.
pub open spec fn fan_step(nverts: int, poly: Seq<u16>, paint: Paint, j: int) -> Seq<DrawCall> {
    corner_calls(nverts, poly[0], Placement::Surface, paint) + corner_calls(
        nverts,
        poly[j - 1],
        Placement::Surface,
        paint,
    ) + corner_calls(nverts, poly[j], Placement::Surface, paint)
}

/// The calls for the fan triangles that end at the slots from 2 up to `end`, exclusive.
pub open spec fn fan_calls(nverts: int, poly: Seq<u16>, paint: Paint, end: int) -> Seq<DrawCall>
    decreases end,
{
    if end <= 2 {
        Seq::empty()
    } else {
        fan_calls(nverts, poly, paint, end - 1) + fan_step(nverts, poly, paint, end - 1)
    }
}

/// The slot that the boundary edge from slot `j` leads to: the next one, or
/// the first where the next is beyond the limit or holds the sentinel.
pub open spec fn next_slot(poly: Seq<u16>, limit: int, j: int) -> int {
    if j + 1 < limit && poly[j + 1] != RC_MESH_NULL_IDX {
        j + 1
    } else {
        0
    }
}

/// The calls for the boundary edge that starts at slot `j`.
pub open spec fn edge_step(nverts: int, poly: Seq<u16>, limit: int, j: int) -> Seq<DrawCall> {
    corner_calls(nverts, poly[j], Placement::Overlay, Paint::Boundary) + corner_calls(
        nverts,
        poly[next_slot(poly, limit, j)],
        Placement::Overlay,
        Paint::Boundary,
    )
}

/// The calls for the boundary edges that start at the slots below `end`.
pub open spec fn ring_calls(nverts: int, poly: Seq<u16>, limit: int, end: int) -> Seq<DrawCall>
    decreases end,
{
    if end <= 0 {
        Seq::empty()
    } else {
        ring_calls(nverts, poly, limit, end - 1) + edge_step(nverts, poly, limit, end - 1)
    }
}

/// The fill of one polygon: its fan triangles, in the polygon's paint.
pub open spec fn polygon_fill(nverts: int, poly: Seq<u16>, nvp: int, paint: Paint) -> Seq<DrawCall> {
    fan_calls(nverts, poly, paint, run_end(poly, slot_limit(poly, nvp), 2))
}

/// The boundary of one polygon: an edge from each slot of its leading run.
pub open spec fn polygon_boundary(nverts: int, poly: Seq<u16>, nvp: int) -> Seq<DrawCall> {
    let limit = slot_limit(poly, nvp);
    ring_calls(nverts, poly, limit, run_end(poly, limit, 0))
}

/// The mesh vertices below `n`, each as a point.
pub open spec fn point_calls(n: int) -> Seq<DrawCall> {
    Seq::new(n as nat, |i: int| plain_vertex(i as usize, Placement::Overlay, Paint::Point))
}

/// The call that opens the fill batch.
pub open spec fn fill_begin() -> DrawCall {
    DrawCall::Begin { prim: Primitive::Quads, size: Scalar { bits: BITS_ONE } }
}

/// The call that opens the boundary batch.
pub open spec fn boundary_begin() -> DrawCall {
    DrawCall::Begin { prim: Primitive::Lines, size: Scalar { bits: BITS_LINE_WIDTH } }
}

/// The call that opens the vertex batch.
pub open spec fn point_begin() -> DrawCall {
    DrawCall::Begin { prim: Primitive::Points, size: Scalar { bits: BITS_POINT_SIZE } }
}

impl PolyMeshView {
    /// The fill of polygon `p`.
    pub open spec fn fill_of(self, p: int) -> Seq<DrawCall> {
        polygon_fill(self.verts.len() as int, self.polys[p], self.nvp, area_paint(self.areas[p]))
    }

    /// The fills of the polygons below `n`, in order.
    pub open spec fn fill_pass(self, n: int) -> Seq<DrawCall>
        decreases n,
    {
        if n <= 0 {
            Seq::empty()
        } else {
            self.fill_pass(n - 1) + self.fill_of(n - 1)
        }
    }

    /// The boundary of polygon `p`.
    pub open spec fn boundary_of(self, p: int) -> Seq<DrawCall> {
        polygon_boundary(self.verts.len() as int, self.polys[p], self.nvp)
    }

    /// The boundaries of the polygons below `n`, in order.
    pub open spec fn boundary_pass(self, n: int) -> Seq<DrawCall>
        decreases n,
    {
        if n <= 0 {
            Seq::empty()
        } else {
            self.boundary_pass(n - 1) + self.boundary_of(n - 1)
        }
    }

    /// How many vertices polygon `p` has: the length of its leading run of
    /// slots that hold no sentinel.
    pub open spec fn corner_count(self, p: int) -> int {
        run_end(self.polys[p], slot_limit(self.polys[p], self.nvp), 0)
    }

    /// Every call that drawing the mesh makes: the fill batch, the boundary
    /// batch and the vertex batch.
    pub open spec fn draw_calls(self) -> Seq<DrawCall> {
        seq![fill_begin()] + self.fill_pass(self.polys.len() as int) + seq![
            DrawCall::End,
            boundary_begin(),
        ] + self.boundary_pass(self.polys.len() as int) + seq![DrawCall::End, point_begin()]
            + point_calls(self.verts.len() as int) + seq![DrawCall::End]
    }

    /// Whether polygon `p` is stored as the mesh promises: within `nvp`
    /// slots, each the sentinel or the index of a vertex, and nothing but
    /// sentinels after the first sentinel.
    pub open spec fn polygon_well_formed(self, p: int) -> bool {
        let poly = self.polys[p];
        &&& poly.len() <= self.nvp
        &&& forall|j: int|
            0 <= j < poly.len() ==> poly[j] == RC_MESH_NULL_IDX || (#[trigger] poly[j])
                < self.verts.len()
        &&& forall|i: int, j: int|
            0 <= i < j < poly.len() && poly[i] == RC_MESH_NULL_IDX ==> #[trigger] poly[j]
                == #[trigger] poly[i]
    }

    /// Whether the mesh is stored as it promises: one area for each polygon,
    /// and every polygon well formed.
    pub open spec fn well_formed(self) -> bool {
        &&& self.areas.len() == self.polys.len()
        &&& forall|p: int| 0 <= p < self.polys.len() ==> #[trigger] self.polygon_well_formed(p)
    }
}

/// Whether the first `k` slots of `poly` are its vertices: each of them the
/// index of a vertex, and every later slot below `limit` the sentinel.
pub open spec fn is_ring(nverts: int, poly: Seq<u16>, limit: int, k: int) -> bool {
    &&& 0 <= k <= limit <= poly.len()
    &&& forall|j: int| 0 <= j < k ==> (#[trigger] poly[j]) < nverts && poly[j] != RC_MESH_NULL_IDX
    &&& forall|j: int| k <= j < limit ==> #[trigger] poly[j] == RC_MESH_NULL_IDX
}

/// The polygon slot of the `i`-th vertex of a fan: slot 0 opens each
/// triangle, and triangle `t` goes on to the slots `t + 1` and `t + 2`.
pub open spec fn fan_slot(i: int) -> int {
    if i % 3 == 0 {
        0
    } else {
        i / 3 + i % 3
    }
}

/// The slot that edge `e` of a boundary of `k` edges leads to: the next
/// slot, and for the last edge slot 0 again.
pub open spec fn edge_target(e: int, k: int) -> int {
    if e + 1 < k {
        e + 1
    } else {
        0
    }
}

/// The polygon slot of the `i`-th vertex of a boundary of `k` edges: edge `e`
/// is the vertices `2 * e` and `2 * e + 1`, and leads from slot `e` to its target.
pub open spec fn ring_slot(i: int, k: int) -> int {
    if i % 2 == 0 {
        i / 2
    } else {
        edge_target(i / 2, k)
    }
}

/// The number of triangles in the fan of a polygon of `k` vertices.
pub open spec fn fan_triangles(k: int) -> int {
    if k <= 2 {
        0
    } else {
        k - 2
    }
}

proof fn lemma_run_end_of_ring(nverts: int, poly: Seq<u16>, limit: int, k: int, from: int)
    requires
        is_ring(nverts, poly, limit, k),
        0 <= from,
    ensures
        run_end(poly, limit, from) == if from <= k {
            k
        } else {
            from
        },
    decreases limit - from,
{
    if from < limit && poly[from] != RC_MESH_NULL_IDX {
        lemma_run_end_of_ring(nverts, poly, limit, k, from + 1);
    }
}

proof fn lemma_fan_of_ring(nverts: int, poly: Seq<u16>, limit: int, k: int, paint: Paint, end: int)
    requires
        is_ring(nverts, poly, limit, k),
        2 <= end,
        end <= k || end == 2,
    ensures
        fan_calls(nverts, poly, paint, end) == Seq::new(
            (3 * (end - 2)) as nat,
            |i: int| plain_vertex(poly[fan_slot(i)] as usize, Placement::Surface, paint),
        ),
    decreases end,
{
    if end > 2 {
        lemma_fan_of_ring(nverts, poly, limit, k, paint, end - 1);
    }
}

proof fn lemma_ring_of_ring(nverts: int, poly: Seq<u16>, limit: int, k: int, end: int)
    requires
        is_ring(nverts, poly, limit, k),
        0 <= end <= k,
    ensures
        ring_calls(nverts, poly, limit, end) == Seq::new(
            (2 * end) as nat,
            |i: int| plain_vertex(poly[ring_slot(i, k)] as usize, Placement::Overlay, Paint::Boundary),
        ),
    decreases end,
{
    if end > 0 {
        lemma_ring_of_ring(nverts, poly, limit, k, end - 1);
    }
}

/// A polygon of `k` vertices is filled by the `k - 2` triangles of its fan,
/// none where `k` is under 3: three vertices each, in the polygon's paint,
/// triangle `t` over the slots 0, `t + 1` and `t + 2`.
pub proof fn law_fill_is_fan(nverts: int, poly: Seq<u16>, nvp: int, paint: Paint, k: int)
    requires
        is_ring(nverts, poly, slot_limit(poly, nvp), k),
    ensures
        polygon_fill(nverts, poly, nvp, paint).len() == 3 * fan_triangles(k),
        polygon_fill(nverts, poly, nvp, paint) == Seq::new(
            (3 * fan_triangles(k)) as nat,
            |i: int| plain_vertex(poly[fan_slot(i)] as usize, Placement::Surface, paint),
        ),
{
    let limit = slot_limit(poly, nvp);
    lemma_run_end_of_ring(nverts, poly, limit, k, 2);
    let end = run_end(poly, limit, 2);
    lemma_fan_of_ring(nverts, poly, limit, k, paint, end);
}

/// The boundary of a polygon of `k` vertices is `k` edges that close a loop:
/// edge `e` leads from slot `e` to slot `e + 1`, the last one back to slot 0.
pub proof fn law_boundary_is_closed_loop(nverts: int, poly: Seq<u16>, nvp: int, k: int)
    requires
        is_ring(nverts, poly, slot_limit(poly, nvp), k),
    ensures
        polygon_boundary(nverts, poly, nvp).len() == 2 * k,
        polygon_boundary(nverts, poly, nvp) == Seq::new(
            (2 * k) as nat,
            |i: int| plain_vertex(poly[ring_slot(i, k)] as usize, Placement::Overlay, Paint::Boundary),
        ),
{
    let limit = slot_limit(poly, nvp);
    lemma_run_end_of_ring(nverts, poly, limit, k, 0);
    lemma_ring_of_ring(nverts, poly, limit, k, k);
}

/// A well-formed polygon has its vertices in a leading run of slots, whose
/// length is where a walk from slot 0 stops.
pub proof fn law_well_formed_polygon_is_ring(mesh: PolyMeshView, p: int)
    requires
        0 <= p < mesh.polys.len(),
        mesh.polygon_well_formed(p),
    ensures
        is_ring(
            mesh.verts.len() as int,
            mesh.polys[p],
            slot_limit(mesh.polys[p], mesh.nvp),
            run_end(mesh.polys[p], slot_limit(mesh.polys[p], mesh.nvp), 0),
        ),
{
    let poly = mesh.polys[p];
    let limit = slot_limit(poly, mesh.nvp);
    lemma_run_end_bounds(poly, limit, 0);
}

proof fn lemma_run_end_bounds(poly: Seq<u16>, limit: int, from: int)
    requires
        0 <= from <= limit <= poly.len(),
    ensures
        from <= run_end(poly, limit, from) <= limit,
        forall|j: int| from <= j < run_end(poly, limit, from) ==> #[trigger] poly[j] != RC_MESH_NULL_IDX,
        run_end(poly, limit, from) < limit ==> poly[run_end(poly, limit, from)] == RC_MESH_NULL_IDX,
    decreases limit - from,
{
    if from < limit && poly[from] != RC_MESH_NULL_IDX {
        lemma_run_end_bounds(poly, limit, from + 1);
    }
}

/// In a well-formed mesh a polygon of `k` vertices is filled by the `k - 2`
/// triangles of its fan, none where `k` is under 3, and bounded by `k` edges;
/// `k` is where a walk over its slots from the first one stops.
pub proof fn law_well_formed_polygon_counts(mesh: PolyMeshView, p: int)
    requires
        mesh.well_formed(),
        0 <= p < mesh.polys.len(),
    ensures
        mesh.fill_of(p).len() == 3 * fan_triangles(mesh.corner_count(p)),
        mesh.boundary_of(p).len() == 2 * mesh.corner_count(p),
        0 <= mesh.corner_count(p) <= mesh.polys[p].len(),
{
    let poly = mesh.polys[p];
    let k = mesh.corner_count(p);
    law_well_formed_polygon_is_ring(mesh, p);
    law_fill_is_fan(mesh.verts.len() as int, poly, mesh.nvp, area_paint(mesh.areas[p]), k);
    law_boundary_is_closed_loop(mesh.verts.len() as int, poly, mesh.nvp, k);
}

/// The area decides the paint: the walkable area gives the fixed walkable
/// colour, the null area the fixed null colour, and every other area is
/// handed to the consumer's lookup and to neither fixed colour.
pub proof fn law_area_paint(area: u8)
    ensures
        area == RC_WALKABLE_AREA ==> area_paint(area) == Paint::Walkable && area_paint(
            area,
        ).fixed_rgba() == Some(crate::draw::walkable_rgba()),
        area == RC_NULL_AREA ==> area_paint(area) == Paint::Null && area_paint(area).fixed_rgba()
            == Some(crate::draw::null_rgba()),
        area != RC_WALKABLE_AREA && area != RC_NULL_AREA ==> area_paint(area) == Paint::Area(area)
            && area_paint(area) != Paint::Walkable && area_paint(area) != Paint::Null
            && area_paint(area).fixed_rgba() is None,
{
}

/// The paint of a polygon of the given area.
pub fn paint_of_area(area: u8) -> (paint: Paint)
    ensures
        paint == area_paint(area),
{
    if area == RC_WALKABLE_AREA {
        Paint::Walkable
    } else if area == RC_NULL_AREA {
        Paint::Null
    } else {
        Paint::Area(area)
    }
}

/// How many of a polygon's slots a walk looks at.
fn walk_limit(poly: &Vec<u16>, nvp: i32) -> (limit: usize)
    ensures
        limit == slot_limit(poly@, nvp as int),
        limit <= poly@.len(),
{
    if nvp <= 0 {
        0
    } else if (nvp as usize) < poly.len() {
        nvp as usize
    } else {
        poly.len()
    }
}

/// Hands over one polygon corner, unless its index is out of range.
fn draw_corner<D: DebugDraw>(
    dd: &mut D,
    nverts: usize,
    index: u16,
    placement: Placement,
    paint: Paint,
)
    ensures
        final(dd).trace() == old(dd).trace() + corner_calls(nverts as int, index, placement, paint),
{
    if (index as usize) < nverts {
        dd.vertex(index as usize, placement, paint);
    }
}

/// Fills one polygon, as a fan of triangles around its first vertex.
fn draw_polygon_fill<D: DebugDraw>(dd: &mut D, nverts: usize, poly: &Vec<u16>, nvp: i32, paint: Paint)
    ensures
        final(dd).trace() == old(dd).trace() + polygon_fill(
            nverts as int,
            poly@,
            nvp as int,
            paint,
        ),
{
    let limit = walk_limit(poly, nvp);
    let ghost start = dd.trace();
    let mut j: usize = 2;
    while j < limit && poly[j] != RC_MESH_NULL_IDX
        invariant
            2 <= j,
            limit <= poly@.len(),
            limit == slot_limit(poly@, nvp as int),
            dd.trace() == start + fan_calls(nverts as int, poly@, paint, j as int),
            run_end(poly@, limit as int, j as int) == run_end(poly@, limit as int, 2),
        decreases limit - j,
    {
        draw_corner(dd, nverts, poly[0], Placement::Surface, paint);
        draw_corner(dd, nverts, poly[j - 1], Placement::Surface, paint);
        draw_corner(dd, nverts, poly[j], Placement::Surface, paint);
        j = j + 1;
    }
}

/// Draws the boundary of one polygon, an edge from each vertex to the next.
fn draw_polygon_boundary<D: DebugDraw>(dd: &mut D, nverts: usize, poly: &Vec<u16>, nvp: i32)
    ensures
        final(dd).trace() == old(dd).trace() + polygon_boundary(nverts as int, poly@, nvp as int),
{
    let limit = walk_limit(poly, nvp);
    let ghost start = dd.trace();
    let mut j: usize = 0;
    while j < limit && poly[j] != RC_MESH_NULL_IDX
        invariant
            limit <= poly@.len(),
            limit == slot_limit(poly@, nvp as int),
            dd.trace() == start + ring_calls(nverts as int, poly@, limit as int, j as int),
            run_end(poly@, limit as int, j as int) == run_end(poly@, limit as int, 0),
        decreases limit - j,
    {
        let next: usize = if j + 1 < limit && poly[j + 1] != RC_MESH_NULL_IDX {
            j + 1
        } else {
            0
        };
        draw_corner(dd, nverts, poly[j], Placement::Overlay, Paint::Boundary);
        draw_corner(dd, nverts, poly[next], Placement::Overlay, Paint::Boundary);
        j = j + 1;
    }
}

impl PolyMesh {
    /// Whether polygon `p` is stored as the mesh promises.
    pub fn polygon_is_well_formed(&self, p: usize) -> (ok: bool)
        requires
            p < self@.polys.len(),
        ensures
            ok == self@.polygon_well_formed(p as int),
    {
        let poly = &self.polys[p];
        let ghost slots = poly@;
        let len = poly.len();
        if self.nvp < 0 || len > self.nvp as usize {
            return false;
        }
        let nverts = self.verts.len();
        let mut padded = false;
        let mut j: usize = 0;
        while j < len
            invariant
                j <= len,
                len == slots.len(),
                slots == poly@,
                p < self@.polys.len(),
                slots == self@.polys[p as int],
                nverts == self.verts@.len(),
                forall|i: int| 0 <= i < j ==> slots[i] == RC_MESH_NULL_IDX || (#[trigger] slots[i]) < nverts,
                forall|a: int, b: int|
                    0 <= a < b < j && slots[a] == RC_MESH_NULL_IDX ==> #[trigger] slots[b]
                        == #[trigger] slots[a],
                padded ==> j > 0 && slots[j - 1] == RC_MESH_NULL_IDX,
                !padded ==> forall|i: int| 0 <= i < j ==> #[trigger] slots[i] != RC_MESH_NULL_IDX,
            decreases len - j,
        {
            let index = poly[j];
            if index == RC_MESH_NULL_IDX {
                padded = true;
            } else {
                if padded {
                    return false;
                }
                if index as usize >= nverts {
                    return false;
                }
            }
            j = j + 1;
        }
        true
    }

    /// Whether the mesh is stored as it promises.
    pub fn is_well_formed(&self) -> (ok: bool)
        ensures
            ok == self@.well_formed(),
    {
        if self.areas.len() != self.polys.len() {
            return false;
        }
        let mut p: usize = 0;
        while p < self.polys.len()
            invariant
                p <= self.polys@.len(),
                self@.areas.len() == self@.polys.len(),
                forall|q: int| 0 <= q < p ==> #[trigger] self@.polygon_well_formed(q),
            decreases self.polys@.len() - p,
        {
            if !self.polygon_is_well_formed(p) {
                return false;
            }
            p = p + 1;
        }
        true
    }
}

/// Draws a polygon mesh into `dd`: first every polygon filled, in the paint
/// of its area; then every polygon's boundary; then every vertex as a point.
/// A polygon corner whose index names no vertex is passed over.
pub fn du_debug_draw_poly_mesh<D: DebugDraw>(dd: &mut D, mesh: &PolyMesh)
    requires
        mesh@.areas.len() == mesh@.polys.len(),
    ensures
        final(dd).trace() == old(dd).trace() + mesh@.draw_calls(),
{
    let ghost view = mesh@;
    let nverts = mesh.verts.len();
    let npolys = mesh.polys.len();

    dd.begin(Primitive::Quads, Scalar { bits: BITS_ONE });
    let ghost fill_start = dd.trace();
    let mut p: usize = 0;
    while p < npolys
        invariant
            p <= npolys,
            npolys == mesh.polys@.len(),
            nverts == mesh.verts@.len(),
            view == mesh@,
            view.areas.len() == view.polys.len(),
            dd.trace() == fill_start + view.fill_pass(p as int),
        decreases npolys - p,
    {
        let paint = paint_of_area(mesh.areas[p]);
        draw_polygon_fill(dd, nverts, &mesh.polys[p], mesh.nvp, paint);
        p = p + 1;
    }
    dd.end();

    dd.begin(Primitive::Lines, Scalar { bits: BITS_LINE_WIDTH });
    let ghost boundary_start = dd.trace();
    let mut p: usize = 0;
    while p < npolys
        invariant
            p <= npolys,
            npolys == mesh.polys@.len(),
            nverts == mesh.verts@.len(),
            view == mesh@,
            dd.trace() == boundary_start + view.boundary_pass(p as int),
        decreases npolys - p,
    {
        draw_polygon_boundary(dd, nverts, &mesh.polys[p], mesh.nvp);
        p = p + 1;
    }
    dd.end();

    dd.begin(Primitive::Points, Scalar { bits: BITS_POINT_SIZE });
    let ghost point_start = dd.trace();
    let mut i: usize = 0;
    while i < nverts
        invariant
            i <= nverts,
            dd.trace() == point_start + point_calls(i as int),
        decreases nverts - i,
    {
        dd.vertex(i, Placement::Overlay, Paint::Point);
        i = i + 1;
    }
    dd.end();

}

} // verus!
