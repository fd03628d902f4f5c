//! The drawing protocol: what a mesh walker tells a sink, call by call.
//!
//! A walker brackets each batch of primitives of one kind between `begin`
//! and `end` and hands the vertices over one at a time. A vertex is named by
//! its index in the mesh that is being drawn, together with how it is to be
//! placed and painted; turning that into coordinates and colour values is
//! arithmetic on the scalars, which is left to the consumer of the calls.

use vstd::prelude::*;
use crate::scalar::{Axis, Scalar};

verus! {

/// Bit pattern of 0.0.
pub const BITS_ZERO: u32 = 0x0000_0000;

/// Bit pattern of 0.1.
pub const BITS_TENTH: u32 = 0x3dcc_cccd;

/// Bit pattern of 0.25.
pub const BITS_QUARTER: u32 = 0x3e80_0000;

/// Bit pattern of 64/255.
pub const BITS_BLEND: u32 = 0x3e80_8081;

/// Bit pattern of 0.5.
pub const BITS_HALF: u32 = 0x3f00_0000;

/// Bit pattern of 0.75.
pub const BITS_THREE_QUARTERS: u32 = 0x3f40_0000;

/// Bit pattern of 0.86.
pub const BITS_OPAQUE_INK: u32 = 0x3f5c_28f6;

/// Bit pattern of 1.0.
pub const BITS_ONE: u32 = 0x3f80_0000;

/// Bit pattern of 2.5.
pub const BITS_LINE_WIDTH: u32 = 0x4020_0000;

/// Bit pattern of 3.0.
pub const BITS_POINT_SIZE: u32 = 0x4040_0000;

/// The kind of primitive that a batch holds.
#[derive(Clone, Copy, Debug, PartialEq, Eq, Structural)]
pub enum Primitive {
    Quads,
    Lines,
    Points,
    Tris,
}

/// How a mesh vertex becomes a position.
#[derive(Clone, Copy, Debug, PartialEq, Eq, Structural)]
pub enum Placement {
    /// The vertex is a world position already.
    World,
    /// Grid to world: `bmin + (x, z) * cell size` on the plane, and in height
    /// `bmin.y + (y + 1) * cell height`, one cell above the floor.
    Surface,
    /// As `Surface`, and a further 0.1 world units up, above the filled surface.
    Overlay,
}

/// How a vertex is coloured.
#[derive(Clone, Copy, Debug, PartialEq, Eq, Structural)]
pub enum Paint {
    /// The fixed colour of walkable polygons.
    Walkable,
    /// The fixed colour of polygons of the null area.
    Null,
    /// The colour that the consumer's own lookup gives for this area.
    Area(u8),
    /// The fixed colour of polygon boundaries.
    Boundary,
    /// The fixed colour of mesh vertices drawn as points.
    Point,
    /// A grey whose brightness follows the normal at index `normal` of the
    /// mesh's normals, blended towards the unwalkable tint when `steep`.
    Slope { normal: usize, steep: bool },
}

/// The texture coordinates of a vertex.
#[derive(Clone, Copy, Debug, PartialEq, Eq, Structural)]
pub enum Projection {
    /// None are given.
    Flat,
    /// The vertex's components along `u` and `v`, each times the texture scale.
    Planar { u: Axis, v: Axis },
}

/// One vertex as it is handed to a sink.
#[derive(Clone, Copy, Debug, PartialEq, Eq, Structural)]
pub struct Corner {
    /// Index of the vertex in the mesh.
    pub vertex: usize,
    pub placement: Placement,
    pub paint: Paint,
    pub projection: Projection,
}

/// One call of the protocol.
#[derive(Clone, Copy, Debug, PartialEq, Eq, Structural)]
pub enum DrawCall {
    Texture(bool),
    Begin { prim: Primitive, size: Scalar },
    Vertex(Corner),
    End,
}

/// A colour: red, green, blue and opacity, each between 0 and 1.
#[derive(Clone, Copy, Debug, PartialEq, Eq, Structural)]
pub struct Rgba {
    pub r: Scalar,
    pub g: Scalar,
    pub b: Scalar,
    pub a: Scalar,
}

/// The colour with the given bit patterns as channels.
pub open spec fn rgba_of(r: u32, g: u32, b: u32, a: u32) -> Rgba {
    Rgba { r: Scalar { bits: r }, g: Scalar { bits: g }, b: Scalar { bits: b }, a: Scalar { bits: a } }
}

/// Translucent cyan: (0, 0.75, 1, 0.25).
pub open spec fn walkable_rgba() -> Rgba {
    rgba_of(BITS_ZERO, BITS_THREE_QUARTERS, BITS_ONE, BITS_QUARTER)
}

/// Translucent black: (0, 0, 0, 0.25).
pub open spec fn null_rgba() -> Rgba {
    rgba_of(BITS_ZERO, BITS_ZERO, BITS_ZERO, BITS_QUARTER)
}

/// Dark teal: (0, 0.25, 0.25, 0.86).
pub open spec fn boundary_rgba() -> Rgba {
    rgba_of(BITS_ZERO, BITS_QUARTER, BITS_QUARTER, BITS_OPAQUE_INK)
}

/// Near-opaque black: (0, 0, 0, 0.86).
pub open spec fn point_rgba() -> Rgba {
    rgba_of(BITS_ZERO, BITS_ZERO, BITS_ZERO, BITS_OPAQUE_INK)
}

/// Amber: (0.75, 0.5, 0, 1), the tint of faces too steep to walk on.
pub open spec fn unwalkable_rgba() -> Rgba {
    rgba_of(BITS_THREE_QUARTERS, BITS_HALF, BITS_ZERO, BITS_ONE)
}

impl Primitive {
    /// How many vertices make one primitive of this kind.
    pub open spec fn arity(self) -> int {
        match self {
            Primitive::Quads => 4,
            Primitive::Lines => 2,
            Primitive::Points => 1,
            Primitive::Tris => 3,
        }
    }

    /// How many vertices make one primitive of this kind.
    pub fn vertices_per_primitive(&self) -> (n: usize)
        ensures
            n == self.arity(),
    {
        match self {
            Primitive::Quads => 4,
            Primitive::Lines => 2,
            Primitive::Points => 1,
            Primitive::Tris => 3,
        }
    }
}

impl Paint {
    /// The colour of a paint that is fixed; `None` for one that the consumer
    /// resolves from the area or computes from a normal.
    pub open spec fn fixed_rgba(self) -> Option<Rgba> {
        match self {
            Paint::Walkable => Some(walkable_rgba()),
            Paint::Null => Some(null_rgba()),
            Paint::Boundary => Some(boundary_rgba()),
            Paint::Point => Some(point_rgba()),
            Paint::Area(_) => None,
            Paint::Slope { .. } => None,
        }
    }

    /// The colour of a paint that is fixed.
    pub fn rgba(&self) -> (c: Option<Rgba>)
        ensures
            c == self.fixed_rgba(),
    {
        match self {
            Paint::Walkable => Some(make_rgba(BITS_ZERO, BITS_THREE_QUARTERS, BITS_ONE, BITS_QUARTER)),
            Paint::Null => Some(make_rgba(BITS_ZERO, BITS_ZERO, BITS_ZERO, BITS_QUARTER)),
            Paint::Boundary => Some(make_rgba(BITS_ZERO, BITS_QUARTER, BITS_QUARTER, BITS_OPAQUE_INK)),
            Paint::Point => Some(make_rgba(BITS_ZERO, BITS_ZERO, BITS_ZERO, BITS_OPAQUE_INK)),
            Paint::Area(_) => None,
            Paint::Slope { .. } => None,
        }
    }
}

/// The colour with the given bit patterns as channels.
pub fn make_rgba(r: u32, g: u32, b: u32, a: u32) -> (c: Rgba)
    ensures
        c == rgba_of(r, g, b, a),
{
    Rgba { r: Scalar { bits: r }, g: Scalar { bits: g }, b: Scalar { bits: b }, a: Scalar { bits: a } }
}

/// The tint that steep faces are blended towards.
pub fn unwalkable_tint() -> (c: Rgba)
    ensures
        c == unwalkable_rgba(),
{
    make_rgba(BITS_THREE_QUARTERS, BITS_HALF, BITS_ZERO, BITS_ONE)
}

/// How far a steep face is blended towards the tint: 64/255.
pub fn unwalkable_blend() -> (t: Scalar)
    ensures
        t.bits == BITS_BLEND,
{
    Scalar { bits: BITS_BLEND }
}

/// The extra height of `Placement::Overlay`, in world units: 0.1.
pub fn overlay_offset() -> (h: Scalar)
    ensures
        h.bits == BITS_TENTH,
{
    Scalar { bits: BITS_TENTH }
}

/// The call that hands over an untextured vertex.
pub open spec fn plain_vertex(vertex: usize, placement: Placement, paint: Paint) -> DrawCall {
    DrawCall::Vertex(Corner { vertex, placement, paint, projection: Projection::Flat })
}

/// The call that hands over a vertex with texture coordinates.
pub open spec fn textured_vertex(vertex: usize, paint: Paint, u: Axis, v: Axis) -> DrawCall {
    DrawCall::Vertex(
        Corner { vertex, placement: Placement::World, paint, projection: Projection::Planar { u, v } },
    )
}

/// One assembled primitive: the vertices of one quad, line, point or triangle.
#[derive(Debug)]
pub struct Shape {
    pub prim: Primitive,
    /// The line or point size of the batch that the primitive came in.
    pub size: Scalar,
    /// Whether texturing was switched on when the primitive was completed.
    pub textured: bool,
    pub corners: Vec<Corner>,
}

/// What a `Shape` holds, as mathematical values.
pub struct ShapeView {
    pub prim: Primitive,
    pub size: Scalar,
    pub textured: bool,
    pub corners: Seq<Corner>,
}

impl View for Shape {
    type V = ShapeView;

    open spec fn view(&self) -> ShapeView {
        ShapeView { prim: self.prim, size: self.size, textured: self.textured, corners: self.corners@ }
    }
}

/// What a sink that assembles primitives has in hand after some calls.
pub struct Assembly {
    /// Whether texturing is switched on.
    pub textured: bool,
    /// Whether a batch is open.
    pub open: bool,
    /// The kind of the open batch, or of the last one.
    pub prim: Primitive,
    /// The size of the open batch, or of the last one.
    pub size: Scalar,
    /// The vertices received towards the next primitive.
    pub pending: Seq<Corner>,
    /// The primitives completed so far.
    pub shapes: Seq<ShapeView>,
}

/// What a sink has in hand before any call.
pub open spec fn assembly_start() -> Assembly {
    Assembly {
        textured: false,
        open: false,
        prim: Primitive::Points,
        size: Scalar { bits: BITS_ZERO },
        pending: Seq::empty(),
        shapes: Seq::empty(),
    }
}

/// What a sink has in hand after one more call. `begin` opens a batch and
/// `end` closes it, and either drops the vertices of a primitive that was
/// not completed. A vertex inside a batch is kept until there are as many
/// as a primitive of the batch's kind has, which then make a primitive; a
/// vertex outside a batch is dropped.
pub open spec fn assembly_step(a: Assembly, call: DrawCall) -> Assembly {
    match call {
        DrawCall::Texture(state) => Assembly { textured: state, ..a },
        DrawCall::Begin { prim, size } => Assembly {
            open: true,
            prim,
            size,
            pending: Seq::empty(),
            ..a
        },
        DrawCall::End => Assembly { open: false, pending: Seq::empty(), ..a },
        DrawCall::Vertex(corner) => if !a.open {
            a
        } else if a.pending.len() + 1 == a.prim.arity() {
            Assembly {
                pending: Seq::empty(),
                shapes: a.shapes.push(
                    ShapeView {
                        prim: a.prim,
                        size: a.size,
                        textured: a.textured,
                        corners: a.pending.push(corner),
                    },
                ),
                ..a
            }
        } else {
            Assembly { pending: a.pending.push(corner), ..a }
        },
    }
}

/// What a sink has in hand after the given calls.
pub open spec fn assemble(calls: Seq<DrawCall>) -> Assembly
    decreases calls.len(),
{
    if calls.len() == 0 {
        assembly_start()
    } else {
        assembly_step(assemble(calls.drop_last()), calls.last())
    }
}

/// The primitives that the given calls make.
pub open spec fn shapes_of(calls: Seq<DrawCall>) -> Seq<ShapeView> {
    assemble(calls).shapes
}

/// The view of each shape.
pub open spec fn shape_views(shapes: Seq<Shape>) -> Seq<ShapeView> {
    Seq::new(shapes.len(), |i: int| shapes[i]@)
}

/// The calls that hand over the given vertices, one each.
pub open spec fn vertex_calls(corners: Seq<Corner>) -> Seq<DrawCall> {
    Seq::new(corners.len(), |i: int| DrawCall::Vertex(corners[i]))
}

/// The calls of one batch: `begin`, the vertices, `end`.
pub open spec fn batch_calls(prim: Primitive, size: Scalar, corners: Seq<Corner>) -> Seq<DrawCall> {
    seq![(DrawCall::Begin { prim, size })] + vertex_calls(corners) + seq![DrawCall::End]
}

/// The `j`-th primitive of a batch of kind `prim` with the given vertices.
pub open spec fn batch_shape(prim: Primitive, size: Scalar, corners: Seq<Corner>, j: int) -> ShapeView {
    ShapeView {
        prim,
        size,
        textured: false,
        corners: corners.subrange(j * prim.arity(), (j + 1) * prim.arity()),
    }
}

proof fn lemma_batch_progress(prim: Primitive, size: Scalar, corners: Seq<Corner>, n: int)
    requires
        0 <= n <= corners.len(),
    ensures
        ({
            let a = assemble(
                seq![(DrawCall::Begin { prim, size })] + vertex_calls(corners).subrange(0, n),
            );
            let k = prim.arity();
            &&& !a.textured
            &&& a.open
            &&& a.prim == prim
            &&& a.size == size
            &&& a.pending == corners.subrange((n / k) * k, n)
            &&& a.shapes == Seq::new((n / k) as nat, |j: int| batch_shape(prim, size, corners, j))
        }),
    decreases n,
{
    let begin = DrawCall::Begin { prim, size };
    let k = prim.arity();
    let calls = seq![begin] + vertex_calls(corners).subrange(0, n);
    let a = assemble(calls);
    if n == 0 {
        assert(assemble(calls.drop_last()) == assembly_start());
        assert(a.shapes =~= Seq::new(0, |j: int| batch_shape(prim, size, corners, j)));
    } else {
        lemma_batch_progress(prim, size, corners, n - 1);
        let before = seq![begin] + vertex_calls(corners).subrange(0, n - 1);
        assert(calls.drop_last() =~= before);
        let b = assemble(before);
        let q = (n - 1) / k;
        if b.pending.len() + 1 == k {
            assert(b.pending.push(corners[n - 1]) =~= corners.subrange(q * k, (q + 1) * k));
        }
    }
}

/// A batch of `n` vertices makes the whole number of primitives that `n`
/// vertices suffice for, each of consecutive vertices in the order they
/// came; the vertices left over at `end` make none.
pub proof fn law_batch_groups_by_arity(prim: Primitive, size: Scalar, corners: Seq<Corner>)
    ensures
        shapes_of(batch_calls(prim, size, corners)) == Seq::new(
            (corners.len() / prim.arity() as nat) as nat,
            |j: int| batch_shape(prim, size, corners, j),
        ),
        !assemble(batch_calls(prim, size, corners)).open,
        assemble(batch_calls(prim, size, corners)).pending.len() == 0,
{
    let n = corners.len() as int;
    lemma_batch_progress(prim, size, corners, n);
    let calls = batch_calls(prim, size, corners);
    assert(vertex_calls(corners).subrange(0, n) =~= vertex_calls(corners));
    assert(calls.drop_last() =~= seq![(DrawCall::Begin { prim, size })] + vertex_calls(corners));
}

/// Groups the vertices of each batch into primitives, in the order in which
/// they are completed.
pub fn assemble_shapes(calls: &Vec<DrawCall>) -> (shapes: Vec<Shape>)
    ensures
        shape_views(shapes@) == shapes_of(calls@),
{
    let mut shapes: Vec<Shape> = Vec::new();
    let mut textured = false;
    let mut open = false;
    let mut prim = Primitive::Points;
    let mut size = Scalar { bits: BITS_ZERO };
    let mut pending: Vec<Corner> = Vec::new();
    let mut i: usize = 0;
    assert(shape_views(shapes@) =~= assembly_start().shapes);
    while i < calls.len()
        invariant
            i <= calls@.len(),
            assemble(calls@.take(i as int)) == (Assembly {
                textured,
                open,
                prim,
                size,
                pending: pending@,
                shapes: shape_views(shapes@),
            }),
        decreases calls@.len() - i,
    {
        let ghost before = assemble(calls@.take(i as int));
        assert(calls@.take(i + 1).drop_last() =~= calls@.take(i as int));
        match calls[i] {
            DrawCall::Texture(state) => {
                textured = state;
            },
            DrawCall::Begin { prim: kind, size: width } => {
                open = true;
                prim = kind;
                size = width;
                pending = Vec::new();
            },
            DrawCall::End => {
                open = false;
                pending = Vec::new();
            },
            DrawCall::Vertex(corner) => {
                if open {
                    pending.push(corner);
                    if pending.len() == prim.vertices_per_primitive() {
                        let shape = Shape { prim, size, textured, corners: pending };
                        shapes.push(shape);
                        pending = Vec::new();
                    }
                }
            },
        }
        i = i + 1;
        assert(shape_views(shapes@) =~= assembly_step(before, calls@[i - 1]).shapes);
    }
    assert(calls@.take(calls@.len() as int) =~= calls@);
    shapes
}

/// A drawing sink. `trace` is every call it has received, oldest first.
pub trait DebugDraw {
    spec fn trace(&self) -> Seq<DrawCall>;

    /// Opens a batch of primitives of kind `prim`, drawn with line or point size `size`.
    fn begin(&mut self, prim: Primitive, size: Scalar)
        ensures
            final(self).trace() == old(self).trace().push((DrawCall::Begin { prim, size })),
    ;

    /// Hands over one vertex of the open batch.
    fn vertex(&mut self, vertex: usize, placement: Placement, paint: Paint)
        ensures
            final(self).trace() == old(self).trace().push(plain_vertex(vertex, placement, paint)),
    ;

    /// Hands over one vertex of the open batch, a world position, with texture coordinates.
    fn vertex_uv(&mut self, vertex: usize, paint: Paint, u: Axis, v: Axis)
        ensures
            final(self).trace() == old(self).trace().push(textured_vertex(vertex, paint, u, v)),
    ;

    /// Closes the open batch.
    fn end(&mut self)
        ensures
            final(self).trace() == old(self).trace().push(DrawCall::End),
    ;

    /// Switches texturing on or off.
    fn texture(&mut self, state: bool)
        ensures
            final(self).trace() == old(self).trace().push(DrawCall::Texture(state)),
    ;
}

/// A sink that records the calls it receives.
pub struct DrawList {
    pub calls: Vec<DrawCall>,
}

impl View for DrawList {
    type V = Seq<DrawCall>;

    open spec fn view(&self) -> Seq<DrawCall> {
        self.calls@
    }
}

impl DrawList {
    /// A sink that has received nothing.
    pub fn new() -> (list: DrawList)
        ensures
            list@ == Seq::<DrawCall>::empty(),
    {
        DrawList { calls: Vec::new() }
    }

    /// Forgets the calls received so far.
    pub fn clear(&mut self)
        ensures
            final(self)@ == Seq::<DrawCall>::empty(),
    {
        self.calls.clear();
    }

    /// The primitives that the calls received so far make.
    pub fn shapes(&self) -> (shapes: Vec<Shape>)
        ensures
            shape_views(shapes@) == shapes_of(self@),
    {
        assemble_shapes(&self.calls)
    }
}

impl DebugDraw for DrawList {
    open spec fn trace(&self) -> Seq<DrawCall> {
        self.calls@
    }

    fn begin(&mut self, prim: Primitive, size: Scalar) {
        self.calls.push(DrawCall::Begin { prim, size });
    }

    fn vertex(&mut self, vertex: usize, placement: Placement, paint: Paint) {
        self.calls.push(
            DrawCall::Vertex(Corner { vertex, placement, paint, projection: Projection::Flat }),
        );
    }

    fn vertex_uv(&mut self, vertex: usize, paint: Paint, u: Axis, v: Axis) {
        self.calls.push(
            DrawCall::Vertex(
                Corner {
                    vertex,
                    placement: Placement::World,
                    paint,
                    projection: Projection::Planar { u, v },
                },
            ),
        );
    }

    fn end(&mut self) {
        self.calls.push(DrawCall::End);
    }

    fn texture(&mut self, state: bool) {
        self.calls.push(DrawCall::Texture(state));
    }
}

} // verus!
