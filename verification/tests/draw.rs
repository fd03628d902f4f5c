use mesh_debug_draw::draw::{
    assemble_shapes, Corner, DebugDraw, DrawCall, DrawList, Paint, Placement, Primitive, Projection,
};
use mesh_debug_draw::obj_loader::parse_obj;
use mesh_debug_draw::poly_mesh::{du_debug_draw_poly_mesh, PolyMesh};
use mesh_debug_draw::scalar::{Axis, Scalar, Vec3};
use mesh_debug_draw::tri_mesh::{du_debug_draw_tri_mesh_slope, InputMesh};

fn size(value: f32) -> Scalar {
    Scalar::from_bits(value.to_bits())
}

fn plain(vertex: usize) -> Corner {
    Corner { vertex, placement: Placement::Surface, paint: Paint::Walkable, projection: Projection::Flat }
}

fn batch(prim: Primitive, n: usize) -> Vec<DrawCall> {
    let mut calls = vec![DrawCall::Begin { prim, size: size(1.5) }];
    calls.extend((0..n).map(|i| DrawCall::Vertex(plain(i))));
    calls.push(DrawCall::End);
    calls
}

fn indices(corners: &[Corner]) -> Vec<usize> {
    corners.iter().map(|c| c.vertex).collect()
}

#[test]
fn primitives_have_their_numbers_of_vertices() {
    assert_eq!(Primitive::Quads.vertices_per_primitive(), 4);
    assert_eq!(Primitive::Lines.vertices_per_primitive(), 2);
    assert_eq!(Primitive::Points.vertices_per_primitive(), 1);
    assert_eq!(Primitive::Tris.vertices_per_primitive(), 3);
}

#[test]
fn sink_records_calls_in_order() {
    let mut list = DrawList::new();
    assert!(list.calls.is_empty());
    list.texture(true);
    list.begin(Primitive::Tris, size(1.0));
    list.vertex(4, Placement::Overlay, Paint::Boundary);
    list.vertex_uv(5, Paint::Slope { normal: 3, steep: true }, Axis::Y, Axis::Z);
    list.end();
    list.texture(false);
    assert_eq!(
        list.calls,
        vec![
            DrawCall::Texture(true),
            DrawCall::Begin { prim: Primitive::Tris, size: size(1.0) },
            DrawCall::Vertex(Corner {
                vertex: 4,
                placement: Placement::Overlay,
                paint: Paint::Boundary,
                projection: Projection::Flat,
            }),
            DrawCall::Vertex(Corner {
                vertex: 5,
                placement: Placement::World,
                paint: Paint::Slope { normal: 3, steep: true },
                projection: Projection::Planar { u: Axis::Y, v: Axis::Z },
            }),
            DrawCall::End,
            DrawCall::Texture(false),
        ]
    );
    list.clear();
    assert!(list.calls.is_empty());
}

#[test]
fn vertices_are_grouped_by_the_kind_of_the_batch() {
    for (prim, arity) in [
        (Primitive::Quads, 4usize),
        (Primitive::Lines, 2),
        (Primitive::Points, 1),
        (Primitive::Tris, 3),
    ] {
        for n in 0..=13usize {
            let shapes = assemble_shapes(&batch(prim, n));
            assert_eq!(shapes.len(), n / arity, "{:?} {}", prim, n);
            for (j, shape) in shapes.iter().enumerate() {
                assert_eq!(shape.prim, prim);
                assert_eq!(shape.size, size(1.5));
                assert!(!shape.textured);
                let expected: Vec<usize> = (j * arity..(j + 1) * arity).collect();
                assert_eq!(indices(&shape.corners), expected);
            }
        }
    }
}

#[test]
fn partial_primitive_is_dropped_at_end() {
    let mut calls = batch(Primitive::Tris, 5);
    calls.extend(batch(Primitive::Tris, 4));
    let shapes = assemble_shapes(&calls);
    assert_eq!(shapes.len(), 2);
    assert_eq!(indices(&shapes[0].corners), vec![0, 1, 2]);
    assert_eq!(indices(&shapes[1].corners), vec![0, 1, 2]);
}

#[test]
fn partial_primitive_is_dropped_at_begin() {
    let mut calls = vec![DrawCall::Begin { prim: Primitive::Lines, size: size(2.5) }];
    calls.push(DrawCall::Vertex(plain(9)));
    calls.push(DrawCall::Begin { prim: Primitive::Lines, size: size(2.0) });
    calls.push(DrawCall::Vertex(plain(1)));
    calls.push(DrawCall::Vertex(plain(2)));
    calls.push(DrawCall::End);
    let shapes = assemble_shapes(&calls);
    assert_eq!(shapes.len(), 1);
    assert_eq!(indices(&shapes[0].corners), vec![1, 2]);
    assert_eq!(shapes[0].size, size(2.0));
}

#[test]
fn vertices_outside_a_batch_are_dropped() {
    let mut calls = vec![DrawCall::Vertex(plain(7))];
    calls.extend(batch(Primitive::Points, 1));
    calls.push(DrawCall::Vertex(plain(8)));
    calls.push(DrawCall::End);
    let shapes = assemble_shapes(&calls);
    assert_eq!(shapes.len(), 1);
    assert_eq!(indices(&shapes[0].corners), vec![0]);
}

#[test]
fn shapes_carry_the_texture_state_of_their_completion() {
    let mut calls = vec![DrawCall::Texture(true)];
    calls.extend(batch(Primitive::Points, 1));
    calls.push(DrawCall::Texture(false));
    calls.extend(batch(Primitive::Points, 1));
    let shapes = assemble_shapes(&calls);
    assert_eq!(shapes.len(), 2);
    assert!(shapes[0].textured);
    assert!(!shapes[1].textured);
}

#[test]
fn no_calls_make_no_shapes() {
    assert!(assemble_shapes(&Vec::new()).is_empty());
    assert!(DrawList::new().shapes().is_empty());
}

#[test]
fn slope_mesh_assembles_into_its_triangles() {
    let up = Vec3::from_bits(0, 1.0f32.to_bits(), 0);
    let mesh = InputMesh {
        verts: vec![up; 4],
        tris: vec![0, 1, 2, 0, 2, 3],
        normals: vec![up; 6],
    };
    let mut list = DrawList::new();
    du_debug_draw_tri_mesh_slope(&mut list, &mesh, size(0.5));
    let shapes = list.shapes();
    assert_eq!(shapes.len(), 2);
    assert_eq!(indices(&shapes[0].corners), vec![0, 1, 2]);
    assert_eq!(indices(&shapes[1].corners), vec![0, 2, 3]);
    assert!(shapes.iter().all(|s| s.textured && s.prim == Primitive::Tris));
}

#[test]
fn polygon_mesh_assembles_into_lines_and_points() {
    let origin = Vec3::from_bits(0, 0, 0);
    let mesh = PolyMesh {
        verts: vec![origin; 4],
        polys: vec![vec![0, 1, 2, 3]],
        areas: vec![63],
        nvp: 4,
        cs: size(1.0),
        ch: size(1.0),
        bmin: origin,
    };
    let mut list = DrawList::new();
    du_debug_draw_poly_mesh(&mut list, &mesh);
    let shapes = list.shapes();
    let lines: Vec<Vec<usize>> = shapes
        .iter()
        .filter(|s| s.prim == Primitive::Lines)
        .map(|s| indices(&s.corners))
        .collect();
    assert_eq!(lines, vec![vec![0, 1], vec![1, 2], vec![2, 3], vec![3, 0]]);
    let points = shapes.iter().filter(|s| s.prim == Primitive::Points).count();
    assert_eq!(points, 4);
}

#[test]
fn loaded_quad_becomes_a_well_formed_triangle_mesh() {
    let data = parse_obj("v 0 0 0\nv 1 0 0\nv 1 0 1\nv 0 0 1\nf 1 2 3 4\n").unwrap();
    assert!(data.is_indexable());
    let verts: Vec<Vec3> = data.vertices[1..]
        .iter()
        .map(|v| {
            Vec3::from_bits(
                v.x.parse::<f32>().unwrap().to_bits(),
                v.y.parse::<f32>().unwrap().to_bits(),
                v.z.parse::<f32>().unwrap().to_bits(),
            )
        })
        .collect();
    let tris = data.triangle_indices();
    let up = Vec3::from_bits(0, 1.0f32.to_bits(), 0);
    let mesh = InputMesh { verts, normals: vec![up; tris.len()], tris };
    assert!(mesh.is_well_formed());
    assert_eq!(mesh.tris, vec![0, 1, 2, 0, 2, 3]);
    let mut list = DrawList::new();
    du_debug_draw_tri_mesh_slope(&mut list, &mesh, size(0.5));
    assert_eq!(list.shapes().len(), 2);
}
