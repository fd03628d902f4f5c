use mesh_debug_draw::obj_loader::{
    chars_of, parse_face_index, parse_line, parse_obj, string_of, ObjData, ObjLine, ObjLoadError,
    ObjVertex,
};

fn chars(text: &str) -> Vec<char> {
    text.chars().collect()
}

fn parse_error(text: &str) -> String {
    match parse_obj(text) {
        Err(ObjLoadError::ParseError(message)) => message,
        Err(ObjLoadError::IoError(_)) => panic!("unexpected input/output error"),
        Ok(_) => panic!("the text was accepted"),
    }
}

fn coordinate(text: &String) -> f32 {
    text.parse().unwrap()
}

const SAMPLE: &str = "\
v -21.847065 -2.492895 19.569759
v -15.847676 -2.492895 18.838863
v -21.847065 -0.895197 19.569759
v -15.847676 -0.895197 18.838863
v -21.585381 -2.492895 21.717730
v -15.585992 -2.492895 20.986834
f 1 2 3 4 5
f 1 5 6";

#[test]
fn test_load_obj() {
    let obj_data = parse_obj(SAMPLE).unwrap();

    assert_eq!(obj_data.vertices.len(), 7);
    assert_eq!(obj_data.faces.len(), 2);

    let first_vertex = &obj_data.vertices[1];
    assert!((coordinate(&first_vertex.x) - -21.847065).abs() < 1e-6);
    assert!((coordinate(&first_vertex.y) - -2.492895).abs() < 1e-6);
    assert!((coordinate(&first_vertex.z) - 19.569759).abs() < 1e-6);

    assert_eq!(obj_data.faces[0], vec![1, 2, 3, 4, 5]);
    assert_eq!(obj_data.faces[1], vec![1, 5, 6]);
}

#[test]
fn six_vertices_pentagon_and_triangle() {
    let data = parse_obj(SAMPLE).unwrap();
    assert_eq!(data.vertex_count(), 6);
    assert_eq!(data.face_count(), 2);
    let triangles = data.triangulate();
    assert_eq!(triangles.len(), 4);
    assert_eq!(triangles, vec![[1, 2, 3], [1, 3, 4], [1, 4, 5], [1, 5, 6]]);
}

#[test]
fn quad_face_gives_two_triangles_in_order() {
    let data = parse_obj("v 0 0 0\nv 1 0 0\nv 1 1 0\nv 0 1 0\nf 1 2 3 4\n").unwrap();
    assert_eq!(data.triangulate(), vec![[1, 2, 3], [1, 3, 4]]);
    assert!(data.is_indexable());
    assert_eq!(data.triangle_indices(), vec![0, 1, 2, 0, 2, 3]);
}

#[test]
fn vertices_keep_their_text() {
    let data = parse_obj("v 1 -2.50 +3e2\n").unwrap();
    assert_eq!(data.vertices.len(), 2);
    assert_eq!(data.vertices[1].x, "1");
    assert_eq!(data.vertices[1].y, "-2.50");
    assert_eq!(data.vertices[1].z, "+3e2");
    assert_eq!(coordinate(&data.vertices[1].z), 300.0);
}

#[test]
fn reserved_slot_is_the_origin() {
    let data = ObjData::new();
    assert_eq!(data.vertices.len(), 1);
    assert_eq!(data.faces.len(), 0);
    assert_eq!(coordinate(&data.vertices[0].x), 0.0);
    assert_eq!(coordinate(&data.vertices[0].y), 0.0);
    assert_eq!(coordinate(&data.vertices[0].z), 0.0);
    assert_eq!(data.vertex_count(), 0);
    assert_eq!(data.face_count(), 0);
}

#[test]
fn empty_text_gives_blank_data() {
    let data = parse_obj("").unwrap();
    assert_eq!(data.vertices.len(), 1);
    assert!(data.faces.is_empty());
    let data = parse_obj("\n\n \n").unwrap();
    assert_eq!(data.vertices.len(), 1);
    assert!(data.faces.is_empty());
}

#[test]
fn other_lines_are_passed_over() {
    let text = "# a comment\nvn 0 1 0\nvt 0.5 0.5\no cube\ng side\nusemtl stone\ns off\nvx 1 2 3\nv 1 2 3\nfoo\nf 1 1 1\n";
    let data = parse_obj(text).unwrap();
    assert_eq!(data.vertex_count(), 1);
    assert_eq!(data.faces, vec![vec![1, 1, 1]]);
}

#[test]
fn lines_may_end_with_carriage_return() {
    let data = parse_obj("v 1 2 3\r\nv 4 5 6\r\nf 1 2 1\r\n").unwrap();
    assert_eq!(data.vertex_count(), 2);
    assert_eq!(data.vertices[2].z, "6");
    assert_eq!(data.faces, vec![vec![1, 2, 1]]);
}

#[test]
fn words_are_split_at_any_white_space() {
    let data = parse_obj("  v\t1 \u{a0}2\u{3000}3   \n\u{2003}f 1\u{b}1\u{c}1").unwrap();
    assert_eq!(data.vertex_count(), 1);
    assert_eq!(data.vertices[1].x, "1");
    assert_eq!(data.vertices[1].y, "2");
    assert_eq!(data.vertices[1].z, "3");
    assert_eq!(data.faces, vec![vec![1, 1, 1]]);
}

#[test]
fn words_after_the_third_coordinate_are_ignored() {
    let data = parse_obj("v 1 2 3 1.0 junk\n").unwrap();
    assert_eq!(data.vertex_count(), 1);
    assert_eq!(data.vertices[1].z, "3");
}

#[test]
fn missing_or_malformed_x_is_reported() {
    assert_eq!(parse_error("v"), "Invalid vertex x coordinate");
    assert_eq!(parse_error("v abc 1 2"), "Invalid vertex x coordinate");
    assert_eq!(parse_error("v 1,5 1 2"), "Invalid vertex x coordinate");
}

#[test]
fn missing_or_malformed_y_is_reported() {
    assert_eq!(parse_error("v 1"), "Invalid vertex y coordinate");
    assert_eq!(parse_error("v 1 . 2"), "Invalid vertex y coordinate");
}

#[test]
fn missing_or_malformed_z_is_reported() {
    assert_eq!(parse_error("v 1 2"), "Invalid vertex z coordinate");
    assert_eq!(parse_error("v 1 2 3f"), "Invalid vertex z coordinate");
}

#[test]
fn malformed_face_index_is_reported_with_its_word() {
    assert_eq!(parse_error("f 1 2 x3"), "Invalid face index: x3");
    assert_eq!(parse_error("f 1 /2/3 4"), "Invalid face index: /2/3");
    assert_eq!(parse_error("f 1 -2 3"), "Invalid face index: -2");
    assert_eq!(parse_error("f 1.0 2 3"), "Invalid face index: 1.0");
    assert_eq!(
        parse_error("f 1 99999999999999999999999999999999 3"),
        "Invalid face index: 99999999999999999999999999999999"
    );
}

#[test]
fn first_faulty_word_of_a_face_is_the_one_reported() {
    assert_eq!(parse_error("f 1 a b"), "Invalid face index: a");
}

#[test]
fn first_faulty_line_ends_the_reading() {
    assert_eq!(parse_error("v 1 2 3\nf 1 z\nv oops"), "Invalid face index: z");
    assert_eq!(parse_error("v 1 2 3\nv oops\nf 1 z"), "Invalid vertex x coordinate");
}

#[test]
fn face_words_may_carry_texture_and_normal_indices() {
    let data = parse_obj("f 1/2/3 4//5 6/7 +8\n").unwrap();
    assert_eq!(data.faces, vec![vec![1, 4, 6, 8]]);
}

#[test]
fn a_face_may_have_any_number_of_indices() {
    let data = parse_obj("f\nf 7\nf 1 2\n").unwrap();
    assert_eq!(data.faces, vec![vec![], vec![7], vec![1, 2]]);
    assert!(data.triangulate().is_empty());
}

#[test]
fn face_index_reads_the_number_before_the_first_slash() {
    assert_eq!(parse_face_index(&chars("12")), Some(12));
    assert_eq!(parse_face_index(&chars("12/7/9")), Some(12));
    assert_eq!(parse_face_index(&chars("007")), Some(7));
    assert_eq!(parse_face_index(&chars("+5")), Some(5));
    assert_eq!(parse_face_index(&chars("0")), Some(0));
    assert_eq!(parse_face_index(&chars("")), None);
    assert_eq!(parse_face_index(&chars("+")), None);
    assert_eq!(parse_face_index(&chars("-5")), None);
    assert_eq!(parse_face_index(&chars("++5")), None);
    assert_eq!(parse_face_index(&chars("/5")), None);
    assert_eq!(parse_face_index(&chars("5a/1")), None);
    assert_eq!(parse_face_index(&chars("١٢")), None);
}

#[test]
fn face_index_agrees_with_the_standard_parser() {
    let words = [
        "0", "1", "42", "+42", "-42", "", "+", "-", "4 2", "4_2", "0x10", "1e3", "18446744073709551615",
        "18446744073709551616", "184467440737095516150", "00000000000000000000000000001",
        "4294967295", "4294967296", "９",
    ];
    for word in words {
        assert_eq!(parse_face_index(&chars(word)), word.parse::<usize>().ok(), "{:?}", word);
    }
}

#[test]
fn line_by_line_reading_builds_the_same_data() {
    let mut data = ObjData::new();
    for line in SAMPLE.lines() {
        let item = parse_line(&chars(line)).unwrap();
        data.add_line(item);
    }
    let whole = parse_obj(SAMPLE).unwrap();
    assert_eq!(data.faces, whole.faces);
    assert_eq!(data.vertices.len(), whole.vertices.len());
    for (a, b) in data.vertices.iter().zip(whole.vertices.iter()) {
        assert_eq!((&a.x, &a.y, &a.z), (&b.x, &b.y, &b.z));
    }
}

#[test]
fn parse_line_tells_the_kinds_of_line_apart() {
    assert!(matches!(parse_line(&chars("")), Ok(ObjLine::Other)));
    assert!(matches!(parse_line(&chars("   ")), Ok(ObjLine::Other)));
    assert!(matches!(parse_line(&chars("vn 1 2 3")), Ok(ObjLine::Other)));
    assert!(matches!(parse_line(&chars("V 1 2 3")), Ok(ObjLine::Other)));
    match parse_line(&chars("v .5 5. 5")) {
        Ok(ObjLine::Vertex(ObjVertex { x, y, z })) => assert_eq!((x, y, z), (".5".into(), "5.".into(), "5".into())),
        _ => panic!("no vertex"),
    }
    match parse_line(&chars("f 3 2 1")) {
        Ok(ObjLine::Face(face)) => assert_eq!(face, vec![3, 2, 1]),
        _ => panic!("no face"),
    }
    assert!(matches!(parse_line(&chars("f q")), Err(ObjLoadError::ParseError(_))));
}

#[test]
fn input_errors_convert_into_load_errors() {
    let io = std::io::Error::new(std::io::ErrorKind::NotFound, "missing");
    let error = ObjLoadError::from(io);
    match error {
        ObjLoadError::IoError(inner) => assert_eq!(inner.kind(), std::io::ErrorKind::NotFound),
        ObjLoadError::ParseError(_) => panic!("wrong variant"),
    }
}

#[test]
fn fan_of_a_hexagon() {
    let data = parse_obj("f 10 20 30 40 50 60").unwrap();
    assert_eq!(
        data.triangulate(),
        vec![[10, 20, 30], [10, 30, 40], [10, 40, 50], [10, 50, 60]]
    );
}

#[test]
fn triangles_follow_the_order_of_the_faces() {
    let data = parse_obj("f 1 2 3\nf 9 8\nf 4 5 6 7\n").unwrap();
    assert_eq!(data.triangulate(), vec![[1, 2, 3], [4, 5, 6], [4, 6, 7]]);
}

#[test]
fn indices_out_of_range_are_not_indexable() {
    let zero = parse_obj("v 0 0 0\nv 1 0 0\nv 1 1 0\nf 0 1 2\n").unwrap();
    assert!(!zero.is_indexable());
    let beyond = parse_obj("v 0 0 0\nv 1 0 0\nv 1 1 0\nf 1 2 4\n").unwrap();
    assert!(!beyond.is_indexable());
    let exact = parse_obj("v 0 0 0\nv 1 0 0\nv 1 1 0\nf 1 2 3\n").unwrap();
    assert!(exact.is_indexable());
    let short_face_is_not_looked_at = parse_obj("v 0 0 0\nf 9 9\n").unwrap();
    assert!(short_face_is_not_looked_at.is_indexable());
    let no_slot = ObjData { vertices: Vec::new(), faces: Vec::new() };
    assert!(!no_slot.is_indexable());
}

#[test]
fn corner_indices_count_from_zero() {
    let data = parse_obj(SAMPLE).unwrap();
    assert!(data.is_indexable());
    assert_eq!(data.triangle_indices(), vec![0, 1, 2, 0, 2, 3, 0, 3, 4, 0, 4, 5]);
}

#[test]
fn characters_and_strings_convert_both_ways() {
    let text = "v 1 2 3 \u{e9}\u{4e16}\u{1f600}";
    let characters = chars_of(text);
    assert_eq!(characters, chars(text));
    assert_eq!(string_of(&characters), text);
    assert_eq!(chars_of(""), Vec::<char>::new());
    assert_eq!(string_of(&Vec::new()), "");
}
