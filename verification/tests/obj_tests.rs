use scene_format::errors::SceneIOError;
use scene_format::obj::{
    is_line_complete, line_kind, parse_face, parse_face_element, parse_vertex,
    parse_vertex_normal, read_line, read_obj, split_line, split_on, try_read_obj, LineKind,
    Token,
};
use scene_format::{Face, FaceElement, MeshGeometry, Real, Vertex, VertexNormal};

fn number(value: f64) -> Real {
    Real { bits: value.to_bits() }
}

fn token(text: &str) -> Token {
    Token {
        text: text.to_string(),
        reading: text.parse::<f64>().map(number).map_err(|error| error.to_string()),
    }
}

fn line(text: &str) -> Vec<Token> {
    split_line(text).iter().map(|piece| token(piece)).collect()
}

fn lines(text: &[&str]) -> Vec<Vec<Token>> {
    text.iter().map(|one| line(one)).collect()
}

fn read_failure(description: &str) -> SceneIOError {
    SceneIOError::FailedToReadObj { description: description.to_string() }
}

fn element(vertex_index: u32, texture_index: u32, normal_index: u32) -> FaceElement {
    FaceElement { vertex_index, texture_index, normal_index }
}

#[test]
fn line_is_cut_at_every_space() {
    assert_eq!(split_line("v 1.0 2.0 3.0"), vec!["v", "1.0", "2.0", "3.0"]);
    assert_eq!(split_line(""), vec![""]);
    assert_eq!(split_line("f"), vec!["f"]);
    assert_eq!(split_line("a  b"), vec!["a", "", "b"]);
    assert_eq!(split_line(" a "), vec!["", "a", ""]);
    assert_eq!(split_line("v\t1"), vec!["v\t1"]);
    assert_eq!(split_on("6/7/", '/'), vec!["6", "7", ""]);
    assert_eq!(split_on("4//5", '/'), vec!["4", "", "5"]);
    assert_eq!(split_on("\u{e9}/\u{4e16}", '/'), vec!["\u{e9}", "\u{4e16}"]);
}

#[test]
fn first_token_decides_the_kind_of_a_line() {
    assert_eq!(line_kind("v"), LineKind::Vertex);
    assert_eq!(line_kind("vn"), LineKind::Normal);
    assert_eq!(line_kind("f"), LineKind::Face);
    for ignored in ["#", "g", "o", "s", "usemtl", "mtllib"] {
        assert_eq!(line_kind(ignored), LineKind::Ignored);
    }
    for unknown in ["xyz", "", "vt", "V", "#comment", "vn1"] {
        assert_eq!(line_kind(unknown), LineKind::Unknown);
    }
}

#[test]
fn vertex_has_w_one_by_default() {
    assert_eq!(number(1.0).bits, 0x3FF0_0000_0000_0000);
    assert_eq!(Real::one(), number(1.0));
    let parts = line("1.0 2.0 3.0");
    assert_eq!(
        parse_vertex(&parts),
        Ok(Vertex { x: number(1.0), y: number(2.0), z: number(3.0), w: number(1.0) })
    );
}

#[test]
fn vertex_takes_a_fourth_coordinate() {
    let parts = line("0.14922 0.0940258 -0.0463043 0.5 9");
    assert_eq!(
        parse_vertex(&parts),
        Ok(Vertex {
            x: number(0.14922),
            y: number(0.0940258),
            z: number(-0.0463043),
            w: number(0.5)
        })
    );
}

#[test]
fn vertex_failure_names_the_coordinate() {
    assert_eq!(
        parse_vertex(&line("a 2 3")),
        Err(read_failure("Failed to parse vertex x: invalid float literal"))
    );
    assert_eq!(
        parse_vertex(&line("1 b 3")),
        Err(read_failure("Failed to parse vertex y: invalid float literal"))
    );
    assert_eq!(
        parse_vertex(&line("1 2  4")),
        Err(read_failure("Failed to parse vertex z: cannot parse float from empty string"))
    );
    assert_eq!(
        parse_vertex(&line("1 2 3 d")),
        Err(read_failure("Failed to parse vertex w: invalid float literal"))
    );
    assert_eq!(
        parse_vertex(&line("a b c d")),
        Err(read_failure("Failed to parse vertex x: invalid float literal"))
    );
}

#[test]
fn normal_has_three_coordinates() {
    assert_eq!(
        parse_vertex_normal(&line("0.1 0.2 0.3")),
        Ok(VertexNormal { x: number(0.1), y: number(0.2), z: number(0.3) })
    );
    assert_eq!(
        parse_vertex_normal(&line("0.1 0.2 0.3 junk")),
        Ok(VertexNormal { x: number(0.1), y: number(0.2), z: number(0.3) })
    );
}

#[test]
fn normal_failure_names_the_coordinate() {
    assert_eq!(
        parse_vertex_normal(&line("x 0 0")),
        Err(read_failure("Failed to parse vertex normal x: invalid float literal"))
    );
    assert_eq!(
        parse_vertex_normal(&line("0 y 0")),
        Err(read_failure("Failed to parse vertex normal y: invalid float literal"))
    );
    assert_eq!(
        parse_vertex_normal(&line("0 0 z")),
        Err(read_failure("Failed to parse vertex normal z: invalid float literal"))
    );
}

#[test]
fn face_element_has_up_to_three_indices() {
    assert_eq!(parse_face_element("1/2/3"), Ok(element(1, 2, 3)));
    assert_eq!(parse_face_element("4//5"), Ok(element(4, 0, 5)));
    assert_eq!(parse_face_element("6/7/"), Ok(element(6, 7, 0)));
    assert_eq!(parse_face_element("//"), Ok(element(0, 0, 0)));
    assert_eq!(parse_face_element("/8/"), Ok(element(0, 8, 0)));
    assert_eq!(parse_face_element("5//1"), Ok(element(5, 0, 1)));
}

#[test]
fn face_element_may_leave_indices_out() {
    assert_eq!(parse_face_element("9"), Ok(element(9, 0, 0)));
    assert_eq!(parse_face_element("9/10"), Ok(element(9, 10, 0)));
    assert_eq!(parse_face_element(""), Ok(element(0, 0, 0)));
    assert_eq!(parse_face_element("1/2/3/x"), Ok(element(1, 2, 3)));
}

#[test]
fn index_is_an_unsigned_decimal_number() {
    assert_eq!(parse_face_element("+7/007/4294967295"), Ok(element(7, 7, 4294967295)));
    assert_eq!(
        parse_face_element("4294967296//"),
        Err(read_failure(
            "Failed to parse vertex index: number too large to fit in target type"
        ))
    );
    assert_eq!(
        parse_face_element("-1//"),
        Err(read_failure("Failed to parse vertex index: invalid digit found in string"))
    );
    assert_eq!(
        parse_face_element("+//"),
        Err(read_failure("Failed to parse vertex index: invalid digit found in string"))
    );
    assert_eq!(
        parse_face_element("1.0//"),
        Err(read_failure("Failed to parse vertex index: invalid digit found in string"))
    );
}

#[test]
fn face_element_failure_names_the_index() {
    assert_eq!(
        parse_face_element("a/b/c"),
        Err(read_failure("Failed to parse vertex index: invalid digit found in string"))
    );
    assert_eq!(
        parse_face_element("1/b/c"),
        Err(read_failure("Failed to parse texture index: invalid digit found in string"))
    );
    assert_eq!(
        parse_face_element("1/2/c"),
        Err(read_failure("Failed to parse normal index: invalid digit found in string"))
    );
}

#[test]
fn face_has_an_element_for_each_operand() {
    assert_eq!(
        parse_face(&line("1/2/3 4//5 6/7/")),
        Ok(Face { elements: vec![element(1, 2, 3), element(4, 0, 5), element(6, 7, 0)] })
    );
    assert_eq!(parse_face(&[]), Ok(Face { elements: vec![] }));
    assert_eq!(
        parse_face(&line("1/2/3 x 4/y/5")),
        Err(read_failure("Failed to parse vertex index: invalid digit found in string"))
    );
}

#[test]
fn geometry_is_loaded_in_file_order() {
    let geometry = read_obj(&lines(&["v 1.0 2.0 3.0", "vn 0.1 0.2 0.3", "f 1/2/3 4//5 6/7/"]))
        .unwrap();
    assert_eq!(
        geometry.vertices,
        vec![Vertex { x: number(1.0), y: number(2.0), z: number(3.0), w: number(1.0) }]
    );
    assert_eq!(
        geometry.vertex_normals,
        vec![VertexNormal { x: number(0.1), y: number(0.2), z: number(0.3) }]
    );
    assert_eq!(
        geometry.faces,
        vec![Face { elements: vec![element(1, 2, 3), element(4, 0, 5), element(6, 7, 0)] }]
    );
    assert!(geometry.texture_coordinates.is_empty());
}

#[test]
fn unknown_line_does_not_fail_the_load() {
    let with = read_obj(&lines(&["v 1 2 3", "xyz foo bar", "f 1//"])).unwrap();
    let without = read_obj(&lines(&["v 1 2 3", "f 1//"])).unwrap();
    assert_eq!(with, without);
    assert_eq!(with.vertices.len(), 1);
    assert_eq!(with.faces.len(), 1);
}

#[test]
fn ignored_lines_add_nothing() {
    let geometry = read_obj(&lines(&[
        "# a cow",
        "mtllib cow.mtl",
        "o cow",
        "g body",
        "usemtl hide",
        "s 1",
        "",
        "vt 0.5 0.5",
    ]))
    .unwrap();
    assert_eq!(
        geometry,
        MeshGeometry {
            faces: vec![],
            texture_coordinates: vec![],
            vertex_normals: vec![],
            vertices: vec![]
        }
    );
    assert_eq!(read_obj(&vec![]).unwrap(), geometry);
    assert_eq!(read_obj(&vec![vec![]]).unwrap(), geometry);
}

#[test]
fn several_of_each_are_kept_in_order() {
    let geometry = read_obj(&lines(&[
        "v 1 0 0",
        "f 1// 2//",
        "v 0 1 0 2",
        "vn 0 0 1",
        "f 2/1/1",
        "vn 1 0 0",
    ]))
    .unwrap();
    assert_eq!(
        geometry.vertices,
        vec![
            Vertex { x: number(1.0), y: number(0.0), z: number(0.0), w: number(1.0) },
            Vertex { x: number(0.0), y: number(1.0), z: number(0.0), w: number(2.0) },
        ]
    );
    assert_eq!(
        geometry.vertex_normals,
        vec![
            VertexNormal { x: number(0.0), y: number(0.0), z: number(1.0) },
            VertexNormal { x: number(1.0), y: number(0.0), z: number(0.0) },
        ]
    );
    assert_eq!(
        geometry.faces,
        vec![
            Face { elements: vec![element(1, 0, 0), element(2, 0, 0)] },
            Face { elements: vec![element(2, 1, 1)] },
        ]
    );
}

#[test]
fn first_failing_line_fails_the_load() {
    assert_eq!(
        read_obj(&lines(&["v 1 2 3", "vn 0 up 0", "f x//", "v a b c"])),
        Err(read_failure("Failed to parse vertex normal y: invalid float literal"))
    );
    assert_eq!(
        read_obj(&lines(&["f 1/2/z", "v a b c"])),
        Err(read_failure("Failed to parse normal index: invalid digit found in string"))
    );
}

#[test]
fn line_that_lacks_a_coordinate_has_no_reading() {
    assert!(!is_line_complete(&line("v 1 2")));
    assert!(!is_line_complete(&line("vn")));
    assert!(is_line_complete(&line("v 1 2 3")));
    assert!(is_line_complete(&line("vn a b c")));
    assert!(is_line_complete(&line("f")));
    assert!(is_line_complete(&line("xyz")));
    assert!(is_line_complete(&[]));
    assert_eq!(try_read_obj(&lines(&["v 1 2 3", "v 1 2"])), None);
    assert_eq!(try_read_obj(&lines(&["vn 1"])), None);
    assert_eq!(
        try_read_obj(&lines(&["v 1 2 z", "v 1 2"])),
        Some(Err(read_failure("Failed to parse vertex z: invalid float literal")))
    );
    assert_eq!(
        try_read_obj(&lines(&["v 1 2 3"])),
        Some(Ok(MeshGeometry {
            faces: vec![],
            texture_coordinates: vec![],
            vertex_normals: vec![],
            vertices: vec![Vertex { x: number(1.0), y: number(2.0), z: number(3.0), w: number(1.0) }]
        }))
    );
}

#[test]
fn line_is_added_to_what_was_read() {
    let mut geometry = MeshGeometry {
        faces: vec![],
        texture_coordinates: vec![],
        vertex_normals: vec![],
        vertices: vec![],
    };
    assert_eq!(read_line(&mut geometry, &line("v 1 2 3")), Ok(()));
    assert_eq!(read_line(&mut geometry, &line("f 1//")), Ok(()));
    assert_eq!(read_line(&mut geometry, &line("xyz foo bar")), Ok(()));
    assert_eq!(
        read_line(&mut geometry, &line("v 1 2 q")),
        Err(read_failure("Failed to parse vertex z: invalid float literal"))
    );
    assert_eq!(geometry.vertices.len(), 1);
    assert_eq!(geometry.faces, vec![Face { elements: vec![element(1, 0, 0)] }]);
}
