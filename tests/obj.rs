use raytracer::{hex_channels, parse_line, ObjError, ObjLine, Span};

fn text<'a>(line: &'a str, span: Span) -> &'a str {
    &line[span.start..span.end]
}

#[test]
fn blank_and_comment_lines() {
    assert_eq!(parse_line(""), Ok(ObjLine::Blank));
    assert_eq!(parse_line("# a cube"), Ok(ObjLine::Blank));
    assert_eq!(parse_line("   \t "), Ok(ObjLine::Blank));
}

#[test]
fn vertex_line_gives_coordinate_spans() {
    let line = "v  1.0 -0.5\t2";
    match parse_line(line) {
        Ok(ObjLine::Vertex(a, b, c)) => {
            assert_eq!(text(line, a), "1.0");
            assert_eq!(text(line, b), "-0.5");
            assert_eq!(text(line, c), "2");
        }
        other => panic!("unexpected {:?}", other),
    }
}

#[test]
fn vertex_line_needs_three_coordinates() {
    assert_eq!(parse_line("v 1.0 2.0"), Err(ObjError::VertexArity));
    assert_eq!(parse_line("v 1 2 3 4"), Err(ObjError::VertexArity));
}

#[test]
fn face_line_gives_zero_based_indices() {
    assert_eq!(parse_line("f 1/1/1 2/2/2 3/3/3"), Ok(ObjLine::Face(0, 1, 2)));
    assert_eq!(parse_line("f 5//1 +7/2/ 12/3/4"), Ok(ObjLine::Face(4, 6, 11)));
}

#[test]
fn face_line_errors() {
    assert_eq!(parse_line("f 1/1/1 2/2/2"), Err(ObjError::FaceArity));
    assert_eq!(parse_line("f 1/1/1 2/2/2 3/3"), Err(ObjError::FaceVertex));
    assert_eq!(parse_line("f 1 2 3"), Err(ObjError::FaceVertex));
    assert_eq!(parse_line("f 0/1/1 2/2/2 3/3/3"), Err(ObjError::FaceVertex));
    assert_eq!(parse_line("f x/1/1 2/2/2 3/3/3"), Err(ObjError::FaceVertex));
    assert_eq!(parse_line("f -1/1/1 2/2/2 3/3/3"), Err(ObjError::FaceVertex));
    assert_eq!(
        parse_line("f 99999999999999999999999/1/1 2/2/2 3/3/3"),
        Err(ObjError::FaceVertex)
    );
}

#[test]
fn other_statements_are_skipped() {
    assert_eq!(parse_line("vn 0 1 0"), Ok(ObjLine::Other));
    assert_eq!(parse_line("o Cube"), Ok(ObjLine::Other));
}

#[test]
fn hex_color_channels() {
    assert_eq!(hex_channels(0x000000), (0, 0, 0));
    assert_eq!(hex_channels(0xffffff), (255, 255, 255));
    assert_eq!(hex_channels(0x12ab3c), (0x12, 0xab, 0x3c));
}
