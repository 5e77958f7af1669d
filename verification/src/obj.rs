//! The line-oriented plain-text geometry format.

use vstd::prelude::*;
use vstd::std_specs::iter::IteratorSpec;
use vstd::string::{StrSliceExecFns, StringExecFns};
use crate::errors::{SceneFault, SceneIOError};
use crate::scene::{Face, FaceElement, MeshGeometry, MeshShape, Real, Vertex, VertexNormal, ONE_BITS};

verus! {

/// The pieces that `separator` cuts a text into: one more than the text has
/// separators, each without one, some perhaps empty.
pub open spec fn pieces(text: Seq<char>, separator: char) -> Seq<Seq<char>>
    decreases text.len(),
{
    if text.len() == 0 {
        seq![Seq::empty()]
    } else {
        let earlier = pieces(text.drop_last(), separator);
        if text.last() == separator {
            earlier.push(Seq::empty())
        } else {
            earlier.drop_last().push(earlier.last().push(text.last()))
        }
    }
}

/// A text always has a piece, and one piece more for each separator; no
/// piece holds a separator.
pub proof fn lemma_pieces_count(text: Seq<char>, separator: char)
    ensures
        pieces(text, separator).len() >= 1,
        forall|i: int, j: int|
            0 <= i < pieces(text, separator).len() && 0 <= j < pieces(text, separator)[i].len()
                ==> pieces(text, separator)[i][j] != separator,
    decreases text.len(),
{
    if text.len() > 0 {
        lemma_pieces_count(text.drop_last(), separator);
    }
}

/// The pieces of a text, put together again with the separator between
/// them.
pub open spec fn joined(parts: Seq<Seq<char>>, separator: char) -> Seq<char>
    decreases parts.len(),
{
    if parts.len() == 0 {
        Seq::empty()
    } else if parts.len() == 1 {
        parts[0]
    } else {
        joined(parts.drop_last(), separator).push(separator) + parts.last()
    }
}

/// Cutting loses nothing: the pieces of a text, joined, are the text.
pub proof fn lemma_pieces_join(text: Seq<char>, separator: char)
    ensures
        joined(pieces(text, separator), separator) == text,
    decreases text.len(),
{
    if text.len() == 0 {
        assert(pieces(text, separator)[0] =~= text);
    } else {
        let earlier = pieces(text.drop_last(), separator);
        lemma_pieces_join(text.drop_last(), separator);
        lemma_pieces_count(text.drop_last(), separator);
        let all = pieces(text, separator);
        if text.last() == separator {
            assert(all.drop_last() =~= earlier);
            assert(joined(all, separator) =~= text);
        } else {
            if earlier.len() == 1 {
                assert(all[0] =~= text);
            } else {
                assert(all.drop_last() =~= earlier.drop_last());
                assert(joined(all, separator) =~= joined(earlier, separator).push(
                    text.last(),
                ));
                assert(text.drop_last().push(text.last()) =~= text);
            }
        }
    }
}

/// The texts of a run of strings.
pub open spec fn texts(strings: Seq<String>) -> Seq<Seq<char>> {
    Seq::new(strings.len(), |i: int| strings[i]@)
}

/// Cuts a text at every `separator`.
pub fn split_on(text: &str, separator: char) -> (r: Vec<String>)
    ensures
        texts(r@) == pieces(text@, separator),
{
    let mut done: Vec<String> = Vec::new();
    let mut start: usize = 0;
    let mut at: usize = 0;
    let length = text.unicode_len();
    proof {
        assert(text@.take(0) =~= Seq::<char>::empty());
        assert(text@.subrange(0, 0) =~= Seq::<char>::empty());
        assert(texts(done@).push(Seq::<char>::empty()) =~= seq![Seq::<char>::empty()]);
    }
    for c in it: text.chars()
        invariant
            it.seq() == text@,
            at == it.index(),
            start <= at <= length,
            length == text@.len(),
            pieces(text@.take(at as int), separator) == texts(done@).push(
                text@.subrange(start as int, at as int),
            ),
    {
        let ghost earlier = texts(done@).push(text@.subrange(start as int, at as int));
        proof {
            assert(c == text@[at as int]);
            assert(text@.take(at + 1).drop_last() =~= text@.take(at as int));
            assert(text@.take(at + 1).last() == c);
            assert(earlier.drop_last() =~= texts(done@));
        }
        if c == separator {
            let piece = text.substring_char(start, at).to_owned();
            proof {
                assert(texts(done@.push(piece)) =~= texts(done@).push(piece@));
                assert(text@.subrange(at + 1, at + 1) =~= Seq::<char>::empty());
            }
            done.push(piece);
            start = at + 1;
        } else {
            proof {
                assert(text@.subrange(start as int, at as int).push(c) =~= text@.subrange(
                    start as int,
                    at + 1,
                ));
            }
        }
        at = at + 1;
    }
    let piece = text.substring_char(start, at).to_owned();
    proof {
        assert(text@.take(at as int) =~= text@);
        assert(texts(done@.push(piece)) =~= texts(done@).push(piece@));
    }
    done.push(piece);
    done
}

/// Cuts a line of a geometry file into its tokens, at every single space.
/// Two spaces in a row enclose an empty token.
pub fn split_line(line: &str) -> (r: Vec<String>)
    ensures
        texts(r@) == pieces(line@, ' '),
        r@.len() >= 1,
{
    proof {
        lemma_pieces_count(line@, ' ');
    }
    let tokens = split_on(line, ' ');
    assert(texts(tokens@).len() == tokens@.len());
    tokens
}

/// What a run of decimal digits counts.
pub open spec fn digits_value(digits: Seq<char>) -> nat
    decreases digits.len(),
{
    if digits.len() == 0 {
        0
    } else {
        digits_value(digits.drop_last()) * 10 + (digits.last() as nat - '0' as nat) as nat
    }
}

/// Whether a text is one decimal digit or more, and nothing else.
pub open spec fn is_digits(text: Seq<char>) -> bool {
    &&& text.len() > 0
    &&& forall|i: int| 0 <= i < text.len() ==> '0' <= #[trigger] text[i] <= '9'
}

/// The number that a text denotes as an index: decimal digits, after a `+`
/// or after nothing, that count no more than 32 bits hold.
pub open spec fn index_reading(text: Seq<char>) -> Option<u32> {
    let digits = if text.len() > 0 && text[0] == '+' {
        text.skip(1)
    } else {
        text
    };
    if is_digits(digits) && digits_value(digits) <= u32::MAX {
        Some(digits_value(digits) as u32)
    } else {
        None
    }
}

/// What the standard integer parser says of a text that denotes no index.
pub uninterp spec fn index_complaint(text: Seq<char>) -> Seq<char>;

/// `str::parse` at `u32`: the standard parser of unsigned decimal numbers.
/// It accepts digits after an optional `+`, and refuses a text without
/// digits, any other character, and a number beyond 32 bits. A refusal is
/// handed out as the text of the parser's error.
#[verifier::external_body]
fn parse_index(text: &str) -> (r: Result<u32, String>)
    ensures
        match r {
            Ok(index) => index_reading(text@) == Some(index),
            Err(complaint) => index_reading(text@) is None && complaint@ == index_complaint(
                text@,
            ),
        },
{
    text.parse::<u32>().map_err(|error| error.to_string())
}

/// One token of a line: its text, and what the text denotes when it is read
/// as a real number, or why it denotes none. The library does no arithmetic
/// on reals, so whoever cuts the line supplies the reading.
#[derive(Debug, PartialEq, Eq)]
pub struct Token {
    pub text: String,
    pub reading: Result<Real, String>,
}

/// What a line of a geometry file is about, by its first token.
#[derive(Clone, Copy, Debug, PartialEq, Eq)]
pub enum LineKind {
    Vertex,
    Normal,
    Face,
    /// A comment, a group, an object, a smoothing group or a material: read
    /// over.
    Ignored,
    /// Anything else: read over too, but worth a warning.
    Unknown,
}

pub open spec fn line_kind_of(first: Seq<char>) -> LineKind {
    if first == "v"@ {
        LineKind::Vertex
    } else if first == "vn"@ {
        LineKind::Normal
    } else if first == "f"@ {
        LineKind::Face
    } else if first == "#"@ || first == "g"@ || first == "o"@ || first == "s"@ || first
        == "usemtl"@ || first == "mtllib"@ {
        LineKind::Ignored
    } else {
        LineKind::Unknown
    }
}

/// Whether two texts are the same text.
fn same_text(a: &str, b: &str) -> (r: bool)
    ensures
        r == (a@ == b@),
{
    let left = a.to_owned();
    let right = b.to_owned();
    left == right
}

/// What a line is about, from its first token.
pub fn line_kind(first: &str) -> (r: LineKind)
    ensures
        r == line_kind_of(first@),
{
    if same_text(first, "v") {
        LineKind::Vertex
    } else if same_text(first, "vn") {
        LineKind::Normal
    } else if same_text(first, "f") {
        LineKind::Face
    } else if same_text(first, "#") || same_text(first, "g") || same_text(first, "o")
        || same_text(first, "s") || same_text(first, "usemtl") || same_text(first, "mtllib") {
        LineKind::Ignored
    } else {
        LineKind::Unknown
    }
}

/// What reading a part returned, held against what it should be.
pub open spec fn read_outcome<T>(
    returned: Result<T, SceneIOError>,
    expected: Result<T, Seq<char>>,
) -> bool {
    match returned {
        Ok(value) => expected == Ok::<T, Seq<char>>(value),
        Err(failure) => expected is Err && failure@ == SceneFault::FailedToReadObj(
            expected->Err_0,
        ),
    }
}

/// The reading of a token as a coordinate; `what` introduces the complaint
/// if it denotes no real number.
pub open spec fn coordinate_reading(token: Token, what: Seq<char>) -> Result<Real, Seq<char>> {
    match token.reading {
        Ok(number) => Ok(number),
        Err(complaint) => Err(what + complaint@),
    }
}

/// The vertex that the operands of a `v` line denote: x, y and z, and w if
/// there is a fourth operand, else 1. The first operand that denotes no real
/// number is the failure. With fewer than three operands there is no
/// reading.
pub open spec fn vertex_reading(parts: Seq<Token>) -> Option<Result<Vertex, Seq<char>>> {
    if parts.len() < 3 {
        None
    } else {
        Some(
            match coordinate_reading(parts[0], "Failed to parse vertex x: "@) {
                Err(failure) => Err(failure),
                Ok(x) => match coordinate_reading(parts[1], "Failed to parse vertex y: "@) {
                    Err(failure) => Err(failure),
                    Ok(y) => match coordinate_reading(parts[2], "Failed to parse vertex z: "@) {
                        Err(failure) => Err(failure),
                        Ok(z) => if parts.len() >= 4 {
                            match coordinate_reading(parts[3], "Failed to parse vertex w: "@) {
                                Err(failure) => Err(failure),
                                Ok(w) => Ok(Vertex { x, y, z, w }),
                            }
                        } else {
                            Ok(Vertex { x, y, z, w: Real { bits: ONE_BITS } })
                        },
                    },
                },
            },
        )
    }
}

/// The normal that the operands of a `vn` line denote: x, y and z.
pub open spec fn vertex_normal_reading(parts: Seq<Token>) -> Option<
    Result<VertexNormal, Seq<char>>,
> {
    if parts.len() < 3 {
        None
    } else {
        Some(
            match coordinate_reading(parts[0], "Failed to parse vertex normal x: "@) {
                Err(failure) => Err(failure),
                Ok(x) => match coordinate_reading(parts[1], "Failed to parse vertex normal y: "@) {
                    Err(failure) => Err(failure),
                    Ok(y) => match coordinate_reading(
                        parts[2],
                        "Failed to parse vertex normal z: "@,
                    ) {
                        Err(failure) => Err(failure),
                        Ok(z) => Ok(VertexNormal { x, y, z }),
                    },
                },
            },
        )
    }
}

/// The index that one part of a face element denotes: 0, which stands for
/// none, if the part is empty, else the number that it denotes.
pub open spec fn index_outcome(part: Seq<char>, what: Seq<char>) -> Result<u32, Seq<char>> {
    if part.len() == 0 {
        Ok(0u32)
    } else {
        match index_reading(part) {
            Some(index) => Ok(index),
            None => Err(what + index_complaint(part)),
        }
    }
}

/// The part at a position, or the empty text where there is none.
pub open spec fn part_at(parts: Seq<Seq<char>>, at: int) -> Seq<char> {
    if 0 <= at < parts.len() {
        parts[at]
    } else {
        Seq::empty()
    }
}

/// The face element that a token denotes: up to three indices, of vertex,
/// texture and normal, cut by `/`. Parts after the third are not looked at.
pub open spec fn face_element_reading(part: Seq<char>) -> Result<FaceElement, Seq<char>> {
    let parts = pieces(part, '/');
    match index_outcome(part_at(parts, 0), "Failed to parse vertex index: "@) {
        Err(failure) => Err(failure),
        Ok(vertex_index) => match index_outcome(
            part_at(parts, 1),
            "Failed to parse texture index: "@,
        ) {
            Err(failure) => Err(failure),
            Ok(texture_index) => match index_outcome(
                part_at(parts, 2),
                "Failed to parse normal index: "@,
            ) {
                Err(failure) => Err(failure),
                Ok(normal_index) => Ok(FaceElement { vertex_index, texture_index, normal_index }),
            },
        },
    }
}

/// The elements of the face that the operands of an `f` line denote, one
/// for each operand. The first operand that denotes none is the failure.
pub open spec fn face_reading(parts: Seq<Token>) -> Result<Seq<FaceElement>, Seq<char>>
    decreases parts.len(),
{
    if parts.len() == 0 {
        Ok(Seq::empty())
    } else {
        match face_reading(parts.drop_last()) {
            Err(failure) => Err(failure),
            Ok(earlier) => match face_element_reading(parts.last().text@) {
                Ok(element) => Ok(earlier.push(element)),
                Err(failure) => Err(failure),
            },
        }
    }
}

/// A failure among the first operands of a face is the failure of the face.
pub proof fn lemma_face_reading_fails_early(parts: Seq<Token>, count: int)
    requires
        0 <= count <= parts.len(),
        face_reading(parts.take(count)) is Err,
    ensures
        face_reading(parts) == face_reading(parts.take(count)),
    decreases parts.len(),
{
    if count == parts.len() {
        assert(parts.take(count) =~= parts);
    } else {
        assert(parts.drop_last().take(count) =~= parts.take(count));
        lemma_face_reading_fails_early(parts.drop_last(), count);
    }
}

/// A geometry-reading failure that `what` introduces and `complaint` ends.
fn reading_failure(what: &str, complaint: &str) -> (r: SceneIOError)
    ensures
        r@ == SceneFault::FailedToReadObj(what@ + complaint@),
{
    SceneIOError::FailedToReadObj { description: String::from_str(what).concat(complaint) }
}

/// Reads one token as a coordinate.
fn parse_coordinate(token: &Token, what: &str) -> (r: Result<Real, SceneIOError>)
    ensures
        read_outcome(r, coordinate_reading(*token, what@)),
{
    match &token.reading {
        Ok(number) => Ok(*number),
        Err(complaint) => Err(reading_failure(what, complaint.as_str())),
    }
}

/// Reads the operands of a `v` line as a vertex.
pub fn parse_vertex(parts: &[Token]) -> (r: Result<Vertex, SceneIOError>)
    requires
        parts@.len() >= 3,
    ensures
        read_outcome(r, vertex_reading(parts@)->Some_0),
{
    let x = match parse_coordinate(&parts[0], "Failed to parse vertex x: ") {
        Ok(x) => x,
        Err(failure) => {
            return Err(failure);
        },
    };
    let y = match parse_coordinate(&parts[1], "Failed to parse vertex y: ") {
        Ok(y) => y,
        Err(failure) => {
            return Err(failure);
        },
    };
    let z = match parse_coordinate(&parts[2], "Failed to parse vertex z: ") {
        Ok(z) => z,
        Err(failure) => {
            return Err(failure);
        },
    };
    let w = if parts.len() >= 4 {
        match parse_coordinate(&parts[3], "Failed to parse vertex w: ") {
            Ok(w) => w,
            Err(failure) => {
                return Err(failure);
            },
        }
    } else {
        Real::one()
    };
    Ok(Vertex { x, y, z, w })
}

/// Reads the operands of a `vn` line as a vertex normal.
pub fn parse_vertex_normal(parts: &[Token]) -> (r: Result<VertexNormal, SceneIOError>)
    requires
        parts@.len() >= 3,
    ensures
        read_outcome(r, vertex_normal_reading(parts@)->Some_0),
{
    let x = match parse_coordinate(&parts[0], "Failed to parse vertex normal x: ") {
        Ok(x) => x,
        Err(failure) => {
            return Err(failure);
        },
    };
    let y = match parse_coordinate(&parts[1], "Failed to parse vertex normal y: ") {
        Ok(y) => y,
        Err(failure) => {
            return Err(failure);
        },
    };
    let z = match parse_coordinate(&parts[2], "Failed to parse vertex normal z: ") {
        Ok(z) => z,
        Err(failure) => {
            return Err(failure);
        },
    };
    Ok(VertexNormal { x, y, z })
}

/// Reads the part at a position of a face element as an index.
fn parse_index_part(parts: &Vec<String>, at: usize, what: &str) -> (r: Result<u32, SceneIOError>)
    ensures
        read_outcome(r, index_outcome(part_at(texts(parts@), at as int), what@)),
{
    if at >= parts.len() {
        return Ok(0);
    }
    let part = parts[at].as_str();
    if part.is_empty() {
        return Ok(0);
    }
    match parse_index(part) {
        Ok(index) => Ok(index),
        Err(complaint) => Err(reading_failure(what, complaint.as_str())),
    }
}

/// Reads one operand of an `f` line as a face element.
pub fn parse_face_element(part: &str) -> (r: Result<FaceElement, SceneIOError>)
    ensures
        read_outcome(r, face_element_reading(part@)),
{
    let spl = split_on(part, '/');
    let vertex_index = match parse_index_part(&spl, 0, "Failed to parse vertex index: ") {
        Ok(index) => index,
        Err(failure) => {
            return Err(failure);
        },
    };
    let texture_index = match parse_index_part(&spl, 1, "Failed to parse texture index: ") {
        Ok(index) => index,
        Err(failure) => {
            return Err(failure);
        },
    };
    let normal_index = match parse_index_part(&spl, 2, "Failed to parse normal index: ") {
        Ok(index) => index,
        Err(failure) => {
            return Err(failure);
        },
    };
    Ok(FaceElement { vertex_index, texture_index, normal_index })
}

/// Reads the operands of an `f` line as a face.
pub fn parse_face(parts: &[Token]) -> (r: Result<Face, SceneIOError>)
    ensures
        match r {
            Ok(face) => face_reading(parts@) == Ok::<Seq<FaceElement>, Seq<char>>(face@),
            Err(failure) => face_reading(parts@) is Err && failure@
                == SceneFault::FailedToReadObj(face_reading(parts@)->Err_0),
        },
{
    let mut elements: Vec<FaceElement> = Vec::new();
    let mut at: usize = 0;
    while at < parts.len()
        invariant
            at <= parts@.len(),
            face_reading(parts@.take(at as int)) == Ok::<Seq<FaceElement>, Seq<char>>(elements@),
        decreases parts@.len() - at,
    {
        proof {
            assert(parts@.take(at + 1).drop_last() =~= parts@.take(at as int));
        }
        match parse_face_element(parts[at].text.as_str()) {
            Ok(element) => {
                elements.push(element);
            },
            Err(failure) => {
                proof {
                    lemma_face_reading_fails_early(parts@, at + 1);
                }
                return Err(failure);
            },
        }
        at = at + 1;
    }
    proof {
        assert(parts@.take(at as int) =~= parts@);
    }
    Ok(Face { elements })
}

/// Whether a line has what its kind needs: a vertex or a normal line holds
/// three coordinates at least.
pub open spec fn line_complete(line: Seq<Token>) -> bool {
    line.len() == 0 || (line_kind_of(line[0].text@) != LineKind::Vertex && line_kind_of(
        line[0].text@,
    ) != LineKind::Normal) || line.len() >= 4
}

/// The geometry read so far, with what one more line adds to it. A line
/// without tokens, an ignored line and an unknown line add nothing. An
/// incomplete line has no reading.
pub open spec fn with_line(shape: MeshShape, line: Seq<Token>) -> Option<
    Result<MeshShape, Seq<char>>,
> {
    if !line_complete(line) {
        None
    } else if line.len() == 0 {
        Some(Ok(shape))
    } else {
        let parts = line.subrange(1, line.len() as int);
        Some(
            match line_kind_of(line[0].text@) {
                LineKind::Vertex => match vertex_reading(parts)->Some_0 {
                    Ok(vertex) => Ok(
                        MeshShape { vertices: shape.vertices.push(vertex), ..shape },
                    ),
                    Err(failure) => Err(failure),
                },
                LineKind::Normal => match vertex_normal_reading(parts)->Some_0 {
                    Ok(normal) => Ok(
                        MeshShape { vertex_normals: shape.vertex_normals.push(normal), ..shape },
                    ),
                    Err(failure) => Err(failure),
                },
                LineKind::Face => match face_reading(parts) {
                    Ok(face) => Ok(MeshShape { faces: shape.faces.push(face), ..shape }),
                    Err(failure) => Err(failure),
                },
                LineKind::Ignored => Ok(shape),
                LineKind::Unknown => Ok(shape),
            },
        )
    }
}

/// A geometry without anything in it.
pub open spec fn empty_shape() -> MeshShape {
    MeshShape {
        faces: Seq::empty(),
        texture_coordinates: Seq::empty(),
        vertex_normals: Seq::empty(),
        vertices: Seq::empty(),
    }
}

/// The geometry that the lines of a file denote, each line cut into its
/// tokens: its vertices, normals and faces in the order of the file, and no
/// texture coordinates. The first line that fails is the failure of the
/// file; an incomplete line before any failure leaves the file without a
/// reading.
pub open spec fn geometry_reading(lines: Seq<Vec<Token>>) -> Option<Result<MeshShape, Seq<char>>>
    decreases lines.len(),
{
    if lines.len() == 0 {
        Some(Ok(empty_shape()))
    } else {
        match geometry_reading(lines.drop_last()) {
            None => None,
            Some(Err(failure)) => Some(Err(failure)),
            Some(Ok(shape)) => with_line(shape, lines.last()@),
        }
    }
}

/// What ends the reading of the first lines of a file, a failure or an
/// incomplete line, ends the reading of the file in the same way.
pub proof fn lemma_geometry_reading_ends_early(lines: Seq<Vec<Token>>, count: int)
    requires
        0 <= count <= lines.len(),
        !(geometry_reading(lines.take(count)) matches Some(Ok(_))),
    ensures
        geometry_reading(lines) == geometry_reading(lines.take(count)),
    decreases lines.len(),
{
    if count == lines.len() {
        assert(lines.take(count) =~= lines);
    } else {
        assert(lines.drop_last().take(count) =~= lines.take(count));
        lemma_geometry_reading_ends_early(lines.drop_last(), count);
    }
}

/// What reading lines returned, held against what it should be.
pub open spec fn geometry_outcome(
    returned: Result<MeshGeometry, SceneIOError>,
    expected: Result<MeshShape, Seq<char>>,
) -> bool {
    match returned {
        Ok(geometry) => expected == Ok::<MeshShape, Seq<char>>(geometry@),
        Err(failure) => expected is Err && failure@ == SceneFault::FailedToReadObj(
            expected->Err_0,
        ),
    }
}

/// Whether a line has what its kind needs.
pub fn is_line_complete(line: &[Token]) -> (r: bool)
    ensures
        r == line_complete(line@),
{
    if line.len() == 0 {
        return true;
    }
    match line_kind(line[0].text.as_str()) {
        LineKind::Vertex => line.len() >= 4,
        LineKind::Normal => line.len() >= 4,
        _ => true,
    }
}

/// Adds to a geometry what one line of the file denotes.
pub fn read_line(geometry: &mut MeshGeometry, line: &[Token]) -> (r: Result<(), SceneIOError>)
    requires
        line_complete(line@),
    ensures
        match r {
            Ok(()) => with_line(old(geometry)@, line@) == Some(
                Ok::<MeshShape, Seq<char>>(final(geometry)@),
            ),
            Err(failure) => {
                &&& with_line(old(geometry)@, line@) matches Some(Err(description))
                &&& failure@ == SceneFault::FailedToReadObj(description)
                &&& *final(geometry) == *old(geometry)
            },
        },
{
    if line.len() == 0 {
        return Ok(());
    }
    let parts = &line[1..line.len()];
    match line_kind(line[0].text.as_str()) {
        LineKind::Vertex => match parse_vertex(parts) {
            Ok(vertex) => {
                geometry.vertices.push(vertex);
                assert(final(geometry)@.faces =~= old(geometry)@.faces);
                Ok(())
            },
            Err(failure) => Err(failure),
        },
        LineKind::Normal => match parse_vertex_normal(parts) {
            Ok(normal) => {
                geometry.vertex_normals.push(normal);
                assert(final(geometry)@.faces =~= old(geometry)@.faces);
                Ok(())
            },
            Err(failure) => Err(failure),
        },
        LineKind::Face => match parse_face(parts) {
            Ok(face) => {
                geometry.faces.push(face);
                assert(final(geometry)@.faces =~= old(geometry)@.faces.push(face@));
                Ok(())
            },
            Err(failure) => Err(failure),
        },
        LineKind::Ignored => Ok(()),
        LineKind::Unknown => Ok(()),
    }
}

/// Reads the lines of a geometry file, each cut into its tokens. Returns
/// `None` if a vertex or a normal lacks a coordinate before anything else
/// has failed.
pub fn try_read_obj(lines: &Vec<Vec<Token>>) -> (r: Option<Result<MeshGeometry, SceneIOError>>)
    ensures
        match r {
            Some(outcome) => geometry_reading(lines@) is Some && geometry_outcome(
                outcome,
                geometry_reading(lines@)->Some_0,
            ),
            None => geometry_reading(lines@) is None,
        },
{
    let mut geometry = MeshGeometry {
        faces: Vec::new(),
        texture_coordinates: Vec::new(),
        vertex_normals: Vec::new(),
        vertices: Vec::new(),
    };
    assert(geometry@.faces =~= Seq::<Seq<FaceElement>>::empty());
    let mut at: usize = 0;
    while at < lines.len()
        invariant
            at <= lines.len(),
            geometry_reading(lines@.take(at as int)) == Some(
                Ok::<MeshShape, Seq<char>>(geometry@),
            ),
        decreases lines.len() - at,
    {
        proof {
            assert(lines@.take(at + 1).drop_last() =~= lines@.take(at as int));
        }
        let line = lines[at].as_slice();
        if !is_line_complete(line) {
            proof {
                lemma_geometry_reading_ends_early(lines@, at + 1);
            }
            return None;
        }
        if let Err(failure) = read_line(&mut geometry, line) {
            proof {
                lemma_geometry_reading_ends_early(lines@, at + 1);
            }
            return Some(Err(failure));
        }
        at = at + 1;
    }
    proof {
        assert(lines@.take(at as int) =~= lines@);
    }
    Some(Ok(geometry))
}

/// Reads the lines of a geometry file, each cut into its tokens.
pub fn read_obj(lines: &Vec<Vec<Token>>) -> (r: Result<MeshGeometry, SceneIOError>)
    requires
        geometry_reading(lines@) is Some,
    ensures
        geometry_outcome(r, geometry_reading(lines@)->Some_0),
{
    match try_read_obj(lines) {
        Some(outcome) => outcome,
        None => vstd::pervasive::unreached(),
    }
}

/// A line of unknown kind adds nothing to a file and takes nothing from it:
/// with or without the line, the file reads the same.
pub proof fn lemma_unknown_line_adds_nothing(lines: Seq<Vec<Token>>, line: Vec<Token>)
    requires
        line@.len() > 0,
        line_kind_of(line@[0].text@) == LineKind::Unknown,
    ensures
        geometry_reading(lines.push(line)) == geometry_reading(lines),
{
    assert(lines.push(line).drop_last() =~= lines);
}

} // verus!
