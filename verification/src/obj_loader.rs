//! Reading a Wavefront OBJ text: vertices and faces.
//!
//! A line whose first word is `v` gives a vertex by three numbers; one whose
//! first word is `f` gives a face by the indices of its vertices, counted
//! from 1. Every other line is passed over. The numbers of a vertex are
//! checked for their form and kept as they are written.

use vstd::prelude::*;
use crate::scalar::Axis;
use crate::text::{
    is_number, is_number_word, lemma_mark_at_bounds, mark_at, parse_usize, split_words, usize_value,
    word_views, words_of,
};

verus! {

/// The error type of the standard library's input and output.
#[verifier::external_type_specification]
#[verifier::external_body]
pub struct ExIoError(std::io::Error);

/// `String::push` of the standard library appends the character to the string.
pub assume_specification[ String::push ](s: &mut String, ch: char)
    ensures
        final(s)@ == old(s)@.push(ch),
;

/// A vertex as the text gives it: its three coordinates, as written.
#[derive(Debug, Clone)]
pub struct ObjVertex {
    pub x: String,
    pub y: String,
    pub z: String,
}

/// What an `ObjVertex` holds, as mathematical values.
pub struct ObjVertexView {
    pub x: Seq<char>,
    pub y: Seq<char>,
    pub z: Seq<char>,
}

impl View for ObjVertex {
    type V = ObjVertexView;

    open spec fn view(&self) -> ObjVertexView {
        ObjVertexView { x: self.x@, y: self.y@, z: self.z@ }
    }
}

/// The vertices and faces of an OBJ text.
///
/// Faces name vertices by their place in `vertices`, counted from 1:
/// `vertices[0]` is a reserved slot that no face refers to.
#[derive(Debug)]
pub struct ObjData {
    pub vertices: Vec<ObjVertex>,
    pub faces: Vec<Vec<usize>>,
}

/// What an `ObjData` holds, as mathematical values.
pub struct ObjDataView {
    pub vertices: Seq<ObjVertexView>,
    pub faces: Seq<Seq<usize>>,
}

impl View for ObjData {
    type V = ObjDataView;

    open spec fn view(&self) -> ObjDataView {
        ObjDataView {
            vertices: Seq::new(self.vertices@.len(), |i: int| self.vertices@[i]@),
            faces: Seq::new(self.faces@.len(), |i: int| self.faces@[i]@),
        }
    }
}

/// Why loading failed.
#[derive(Debug)]
pub enum ObjLoadError {
    /// The text could not be read.
    IoError(std::io::Error),
    /// A vertex or face line does not hold the numbers it should.
    ParseError(String),
}

impl From<std::io::Error> for ObjLoadError {
    fn from(error: std::io::Error) -> (r: ObjLoadError) {
        ObjLoadError::IoError(error)
    }
}

impl vstd::std_specs::convert::FromSpecImpl<std::io::Error> for ObjLoadError {
    open spec fn obeys_from_spec() -> bool {
        true
    }

    open spec fn from_spec(error: std::io::Error) -> ObjLoadError {
        ObjLoadError::IoError(error)
    }
}

/// What is wrong with a line.
pub enum ObjFault {
    /// The coordinate along this axis is missing or is no number.
    Coordinate(Axis),
    /// This word of a face does not start with a vertex index.
    FaceIndex(Seq<char>),
}

impl ObjFault {
    /// The message that reports the fault.
    pub open spec fn message(self) -> Seq<char> {
        match self {
            ObjFault::Coordinate(Axis::X) => "Invalid vertex x coordinate"@,
            ObjFault::Coordinate(Axis::Y) => "Invalid vertex y coordinate"@,
            ObjFault::Coordinate(Axis::Z) => "Invalid vertex z coordinate"@,
            ObjFault::FaceIndex(word) => "Invalid face index: "@ + word,
        }
    }
}

impl ObjLoadError {
    /// Whether the error reports `fault`.
    pub open spec fn reports(self, fault: ObjFault) -> bool {
        self matches ObjLoadError::ParseError(m) && m@ == fault.message()
    }
}

/// What one line of the text gives.
#[derive(Debug)]
pub enum ObjLine {
    Vertex(ObjVertex),
    Face(Vec<usize>),
    Other,
}

/// What an `ObjLine` holds, as mathematical values.
pub enum ObjLineView {
    Vertex(ObjVertexView),
    Face(Seq<usize>),
    Other,
}

impl View for ObjLine {
    type V = ObjLineView;

    open spec fn view(&self) -> ObjLineView {
        match self {
            ObjLine::Vertex(v) => ObjLineView::Vertex(v@),
            ObjLine::Face(f) => ObjLineView::Face(f@),
            ObjLine::Other => ObjLineView::Other,
        }
    }
}

/// The vertex that a line with these words gives. The words after the first
/// are the coordinates along x, y and z; what follows them is not looked at.
pub open spec fn vertex_line(words: Seq<Seq<char>>) -> Result<ObjVertexView, ObjFault> {
    if words.len() < 2 || !is_number(words[1]) {
        Err(ObjFault::Coordinate(Axis::X))
    } else if words.len() < 3 || !is_number(words[2]) {
        Err(ObjFault::Coordinate(Axis::Y))
    } else if words.len() < 4 || !is_number(words[3]) {
        Err(ObjFault::Coordinate(Axis::Z))
    } else {
        Ok(ObjVertexView { x: words[1], y: words[2], z: words[3] })
    }
}

/// The vertex index that a word of a face gives: the number written before
/// the first slash, or by the whole word where it has no slash.
pub open spec fn face_index(word: Seq<char>) -> Option<usize> {
    usize_value(word.subrange(0, mark_at(word, '/', 0)))
}

/// The face that the words from the second up to the `n`-th give: the index
/// of each, or the fault of the first that gives none.
pub open spec fn face_line(words: Seq<Seq<char>>, n: int) -> Result<Seq<usize>, ObjFault>
    decreases n,
{
    if n <= 1 {
        Ok(Seq::empty())
    } else {
        match face_line(words, n - 1) {
            Err(fault) => Err(fault),
            Ok(face) => match face_index(words[n - 1]) {
                Some(index) => Ok(face.push(index)),
                None => Err(ObjFault::FaceIndex(words[n - 1])),
            },
        }
    }
}

/// What a line gives, or what is wrong with it.
pub open spec fn line_item(line: Seq<char>) -> Result<ObjLineView, ObjFault> {
    let words = words_of(line);
    if words.len() == 0 {
        Ok(ObjLineView::Other)
    } else if words[0] == seq!['v'] {
        match vertex_line(words) {
            Ok(vertex) => Ok(ObjLineView::Vertex(vertex)),
            Err(fault) => Err(fault),
        }
    } else if words[0] == seq!['f'] {
        match face_line(words, words.len() as int) {
            Ok(face) => Ok(ObjLineView::Face(face)),
            Err(fault) => Err(fault),
        }
    } else {
        Ok(ObjLineView::Other)
    }
}

/// The vertex in the reserved slot: the origin.
pub open spec fn reserved_vertex() -> ObjVertexView {
    ObjVertexView { x: seq!['0', '.', '0'], y: seq!['0', '.', '0'], z: seq!['0', '.', '0'] }
}

/// The data of an empty text: the reserved slot and no face.
pub open spec fn blank_obj() -> ObjDataView {
    ObjDataView { vertices: seq![reserved_vertex()], faces: Seq::empty() }
}

/// The triangle `t` of the fan of a face: its first vertex and the two at `t + 1` and `t + 2`.
pub open spec fn fan_triangle(face: Seq<usize>, t: int) -> Seq<usize> {
    seq![face[0], face[t + 1], face[t + 2]]
}

/// The fan of a face of `n` vertices: `n - 2` triangles, none where `n` is under 3.
pub open spec fn face_triangles(face: Seq<usize>) -> Seq<Seq<usize>> {
    if face.len() < 3 {
        Seq::empty()
    } else {
        Seq::new((face.len() - 2) as nat, |t: int| fan_triangle(face, t))
    }
}

/// The view of each triangle.
pub open spec fn triangle_views(triangles: Seq<[usize; 3]>) -> Seq<Seq<usize>> {
    Seq::new(triangles.len(), |t: int| triangles[t]@)
}

impl ObjDataView {
    /// The data with what a further line gives.
    pub open spec fn with_line(self, line: ObjLineView) -> ObjDataView {
        match line {
            ObjLineView::Vertex(vertex) => ObjDataView {
                vertices: self.vertices.push(vertex),
                faces: self.faces,
            },
            ObjLineView::Face(face) => ObjDataView {
                vertices: self.vertices,
                faces: self.faces.push(face),
            },
            ObjLineView::Other => self,
        }
    }

    /// How many vertices the text gave.
    pub open spec fn vertex_count(self) -> int {
        self.vertices.len() - 1
    }

    /// The fans of the faces below `n`, in order.
    pub open spec fn triangles_upto(self, n: int) -> Seq<Seq<usize>>
        decreases n,
    {
        if n <= 0 {
            Seq::empty()
        } else {
            self.triangles_upto(n - 1) + face_triangles(self.faces[n - 1])
        }
    }

    /// The fans of all faces, in order.
    pub open spec fn triangles(self) -> Seq<Seq<usize>> {
        self.triangles_upto(self.faces.len() as int)
    }

    /// Whether every corner of every triangle names a vertex that the text
    /// gave, and the vertices are few enough to be counted in 32 bits.
    pub open spec fn indexable(self) -> bool {
        &&& self.vertices.len() >= 1
        &&& self.vertex_count() <= i32::MAX
        &&& forall|t: int, k: int|
            0 <= t < self.triangles().len() && 0 <= k < 3 ==> 1 <= #[trigger] self.triangles()[t][k]
                <= self.vertex_count()
    }

    /// The corners of all triangles in one sequence, counted from 0.
    pub open spec fn corner_indices(self) -> Seq<i32> {
        Seq::new(
            (3 * self.triangles().len()) as nat,
            |c: int| (self.triangles()[c / 3][c % 3] - 1) as i32,
        )
    }
}

/// What the text from position `from` on adds to `data`, line by line, or
/// what is wrong with the first line that is at fault.
pub open spec fn parse_from(s: Seq<char>, from: int, data: ObjDataView) -> Result<
    ObjDataView,
    ObjFault,
>
    decreases s.len() - from,
{
    if from < 0 || from >= s.len() {
        Ok(data)
    } else {
        let end = mark_at(s, '\n', from);
        proof {
            lemma_mark_at_bounds(s, '\n', from);
        }
        match line_item(s.subrange(from, end)) {
            Err(fault) => Err(fault),
            Ok(line) => if end >= s.len() {
                Ok(data.with_line(line))
            } else {
                parse_from(s, end + 1, data.with_line(line))
            },
        }
    }
}

/// What a text gives: its vertices after the reserved slot and its faces,
/// each in the order of their lines, or what is wrong with the first line
/// that is at fault.
pub open spec fn parse_text(s: Seq<char>) -> Result<ObjDataView, ObjFault> {
    parse_from(s, 0, blank_obj())
}

/// The corners of an indexable model come three to a triangle, and each is
/// the index of one of its vertices, counted from 0.
pub proof fn law_corner_indices_name_vertices(data: ObjDataView)
    requires
        data.indexable(),
    ensures
        data.corner_indices().len() == 3 * data.triangles().len(),
        forall|c: int|
            0 <= c < data.corner_indices().len() ==> 0 <= #[trigger] data.corner_indices()[c]
                < data.vertex_count(),
        forall|c: int|
            0 <= c < data.corner_indices().len() ==> #[trigger] data.corner_indices()[c]
                == data.triangles()[c / 3][c % 3] - 1,
{
    assert forall|c: int| 0 <= c < data.corner_indices().len() implies 0
        <= #[trigger] data.corner_indices()[c] < data.vertex_count() && data.corner_indices()[c]
        == data.triangles()[c / 3][c % 3] - 1 by {
    }
}

/// The characters of a string.
pub fn chars_of(text: &str) -> (chars: Vec<char>)
    ensures
        chars@ == text@,
{
    let mut chars: Vec<char> = Vec::new();
    for c in it: text.chars()
        invariant
            it.seq() == text@,
            chars@ == text@.take(it.index()),
    {
        chars.push(c);
    }
    chars
}

/// The string of the given characters.
pub fn string_of(chars: &Vec<char>) -> (text: String)
    ensures
        text@ == chars@,
{
    let mut text = String::new();
    let mut i: usize = 0;
    while i < chars.len()
        invariant
            i <= chars@.len(),
            text@ == chars@.take(i as int),
        decreases chars@.len() - i,
    {
        text.push(chars[i]);
        i = i + 1;
    }
    text
}

/// The error that reports a missing or malformed coordinate.
fn coordinate_error(axis: Axis) -> (e: ObjLoadError)
    ensures
        e.reports(ObjFault::Coordinate(axis)),
{
    match axis {
        Axis::X => ObjLoadError::ParseError("Invalid vertex x coordinate".to_owned()),
        Axis::Y => ObjLoadError::ParseError("Invalid vertex y coordinate".to_owned()),
        Axis::Z => ObjLoadError::ParseError("Invalid vertex z coordinate".to_owned()),
    }
}

/// The error that reports a word of a face that gives no vertex index.
fn face_index_error(word: &Vec<char>) -> (e: ObjLoadError)
    ensures
        e.reports(ObjFault::FaceIndex(word@)),
{
    let mut message = "Invalid face index: ".to_owned();
    let ghost head = message@;
    let mut i: usize = 0;
    while i < word.len()
        invariant
            i <= word@.len(),
            message@ == head + word@.take(i as int),
        decreases word@.len() - i,
    {
        message.push(word[i]);
        i = i + 1;
    }
    assert(word@.take(word@.len() as int) == word@);
    ObjLoadError::ParseError(message)
}

/// The position of the first `mark` in `word`, or its length.
fn find_mark(word: &Vec<char>, mark: char) -> (at: usize)
    ensures
        at == mark_at(word@, mark, 0),
        at <= word@.len(),
{
    let mut at: usize = 0;
    while at < word.len() && word[at] != mark
        invariant
            at <= word@.len(),
            mark_at(word@, mark, at as int) == mark_at(word@, mark, 0),
        decreases word@.len() - at,
    {
        at = at + 1;
    }
    at
}

/// The vertex index that a word of a face gives.
pub fn parse_face_index(word: &Vec<char>) -> (index: Option<usize>)
    ensures
        index == face_index(word@),
{
    let end = find_mark(word, '/');
    parse_usize(word, 0, end)
}

/// The vertex that a line with these words gives.
fn parse_vertex(words: &Vec<Vec<char>>) -> (r: Result<ObjVertex, ObjLoadError>)
    ensures
        match vertex_line(word_views(words@)) {
            Ok(vertex) => r matches Ok(v) && v@ == vertex,
            Err(fault) => r matches Err(e) && e.reports(fault),
        },
{
    if words.len() < 2 || !is_number_word(&words[1]) {
        return Err(coordinate_error(Axis::X));
    }
    if words.len() < 3 || !is_number_word(&words[2]) {
        return Err(coordinate_error(Axis::Y));
    }
    if words.len() < 4 || !is_number_word(&words[3]) {
        return Err(coordinate_error(Axis::Z));
    }
    Ok(ObjVertex { x: string_of(&words[1]), y: string_of(&words[2]), z: string_of(&words[3]) })
}

/// The face that a line with these words gives.
fn parse_face(words: &Vec<Vec<char>>) -> (r: Result<Vec<usize>, ObjLoadError>)
    ensures
        match face_line(word_views(words@), words@.len() as int) {
            Ok(face) => r matches Ok(f) && f@ == face,
            Err(fault) => r matches Err(e) && e.reports(fault),
        },
{
    let ghost views = word_views(words@);
    let mut face: Vec<usize> = Vec::new();
    let mut n: usize = 1;
    if words.len() < 1 {
        return Ok(face);
    }
    while n < words.len()
        invariant
            1 <= n <= words@.len(),
            views == word_views(words@),
            face_line(views, n as int) == Ok::<Seq<usize>, ObjFault>(face@),
        decreases words@.len() - n,
    {
        match parse_face_index(&words[n]) {
            Some(index) => {
                face.push(index);
            },
            None => {
                let e = face_index_error(&words[n]);
                proof {
                    lemma_face_fault_stays(views, n as int + 1, words@.len() as int);
                }
                return Err(e);
            },
        }
        n = n + 1;
    }
    Ok(face)
}

/// Once the words up to the `n`-th are at fault, so are the words up to any later one.
proof fn lemma_face_fault_stays(words: Seq<Seq<char>>, n: int, m: int)
    requires
        n <= m,
        face_line(words, n) is Err,
    ensures
        face_line(words, m) == face_line(words, n),
    decreases m - n,
{
    if n < m {
        lemma_face_fault_stays(words, n, m - 1);
    }
}

/// Reads one line: a vertex, a face, or neither.
pub fn parse_line(line: &Vec<char>) -> (r: Result<ObjLine, ObjLoadError>)
    ensures
        match line_item(line@) {
            Ok(item) => r matches Ok(l) && l@ == item,
            Err(fault) => r matches Err(e) && e.reports(fault),
        },
{
    let words = split_words(line);
    if words.len() == 0 {
        return Ok(ObjLine::Other);
    }
    let first = &words[0];
    if first.len() == 1 && first[0] == 'v' {
        assert(first@ =~= seq!['v']);
        match parse_vertex(&words) {
            Ok(vertex) => Ok(ObjLine::Vertex(vertex)),
            Err(e) => Err(e),
        }
    } else if first.len() == 1 && first[0] == 'f' {
        assert(first@ =~= seq!['f']);
        assert(first@ != seq!['v']) by {
        }
        match parse_face(&words) {
            Ok(face) => Ok(ObjLine::Face(face)),
            Err(e) => Err(e),
        }
    } else {
        assert(first@ != seq!['v']) by {
        }
        assert(first@ != seq!['f']) by {
        }
        Ok(ObjLine::Other)
    }
}

impl ObjData {
    /// The data of an empty text.
    pub fn new() -> (data: ObjData)
        ensures
            data@ == blank_obj(),
    {
        let mut vertices: Vec<ObjVertex> = Vec::new();
        let zero: Vec<char> = vec!['0', '.', '0'];
        vertices.push(ObjVertex { x: string_of(&zero), y: string_of(&zero), z: string_of(&zero) });
        let data = ObjData { vertices, faces: Vec::new() };
        assert(data@.vertices =~= blank_obj().vertices);
        assert(data@.faces =~= blank_obj().faces);
        data
    }

    /// Adds what a further line gives.
    pub fn add_line(&mut self, line: ObjLine)
        ensures
            final(self)@ == old(self)@.with_line(line@),
    {
        match line {
            ObjLine::Vertex(vertex) => {
                self.vertices.push(vertex);
                assert(self@.vertices =~= old(self)@.vertices.push(vertex@));
            },
            ObjLine::Face(face) => {
                self.faces.push(face);
                assert(self@.faces =~= old(self)@.faces.push(face@));
            },
            ObjLine::Other => {},
        }
    }

    /// How many vertices the text gave: the reserved slot is not counted.
    pub fn vertex_count(&self) -> (n: usize)
        requires
            self@.vertices.len() >= 1,
        ensures
            n == self@.vertex_count(),
    {
        self.vertices.len() - 1
    }

    /// How many faces the text gave.
    pub fn face_count(&self) -> (n: usize)
        ensures
            n == self@.faces.len(),
    {
        self.faces.len()
    }

    /// Every face as the triangles of its fan, face after face. A face of
    /// fewer than three vertices gives no triangle.
    pub fn triangulate(&self) -> (triangles: Vec<[usize; 3]>)
        ensures
            triangle_views(triangles@) == self@.triangles(),
    {
        let ghost view = self@;
        let mut triangles: Vec<[usize; 3]> = Vec::new();
        let mut f: usize = 0;
        while f < self.faces.len()
            invariant
                view == self@,
                f <= self.faces@.len(),
                triangle_views(triangles@) == view.triangles_upto(f as int),
            decreases self.faces@.len() - f,
        {
            let face = &self.faces[f];
            let ghost done = triangle_views(triangles@);
            let corners = face.len();
            if corners >= 3 {
                let mut i: usize = 1;
                while i + 1 < corners
                    invariant
                        1 <= i < face@.len(),
                        corners == face@.len(),
                        face@.len() >= 3,
                        triangle_views(triangles@) == done + Seq::new(
                            (i - 1) as nat,
                            |t: int| fan_triangle(face@, t),
                        ),
                    decreases face@.len() - i,
                {
                    let triangle: [usize; 3] = [face[0], face[i], face[i + 1]];
                    let ghost before = triangle_views(triangles@);
                    triangles.push(triangle);
                    assert(triangle_views(triangles@) =~= before.push(triangle@));
                    i = i + 1;
                }
            }
            f = f + 1;
        }
        triangles
    }

    /// Whether the triangles can be turned into corner indices.
    pub fn is_indexable(&self) -> (ok: bool)
        ensures
            ok == self@.indexable(),
    {
        if self.vertices.len() < 1 {
            return false;
        }
        let count = self.vertices.len() - 1;
        if count > 0x7fff_ffff {
            return false;
        }
        let triangles = self.triangulate();
        let ghost views = self@.triangles();
        let mut t: usize = 0;
        while t < triangles.len()
            invariant
                t <= triangles@.len(),
                views == self@.triangles(),
                views == triangle_views(triangles@),
                count == self@.vertex_count(),
                forall|a: int, k: int|
                    0 <= a < t && 0 <= k < 3 ==> 1 <= #[trigger] views[a][k] <= count,
            decreases triangles@.len() - t,
        {
            let triangle = &triangles[t];
            let mut k: usize = 0;
            while k < 3
                invariant
                    k <= 3,
                    t < triangles@.len(),
                    views == self@.triangles(),
                    views == triangle_views(triangles@),
                    count == self@.vertex_count(),
                    triangle@ == views[t as int],
                    forall|j: int| 0 <= j < k ==> 1 <= #[trigger] views[t as int][j] <= count,
                decreases 3 - k,
            {
                let index = triangle[k];
                if index < 1 || index > count {
                    return false;
                }
                k = k + 1;
            }
            t = t + 1;
        }
        true
    }

    /// The corners of all triangles in one sequence, three for each
    /// triangle, as vertex indices counted from 0.
    pub fn triangle_indices(&self) -> (indices: Vec<i32>)
        requires
            self@.indexable(),
        ensures
            indices@ == self@.corner_indices(),
    {
        let triangles = self.triangulate();
        let ghost views = self@.triangles();
        let mut indices: Vec<i32> = Vec::new();
        let mut t: usize = 0;
        while t < triangles.len()
            invariant
                t <= triangles@.len(),
                views == self@.triangles(),
                views == triangle_views(triangles@),
                self@.indexable(),
                indices@.len() == 3 * t,
                forall|c: int|
                    0 <= c < 3 * t ==> #[trigger] indices@[c] == (views[c / 3][c % 3] - 1) as i32,
            decreases triangles@.len() - t,
        {
            let triangle = &triangles[t];
            assert(1 <= views[t as int][2] <= self@.vertex_count());
            indices.push((triangle[0] - 1) as i32);
            indices.push((triangle[1] - 1) as i32);
            indices.push((triangle[2] - 1) as i32);
            t = t + 1;
        }
        indices
    }
}

/// Reads an OBJ text. The result holds the reserved slot, then the vertices
/// in the order of their lines, and the faces in the order of theirs. The
/// first line at fault ends the reading with an error that reports it.
pub fn parse_obj(text: &str) -> (r: Result<ObjData, ObjLoadError>)
    ensures
        match parse_text(text@) {
            Ok(data) => r matches Ok(d) && d@ == data,
            Err(fault) => r matches Err(e) && e.reports(fault),
        },
{
    let chars = chars_of(text);
    let ghost s = chars@;
    let len = chars.len();
    let mut data = ObjData::new();
    let mut pos: usize = 0;
    while pos < len
        invariant
            s == chars@,
            s == text@,
            len == s.len(),
            pos <= len,
            parse_from(s, pos as int, data@) == parse_text(s),
        decreases len - pos,
    {
        let start = pos;
        let mut line: Vec<char> = Vec::new();
        while pos < len && chars[pos] != '\n'
            invariant
                s == chars@,
                len == s.len(),
                start <= pos <= len,
                mark_at(s, '\n', pos as int) == mark_at(s, '\n', start as int),
                line@ == s.subrange(start as int, pos as int),
            decreases len - pos,
        {
            line.push(chars[pos]);
            pos = pos + 1;
        }
        match parse_line(&line) {
            Err(e) => {
                return Err(e);
            },
            Ok(item) => {
                data.add_line(item);
            },
        }
        if pos < len {
            pos = pos + 1;
        }
    }
    Ok(data)
}

} // verus!
