use vstd::prelude::*;
use vstd::string::StringSliceAdditionalSpecFns;

verus! {

/// The byte run `[start, end)` of a token within a line.
#[derive(Debug, Clone, Copy, PartialEq, Eq, Structural)]
pub struct Span {
    pub start: usize,
    pub end: usize,
}

/// ASCII whitespace, which separates the tokens of a line.
pub open spec fn is_space(b: u8) -> bool {
    b == 0x20 || (0x09 <= b && b <= 0x0d)
}

fn is_space_exec(b: u8) -> (r: bool)
    ensures
        r == is_space(b),
{
    b == 0x20 || (0x09 <= b && b <= 0x0d)
}

/// The maximal runs of non-whitespace bytes of `s`, from left to right.
pub open spec fn tokens(s: Seq<u8>) -> Seq<Span>
    decreases s.len(),
{
    if s.len() == 0 {
        seq![]
    } else {
        let n = s.len() - 1;
        let prev = tokens(s.take(n));
        if is_space(s[n]) {
            prev
        } else if n > 0 && !is_space(s[n - 1]) {
            prev.update(prev.len() - 1, Span { start: prev.last().start, end: s.len() as usize })
        } else {
            prev.push(Span { start: n as usize, end: (n + 1) as usize })
        }
    }
}

/// Splits `s` at ASCII whitespace.
fn split_tokens(s: &[u8]) -> (r: Vec<Span>)
    ensures
        r@ == tokens(s@),
        forall|k: int| 0 <= k < r@.len() ==> (#[trigger] r@[k]).start < r@[k].end <= s@.len(),
{
    let mut r: Vec<Span> = Vec::new();
    let mut i: usize = 0;
    while i < s.len()
        invariant
            i <= s@.len(),
            r@ == tokens(s@.take(i as int)),
            i > 0 && !is_space(s@[i - 1]) ==> r@.len() > 0 && r@.last().end == i,
            forall|k: int| 0 <= k < r@.len() ==> (#[trigger] r@[k]).start < r@[k].end <= i,
        decreases s@.len() - i,
    {
        proof {
            assert(s@.take(i + 1).take(i as int) =~= s@.take(i as int));
        }
        let b = s[i];
        if is_space_exec(b) {
        } else if i > 0 && !is_space_exec(s[i - 1]) {
            let last = r.len() - 1;
            let start = r[last].start;
            r.set(last, Span { start, end: i + 1 });
        } else {
            r.push(Span { start: i, end: i + 1 });
        }
        i = i + 1;
    }
    proof {
        assert(s@.take(s@.len() as int) =~= s@);
    }
    r
}

pub open spec fn is_digit(b: u8) -> bool {
    0x30 <= b && b <= 0x39
}

pub open spec fn all_digits(d: Seq<u8>) -> bool {
    forall|j: int| 0 <= j < d.len() ==> is_digit(#[trigger] d[j])
}

/// The value of a run of decimal digits.
pub open spec fn digits_value(d: Seq<u8>) -> nat
    decreases d.len(),
{
    if d.len() == 0 {
        0
    } else {
        digits_value(d.drop_last()) * 10 + (d.last() - 0x30) as nat
    }
}

/// An unsigned decimal number as `usize`'s `FromStr` reads it: an optional `+`, then one or
/// more digits, of a value that fits in a `usize`.
pub open spec fn parse_usize(t: Seq<u8>) -> Option<nat> {
    parse_digits(
        if t.len() > 0 && t[0] == 0x2b {
            t.drop_first()
        } else {
            t
        },
    )
}

/// One or more decimal digits, of a value that fits in a `usize`.
pub open spec fn parse_digits(d: Seq<u8>) -> Option<nat> {
    if d.len() > 0 && all_digits(d) && digits_value(d) <= usize::MAX {
        Some(digits_value(d))
    } else {
        None
    }
}

/// A digit string is worth at least as much as any of its prefixes.
proof fn lemma_digits_prefix(d: Seq<u8>, k: int)
    requires
        0 <= k <= d.len(),
    ensures
        digits_value(d.take(k)) <= digits_value(d),
    decreases d.len(),
{
    if k < d.len() {
        assert(d.take(k) =~= d.drop_last().take(k));
        lemma_digits_prefix(d.drop_last(), k);
    } else {
        assert(d.take(k) =~= d);
    }
}

/// Reads `s[start..end]` as an unsigned decimal number.
fn parse_usize_exec(s: &[u8], start: usize, end: usize) -> (r: Option<usize>)
    requires
        start <= end <= s@.len(),
    ensures
        match parse_usize(s@.subrange(start as int, end as int)) {
            Some(v) => r == Some(v as usize),
            None => r is None,
        },
{
    let ghost t = s@.subrange(start as int, end as int);
    let mut first = start;
    if start < end && s[start] == 0x2b {
        first = start + 1;
    }
    let ghost d = s@.subrange(first as int, end as int);
    proof {
        if start < end {
            assert(t[0] == s@[start as int]);
        }
        if start < end && s@[start as int] == 0x2b {
            assert(d =~= t.drop_first());
        } else {
            assert(d =~= t);
        }
    }
    if first == end {
        proof {
            assert(d.len() == 0);
            assert(parse_usize(t) is None);
        }
        return None;
    }
    let mut v: usize = 0;
    let mut i: usize = first;
    while i < end
        invariant
            first <= i <= end <= s@.len(),
            d == s@.subrange(first as int, end as int),
            parse_usize(t) == parse_digits(d),
            t == s@.subrange(start as int, end as int),
            start <= first,
            all_digits(s@.subrange(first as int, i as int)),
            v == digits_value(s@.subrange(first as int, i as int)),
        decreases end - i,
    {
        let ghost pre = s@.subrange(first as int, i as int);
        let ghost next = s@.subrange(first as int, i + 1);
        proof {
            assert(next.drop_last() =~= pre);
            assert(next.last() == s@[i as int]);
            assert(next =~= d.take(i + 1 - first));
        }
        let b = s[i];
        if b < 0x30 || b > 0x39 {
            proof {
                assert(d[i - first] == b);
                assert(!is_digit(d[i - first]));
                assert(!all_digits(d));
                assert(parse_usize(t) is None);
            }
            return None;
        }
        let digit = (b - 0x30) as usize;
        if v > (usize::MAX - digit) / 10 {
            proof {
                assert(v * 10 + digit > usize::MAX) by (nonlinear_arith)
                    requires
                        v > (usize::MAX - digit) / 10,
                        digit <= 9,
                ;
                assert(digits_value(next) == v * 10 + digit);
                lemma_digits_prefix(d, i + 1 - first);
                assert(digits_value(d) > usize::MAX);
                assert(parse_usize(t) is None);
            }
            return None;
        }
        proof {
            assert(v * 10 + digit <= usize::MAX) by (nonlinear_arith)
                requires
                    v <= (usize::MAX - digit) / 10,
                    digit <= 9,
            ;
            assert forall|j: int| 0 <= j < next.len() implies is_digit(#[trigger] next[j]) by {
                if j < pre.len() {
                    assert(next[j] == pre[j]);
                }
            }
        }
        v = v * 10 + digit;
        i = i + 1;
    }
    proof {
        assert(s@.subrange(first as int, i as int) =~= d);
    }
    Some(v)
}

/// Number of bytes of `t` equal to `b`.
pub open spec fn count_byte(t: Seq<u8>, b: u8) -> nat
    decreases t.len(),
{
    if t.len() == 0 {
        0
    } else {
        count_byte(t.drop_last(), b) + if t.last() == b {
            1nat
        } else {
            0nat
        }
    }
}

/// Position of the first byte of `t` equal to `b`, or `t.len()` where there is none.
pub open spec fn first_of(t: Seq<u8>, b: u8) -> nat
    decreases t.len(),
{
    if t.len() == 0 {
        0
    } else {
        let p = t.drop_last();
        if first_of(p, b) < p.len() {
            first_of(p, b)
        } else if t.last() == b {
            p.len()
        } else {
            t.len()
        }
    }
}

/// A face's vertex reference `v/vt/vn`: three fields separated by `/`, the first a 1-based
/// vertex number. The zero-based vertex index it names.
pub open spec fn face_vertex(t: Seq<u8>) -> Option<nat> {
    if count_byte(t, 0x2f) == 2 {
        match parse_usize(t.take(first_of(t, 0x2f) as int)) {
            Some(v) => if v >= 1 {
                Some((v - 1) as nat)
            } else {
                None
            },
            None => None,
        }
    } else {
        None
    }
}

fn face_vertex_exec(s: &[u8], span: Span) -> (r: Option<usize>)
    requires
        span.start <= span.end <= s@.len(),
    ensures
        match face_vertex(s@.subrange(span.start as int, span.end as int)) {
            Some(v) => r == Some(v as usize),
            None => r is None,
        },
{
    let ghost t = s@.subrange(span.start as int, span.end as int);
    let mut count: usize = 0;
    let mut f: usize = 0;
    let mut i: usize = span.start;
    while i < span.end
        invariant
            span.start <= i <= span.end <= s@.len(),
            count <= i - span.start,
            count == count_byte(s@.subrange(span.start as int, i as int), 0x2f),
            f == first_of(s@.subrange(span.start as int, i as int), 0x2f),
            f <= i - span.start,
        decreases span.end - i,
    {
        let ghost next = s@.subrange(span.start as int, i + 1);
        proof {
            assert(next.drop_last() =~= s@.subrange(span.start as int, i as int));
            assert(next.last() == s@[i as int]);
        }
        if s[i] == 0x2f {
            count = count + 1;
        } else if f == i - span.start {
            f = f + 1;
        }
        i = i + 1;
    }
    proof {
        assert(s@.subrange(span.start as int, i as int) =~= t);
    }
    if count != 2 {
        return None;
    }
    proof {
        assert(t.take(f as int) =~= s@.subrange(span.start as int, span.start + f));
    }
    match parse_usize_exec(s, span.start, span.start + f) {
        Some(v) => if v >= 1 {
            Some(v - 1)
        } else {
            None
        },
        None => None,
    }
}

/// What one line of a Wavefront OBJ file declares.
#[derive(Debug, Clone, Copy, PartialEq, Eq, Structural)]
pub enum ObjLine {
    /// An empty line, a line of whitespace, or a `#` comment.
    Blank,
    /// `v x y z`: a vertex, with the byte spans of its three coordinates.
    Vertex(Span, Span, Span),
    /// `f a b c`: a triangle, with the zero-based indices of its vertices.
    Face(usize, usize, usize),
    /// A statement that a mesh of triangles does not use.
    Other,
}

/// Why a line of an OBJ file cannot be read.
#[derive(Debug, Clone, Copy, PartialEq, Eq, Structural)]
pub enum ObjError {
    /// A vertex without exactly three coordinates.
    VertexArity,
    /// A face without exactly three vertices.
    FaceArity,
    /// A face vertex that is not `v/vt/vn` with `v` a vertex number from 1 on.
    FaceVertex,
}

/// The bytes of `s` that `span` covers.
pub open spec fn text(s: Seq<u8>, span: Span) -> Seq<u8> {
    s.subrange(span.start as int, span.end as int)
}

/// How the line `s` (without its line break) reads.
pub open spec fn spec_parse_line(s: Seq<u8>) -> Result<ObjLine, ObjError> {
    let t = tokens(s);
    if s.len() == 0 || s[0] == 0x23 || t.len() == 0 {
        Ok(ObjLine::Blank)
    } else if text(s, t[0]) == seq![0x76u8] {
        if t.len() == 4 {
            Ok(ObjLine::Vertex(t[1], t[2], t[3]))
        } else {
            Err(ObjError::VertexArity)
        }
    } else if text(s, t[0]) == seq![0x66u8] {
        if t.len() != 4 {
            Err(ObjError::FaceArity)
        } else {
            match (
                face_vertex(text(s, t[1])),
                face_vertex(text(s, t[2])),
                face_vertex(text(s, t[3])),
            ) {
                (Some(a), Some(b), Some(c)) => Ok(ObjLine::Face(a as usize, b as usize, c as usize)),
                _ => Err(ObjError::FaceVertex),
            }
        }
    } else {
        Ok(ObjLine::Other)
    }
}

/// Whether the token `span` of `s` is the single byte `b`.
fn is_keyword(s: &[u8], span: Span, b: u8) -> (r: bool)
    requires
        span.start < span.end <= s@.len(),
    ensures
        r == (text(s@, span) == seq![b]),
{
    let r = span.end - span.start == 1 && s[span.start] == b;
    proof {
        if r {
            assert(text(s@, span) =~= seq![b]);
        } else if text(s@, span) == seq![b] {
            assert(seq![b].len() == 1 && seq![b][0] == b);
            assert(text(s@, span).len() == 1);
            assert(text(s@, span)[0] == s@[span.start as int]);
        }
    }
    r
}

/// Reads one line of a Wavefront OBJ file, given without its line break.
pub fn parse_line(line: &str) -> (r: Result<ObjLine, ObjError>)
    ensures
        r == spec_parse_line(line.spec_bytes()),
{
    let s = line.as_bytes();
    let t = split_tokens(s);
    if s.len() == 0 || s[0] == 0x23 || t.len() == 0 {
        return Ok(ObjLine::Blank);
    }
    if is_keyword(s, t[0], 0x76) {
        if t.len() == 4 {
            Ok(ObjLine::Vertex(t[1], t[2], t[3]))
        } else {
            Err(ObjError::VertexArity)
        }
    } else if is_keyword(s, t[0], 0x66) {
        if t.len() != 4 {
            return Err(ObjError::FaceArity);
        }
        let a = face_vertex_exec(s, t[1]);
        let b = face_vertex_exec(s, t[2]);
        let c = face_vertex_exec(s, t[3]);
        match (a, b, c) {
            (Some(a), Some(b), Some(c)) => Ok(ObjLine::Face(a, b, c)),
            _ => Err(ObjError::FaceVertex),
        }
    } else {
        Ok(ObjLine::Other)
    }
}

} // verus!
