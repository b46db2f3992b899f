//! Path templates: the pattern half of a route binding.
//!
//! A template is written like a path. A segment in braces, as in
//! `/{index}/_search`, stands for any one non-empty segment; every other
//! segment stands for itself. Matching is exact: the same number of
//! segments, each accepted in place.

use vstd::prelude::*;
use vstd::slice::*;
use vstd::string::*;
use crate::path::{
    contents,
    join,
    same_bytes,
    segments,
    segments_are_slash_free,
    segments_nonempty,
    segments_of_join,
    slash_free,
    split,
    SLASH,
};

verus! {

/// The byte that opens a parameter segment.
pub const OPEN_BRACE: u8 = 123;

/// The byte that closes a parameter segment.
pub const CLOSE_BRACE: u8 = 125;

/// One segment of a template.
#[derive(Debug)]
pub enum Segment {
    /// Accepts the segment that equals these bytes.
    Literal(Vec<u8>),
    /// Accepts any segment that is not empty.
    Param,
}

/// What a template segment is, as a value of the model.
pub enum SegmentView {
    Literal(Seq<u8>),
    Param,
}

impl View for Segment {
    type V = SegmentView;

    open spec fn view(&self) -> SegmentView {
        match self {
            Segment::Literal(text) => SegmentView::Literal(text@),
            Segment::Param => SegmentView::Param,
        }
    }
}

/// Why a text is not a template.
#[derive(Clone, Copy, Debug, PartialEq, Eq, Structural)]
pub enum TemplateError {
    /// The text does not begin with a slash.
    NotAbsolute,
    /// A segment holds a brace without being a name in one pair of braces.
    Malformed,
}

/// Whether the byte is one of the two braces.
pub open spec fn is_brace(byte: u8) -> bool {
    byte == OPEN_BRACE || byte == CLOSE_BRACE
}

/// No byte of the text is a brace.
pub open spec fn brace_free(text: Seq<u8>) -> bool {
    forall|k: int| 0 <= k < text.len() ==> !is_brace(#[trigger] text[k])
}

/// The segment that a piece of template text denotes: a literal where it
/// holds no brace, a parameter where it is a non-empty brace-free name in
/// one pair of braces, and nothing otherwise.
pub open spec fn classify(text: Seq<u8>) -> Option<SegmentView> {
    if brace_free(text) {
        Some(SegmentView::Literal(text))
    } else if text.len() >= 3 && text[0] == OPEN_BRACE && text[text.len() - 1] == CLOSE_BRACE
        && brace_free(text.subrange(1, text.len() - 1)) {
        Some(SegmentView::Param)
    } else {
        None
    }
}

/// Every piece denotes a segment.
pub open spec fn all_classified(parts: Seq<Seq<u8>>) -> bool {
    forall|i: int| 0 <= i < parts.len() ==> (#[trigger] classify(parts[i])) is Some
}

/// The template that a text denotes, or the reason it denotes none.
pub open spec fn parse_template(text: Seq<u8>) -> Result<Seq<SegmentView>, TemplateError> {
    let parts = segments(text);
    if text.len() == 0 || text[0] != SLASH {
        Err(TemplateError::NotAbsolute)
    } else if all_classified(parts) {
        Ok(parts.map_values(|part: Seq<u8>| classify(part).unwrap()))
    } else {
        Err(TemplateError::Malformed)
    }
}

/// Whether a template segment accepts a path segment.
pub open spec fn segment_accepts(pattern: SegmentView, segment: Seq<u8>) -> bool {
    match pattern {
        SegmentView::Literal(text) => segment == text,
        SegmentView::Param => segment.len() > 0,
    }
}

/// Whether a template accepts a path already cut into segments.
pub open spec fn accepts_parts(template: Seq<SegmentView>, parts: Seq<Seq<u8>>) -> bool {
    &&& parts.len() == template.len()
    &&& forall|i: int| 0 <= i < parts.len() ==> segment_accepts(template[i], #[trigger] parts[i])
}

/// Whether a template accepts a path.
pub open spec fn template_accepts(template: Seq<SegmentView>, path: Seq<u8>) -> bool {
    accepts_parts(template, segments(path))
}

/// Whether some segment is accepted by both template segments.
pub open spec fn segments_overlap(a: SegmentView, b: SegmentView) -> bool {
    match (a, b) {
        (SegmentView::Literal(x), SegmentView::Literal(y)) => x == y,
        (SegmentView::Literal(x), SegmentView::Param) => x.len() > 0,
        (SegmentView::Param, SegmentView::Literal(y)) => y.len() > 0,
        (SegmentView::Param, SegmentView::Param) => true,
    }
}

/// Whether two templates have the same length and overlap segment by
/// segment.
pub open spec fn templates_overlap(a: Seq<SegmentView>, b: Seq<SegmentView>) -> bool {
    &&& a.len() == b.len()
    &&& forall|i: int| 0 <= i < a.len() ==> segments_overlap(#[trigger] a[i], b[i])
}

/// Two templates that accept one path overlap.
pub proof fn accepting_templates_overlap(a: Seq<SegmentView>, b: Seq<SegmentView>, path: Seq<u8>)
    requires
        template_accepts(a, path),
        template_accepts(b, path),
    ensures
        templates_overlap(a, b),
{
    let parts = segments(path);
    assert forall|i: int| 0 <= i < a.len() implies segments_overlap(#[trigger] a[i], b[i]) by {
        assert(segment_accepts(a[i], parts[i]));
        assert(segment_accepts(b[i], parts[i]));
    }
}

/// A segment that both template segments accept, where they overlap: the
/// literal where one of them is a literal, and the one letter `x` where
/// both are parameters.
pub open spec fn common_segment(a: SegmentView, b: SegmentView) -> Seq<u8> {
    match (a, b) {
        (SegmentView::Literal(x), _) => x,
        (SegmentView::Param, SegmentView::Literal(y)) => y,
        (SegmentView::Param, SegmentView::Param) => seq![120u8],
    }
}

/// The template has a segment, and no literal of it holds a slash.
pub open spec fn well_formed(template: Seq<SegmentView>) -> bool {
    &&& template.len() >= 1
    &&& forall|i: int|
        0 <= i < template.len() ==> (#[trigger] template[i] matches SegmentView::Literal(text)
            ==> slash_free(text))
}

/// Every template that a text denotes is well formed.
pub proof fn parsed_template_is_well_formed(text: Seq<u8>, template: Seq<SegmentView>)
    requires
        parse_template(text) == Ok::<Seq<SegmentView>, TemplateError>(template),
    ensures
        well_formed(template),
{
    let parts = segments(text);
    segments_nonempty(text);
    segments_are_slash_free(text);
    assert forall|i: int| 0 <= i < template.len() implies (#[trigger] template[i] matches SegmentView::Literal(
        literal,
    ) ==> slash_free(literal)) by {
        assert(classify(parts[i]) is Some);
        assert(template[i] == classify(parts[i]).unwrap());
        assert(slash_free(parts[i]));
    }
}

/// Two well-formed templates that overlap accept a common path, so a
/// conflict between bindings is never a false alarm.
pub proof fn overlapping_templates_share_a_path(a: Seq<SegmentView>, b: Seq<SegmentView>)
    requires
        well_formed(a),
        well_formed(b),
        templates_overlap(a, b),
    ensures
        exists|path: Seq<u8>| template_accepts(a, path) && template_accepts(b, path),
{
    let parts = Seq::new(a.len(), |i: int| common_segment(a[i], b[i]));
    assert forall|i: int| 0 <= i < parts.len() implies slash_free(#[trigger] parts[i]) by {
        assert(segments_overlap(a[i], b[i]));
        match (a[i], b[i]) {
            (SegmentView::Literal(x), _) => {},
            (SegmentView::Param, SegmentView::Literal(y)) => {},
            (SegmentView::Param, SegmentView::Param) => {
                assert(seq![120u8][0] == 120u8);
            },
        }
    }
    segments_of_join(parts);
    let path = join(parts);
    assert forall|i: int| 0 <= i < parts.len() implies segment_accepts(a[i], #[trigger] parts[i])
        && segment_accepts(b[i], parts[i]) by {
        assert(segments_overlap(a[i], b[i]));
        assert(parts[i] == common_segment(a[i], b[i]));
        assert(seq![120u8].len() == 1);
    }
    assert(template_accepts(a, path) && template_accepts(b, path));
}

/// Whether no byte of `text` from `from` up to `to` is a brace.
fn brace_free_between(text: &[u8], from: usize, to: usize) -> (free: bool)
    requires
        from <= to <= text@.len(),
    ensures
        free == brace_free(text@.subrange(from as int, to as int)),
{
    let ghost window = text@.subrange(from as int, to as int);
    let mut i: usize = from;
    while i < to
        invariant
            from <= i <= to <= text@.len(),
            window == text@.subrange(from as int, to as int),
            forall|k: int| 0 <= k < i - from ==> !is_brace(#[trigger] window[k]),
        decreases to - i,
    {
        if text[i] == OPEN_BRACE || text[i] == CLOSE_BRACE {
            assert(is_brace(window[i - from]));
            return false;
        }
        i += 1;
    }
    true
}

impl Segment {
    /// Reads one piece of template text.
    pub fn parse(text: &[u8]) -> (r: Option<Segment>)
        ensures
            match r {
                Some(segment) => classify(text@) == Some(segment@),
                None => classify(text@) is None,
            },
    {
        let n = text.len();
        assert(text@.subrange(0, n as int) =~= text@);
        if brace_free_between(text, 0, n) {
            Some(Segment::Literal(slice_to_vec(text)))
        } else if n >= 3 && text[0] == OPEN_BRACE && text[n - 1] == CLOSE_BRACE
            && brace_free_between(text, 1, n - 1) {
            Some(Segment::Param)
        } else {
            None
        }
    }

    /// Whether this segment accepts a path segment.
    pub fn accepts(&self, segment: &[u8]) -> (yes: bool)
        ensures
            yes == segment_accepts(self@, segment@),
    {
        match self {
            Segment::Literal(text) => same_bytes(segment, text.as_slice()),
            Segment::Param => segment.len() > 0,
        }
    }

    /// Whether some segment is accepted by both.
    pub fn overlaps(&self, other: &Segment) -> (yes: bool)
        ensures
            yes == segments_overlap(self@, other@),
    {
        match self {
            Segment::Literal(x) => match other {
                Segment::Literal(y) => same_bytes(x.as_slice(), y.as_slice()),
                Segment::Param => x.len() > 0,
            },
            Segment::Param => match other {
                Segment::Literal(y) => y.len() > 0,
                Segment::Param => true,
            },
        }
    }
}

/// A parsed path template.
#[derive(Debug)]
pub struct Template {
    segments: Vec<Segment>,
}

impl View for Template {
    type V = Seq<SegmentView>;

    closed spec fn view(&self) -> Seq<SegmentView> {
        self.segments@.map_values(|segment: Segment| segment@)
    }
}

impl Template {
    /// The invariant of every template: it has a segment, and no literal
    /// of it holds a slash.
    #[verifier::type_invariant]
    pub open spec fn is_well_formed(self) -> bool {
        well_formed(self@)
    }

    /// Reads a template. The text must begin with a slash, and each of its
    /// segments must be a literal without braces or a name in braces.
    pub fn parse(text: &str) -> (r: Result<Template, TemplateError>)
        ensures
            match r {
                Ok(template) => parse_template(text.spec_bytes()) == Ok::<
                    Seq<SegmentView>,
                    TemplateError,
                >(template@) && well_formed(template@),
                Err(e) => parse_template(text.spec_bytes()) == Err::<Seq<SegmentView>, TemplateError>(e),
            },
    {
        let bytes = text.as_bytes();
        if bytes.len() == 0 || bytes[0] != SLASH {
            return Err(TemplateError::NotAbsolute);
        }
        let parts = split(bytes);
        let ghost pieces = segments(bytes@);
        let mut out: Vec<Segment> = Vec::new();
        let mut i: usize = 0;
        while i < parts.len()
            invariant
                0 <= i <= parts.len(),
                bytes@ == text.spec_bytes(),
                bytes@.len() > 0 && bytes@[0] == SLASH,
                pieces == segments(bytes@),
                contents(parts@) == pieces,
                out@.len() == i,
                forall|k: int| 0 <= k < i ==> classify(pieces[k]) == Some(#[trigger] out@[k]@),
            decreases parts.len() - i,
        {
            assert(pieces[i as int] == parts@[i as int]@);
            match Segment::parse(parts[i].as_slice()) {
                Some(segment) => {
                    out.push(segment);
                },
                None => {
                    assert(classify(pieces[i as int]) is None);
                    assert(!all_classified(pieces));
                    return Err(TemplateError::Malformed);
                },
            }
            i += 1;
        }
        proof {
            let denoted = pieces.map_values(|part: Seq<u8>| classify(part).unwrap());
            assert forall|k: int| 0 <= k < pieces.len() implies (#[trigger] classify(
                pieces[k],
            )) is Some by {
                assert(classify(pieces[k]) == Some(out@[k]@));
            }
            assert(out@.map_values(|segment: Segment| segment@) =~= denoted);
            parsed_template_is_well_formed(bytes@, denoted);
        }
        Ok(Template { segments: out })
    }

    /// Number of segments.
    pub fn len(&self) -> (n: usize)
        ensures
            n == self@.len(),
    {
        self.segments.len()
    }

    /// Whether the template accepts a path already cut into segments.
    pub fn accepts_parts(&self, parts: &Vec<Vec<u8>>) -> (yes: bool)
        ensures
            yes == accepts_parts(self@, contents(parts@)),
    {
        if parts.len() != self.segments.len() {
            return false;
        }
        let mut i: usize = 0;
        while i < parts.len()
            invariant
                0 <= i <= parts.len(),
                parts.len() == self.segments.len(),
                forall|k: int|
                    0 <= k < i ==> segment_accepts(self@[k], #[trigger] contents(parts@)[k]),
            decreases parts.len() - i,
        {
            if !self.segments[i].accepts(parts[i].as_slice()) {
                assert(!segment_accepts(self@[i as int], contents(parts@)[i as int]));
                return false;
            }
            i += 1;
        }
        true
    }

    /// Whether the template accepts a path.
    pub fn accepts(&self, path: &str) -> (yes: bool)
        ensures
            yes == template_accepts(self@, path.spec_bytes()),
    {
        let parts = split(path.as_bytes());
        self.accepts_parts(&parts)
    }

    /// Whether the two templates overlap.
    pub fn overlaps(&self, other: &Template) -> (yes: bool)
        ensures
            yes == templates_overlap(self@, other@),
    {
        if self.segments.len() != other.segments.len() {
            return false;
        }
        let mut i: usize = 0;
        while i < self.segments.len()
            invariant
                0 <= i <= self.segments.len(),
                self.segments.len() == other.segments.len(),
                forall|k: int| 0 <= k < i ==> segments_overlap(#[trigger] self@[k], other@[k]),
            decreases self.segments.len() - i,
        {
            if !self.segments[i].overlaps(&other.segments[i]) {
                assert(!segments_overlap(self@[i as int], other@[i as int]));
                return false;
            }
            i += 1;
        }
        true
    }
}

} // verus!
