//! Syntactic constructs and related data structures.

use crate::decimal::{decimal, decimal_string};
use std::rc::Rc;
use vstd::prelude::*;
use vstd::std_specs::cmp::PartialEqSpec;
use vstd::string::*;

verus! {

/// A location in source code.
///
/// Stores both the bytewise position and the logical line and character
/// numbers. Nothing ties the three to one another: keeping them consistent
/// with a source text is up to whoever builds the value.
#[derive(Debug, Clone, Copy, PartialEq, Eq, Structural, Hash)]
pub struct Loc {
    /// 0-based byte index.
    pub pos: usize,
    /// 0-based line number.
    pub row: usize,
    /// 0-based character number on the line.
    pub col: usize,
}

impl Loc {
    /// The location of the first byte of a source text.
    pub open spec fn origin() -> Loc {
        Loc { pos: 0, row: 0, col: 0 }
    }

    /// The earlier of two locations by byte position; `self` on a tie.
    pub open spec fn spec_min(self, loc: Loc) -> Loc {
        if self.pos <= loc.pos {
            self
        } else {
            loc
        }
    }

    /// The later of two locations by byte position; `self` on a tie.
    pub open spec fn spec_max(self, loc: Loc) -> Loc {
        if self.pos >= loc.pos {
            self
        } else {
            loc
        }
    }

    /// Creates a new `Loc` with the given positions.
    #[inline]
    pub fn new(pos: usize, row: usize, col: usize) -> (loc: Loc)
        ensures
            loc == (Loc { pos, row, col }),
    {
        Loc { pos, row, col }
    }

    /// Creates a new `Loc` pointing to the first byte of the source code
    /// (`pos`, `row`, and `col` all zero).
    #[inline]
    pub fn zero() -> (loc: Loc)
        ensures
            loc == Loc::origin(),
    {
        Loc { pos: 0, row: 0, col: 0 }
    }

    /// Returns whichever of the two locations has the smaller `pos`, and
    /// `self` when they are equal.
    #[inline]
    #[verifier::when_used_as_spec(spec_min)]
    pub fn min(self, loc: Loc) -> (res: Loc)
        ensures
            res == self.spec_min(loc),
    {
        if self.pos <= loc.pos {
            self
        } else {
            loc
        }
    }

    /// Returns whichever of the two locations has the larger `pos`, and
    /// `self` when they are equal.
    #[inline]
    #[verifier::when_used_as_spec(spec_max)]
    pub fn max(self, loc: Loc) -> (res: Loc)
        ensures
            res == self.spec_max(loc),
    {
        if self.pos >= loc.pos {
            self
        } else {
            loc
        }
    }
}

impl Default for Loc {
    #[inline]
    fn default() -> (loc: Loc)
        ensures
            loc == Loc::origin(),
    {
        Loc { pos: 0, row: 0, col: 0 }
    }
}

/// A region of source code.
///
/// A pair of locations, representing a half-open range, and a file name,
/// identifying the source code in which this region appears. Nothing stops
/// a span from being built with its end before its start; `is_ordered` says
/// when it was not.
#[derive(Debug, Eq, Hash)]
pub struct SpanT<F> {
    /// The name of the source code.
    ///
    /// Often a file name, but can be an arbitrary string like `<input>` or
    /// even any other type.
    pub file_name: F,
    /// The (inclusive) starting location.
    pub start: Loc,
    /// The (exclusive) ending location.
    pub end: Loc,
}

impl<F: Clone> Clone for SpanT<F> {
    /// Clones the file name and copies the two locations.
    fn clone(&self) -> (span: Self)
        ensures
            cloned::<F>(self.file_name, span.file_name),
            span.start == self.start,
            span.end == self.end,
    {
        SpanT { file_name: self.file_name.clone(), start: self.start, end: self.end }
    }
}

impl<F: Copy> Copy for SpanT<F> {
}

impl<F: PartialEq> PartialEq for SpanT<F> {
    /// Two spans are equal when their file names are, by the file names'
    /// own `==`, and their locations are the same.
    fn eq(&self, other: &Self) -> (res: bool) {
        self.file_name == other.file_name && self.start == other.start && self.end == other.end
    }
}

impl<F: PartialEq> vstd::std_specs::cmp::PartialEqSpecImpl for SpanT<F> {
    open spec fn obeys_eq_spec() -> bool {
        F::obeys_eq_spec()
    }

    open spec fn eq_spec(&self, other: &Self) -> bool {
        self.file_name.eq_spec(&other.file_name) && self.start == other.start && self.end
            == other.end
    }
}

/// A `SpanT` with a borrowed string file name.
///
/// Cheap to copy, and so the form of choice while scanning and parsing. If
/// the span must own its file name, use [`SpanRc`] instead.
pub type Span<'f> = SpanT<&'f str>;

/// A `SpanT` with a reference-counted file name.
///
/// Useful for creating spans which own their file name, but more expensive
/// to clone than a regular [`Span`].
pub type SpanRc = SpanT<Rc<String>>;

impl<F> SpanT<F> {
    /// Whether the span's start does not lie after its end.
    pub open spec fn is_ordered(self) -> bool {
        self.start.pos <= self.end.pos
    }

    /// Whether the span designates a single point rather than a range.
    pub open spec fn is_empty(self) -> bool {
        self.start == self.end
    }

    /// Whether the byte range of `self` contains the byte range of `span`.
    pub open spec fn covers(self, span: SpanT<F>) -> bool {
        self.start.pos <= span.start.pos && span.end.pos <= self.end.pos
    }

    /// The span over the file of `self` that starts at the earlier of the
    /// two starts and ends at the later of the two ends.
    pub open spec fn spec_extend_to_cover(self, span: SpanT<F>) -> SpanT<F> {
        SpanT {
            file_name: self.file_name,
            start: self.start.spec_min(span.start),
            end: self.end.spec_max(span.end),
        }
    }

    /// Creates a new `SpanT` with the given file name and locations, taken
    /// as they are.
    #[inline]
    pub fn new(file_name: F, start: Loc, end: Loc) -> (span: Self)
        ensures
            span == (SpanT { file_name, start, end }),
    {
        SpanT { file_name, start, end }
    }

    /// Creates an empty `SpanT` at the given location, with the given file
    /// name.
    #[inline]
    pub fn empty(file_name: F, loc: Loc) -> (span: Self)
        ensures
            span == (SpanT { file_name, start: loc, end: loc }),
            span.is_empty(),
            span.is_ordered(),
    {
        SpanT::new(file_name, loc, loc)
    }

    /// Creates an empty `SpanT` with the given file name, pointing to the
    /// first position in the file.
    #[inline]
    pub fn zero(file_name: F) -> (span: Self)
        ensures
            span == (SpanT { file_name, start: Loc::origin(), end: Loc::origin() }),
            span.is_empty(),
            span.is_ordered(),
    {
        SpanT::new(file_name, Loc::zero(), Loc::zero())
    }

    /// Widens `self` so that it covers `span` as well. The file name of
    /// `self` is kept and that of `span` is dropped.
    #[inline]
    #[verifier::when_used_as_spec(spec_extend_to_cover)]
    pub fn extend_to_cover(self, span: SpanT<F>) -> (res: Self)
        ensures
            res == self.spec_extend_to_cover(span),
    {
        SpanT {
            file_name: self.file_name,
            start: self.start.min(span.start),
            end: self.end.max(span.end),
        }
    }

    /// Returns the same range under another file name, of any type.
    #[inline]
    pub fn with_file_name<T>(&self, file_name: T) -> (span: SpanT<T>)
        ensures
            span == (SpanT { file_name, start: self.start, end: self.end }),
    {
        SpanT { file_name, start: self.start, end: self.end }
    }
}

impl<'f> Span<'f> {
    /// Converts a `Span` into a [`SpanRc`] by cloning the borrowed file name.
    pub fn with_rc(&self) -> (span: SpanRc)
        ensures
            span.file_name@ == self.file_name@,
            span.start == self.start,
            span.end == self.end,
            span.rendering() == self.rendering(),
    {
        SpanT::new(Rc::new(self.file_name.to_owned()), self.start, self.end)
    }

    /// Converts a `Span` into a [`SpanT`] which owns its data by cloning the
    /// borrowed file name.
    pub fn with_owned(&self) -> (span: SpanT<String>)
        ensures
            span.file_name@ == self.file_name@,
            span.start == self.start,
            span.end == self.end,
            span.rendering() == self.rendering(),
    {
        SpanT::new(self.file_name.to_owned(), self.start, self.end)
    }
}

/// A file name that can be written out as text.
pub trait FileName {
    /// The characters that the file name is written with.
    spec fn text(&self) -> Seq<char>;

    /// The file name as text.
    fn as_text(&self) -> (s: &str)
        ensures
            s@ == self.text(),
    ;
}

impl<'f> FileName for &'f str {
    open spec fn text(&self) -> Seq<char> {
        self@
    }

    fn as_text(&self) -> (s: &str) {
        *self
    }
}

impl FileName for String {
    open spec fn text(&self) -> Seq<char> {
        self@
    }

    fn as_text(&self) -> (s: &str) {
        self.as_str()
    }
}

impl FileName for Rc<String> {
    open spec fn text(&self) -> Seq<char> {
        self@
    }

    fn as_text(&self) -> (s: &str) {
        self.as_str()
    }
}

/// A 0-based line or character number as it is shown: counted from one, in
/// base ten.
pub open spec fn one_based(n: usize) -> Seq<char> {
    decimal((n + 1) as nat)
}

/// The text that designates the range between two locations: `row,col` for
/// a single point, `row,col-col` for a range on one line, and
/// `row,col-row,col` for a range over several lines.
pub open spec fn range_text(start: Loc, end: Loc) -> Seq<char> {
    let from = one_based(start.row) + seq![','] + one_based(start.col);
    if start.row != end.row {
        from + seq!['-'] + one_based(end.row) + seq![','] + one_based(end.col)
    } else if start.col != end.col {
        from + seq!['-'] + one_based(end.col)
    } else {
        from
    }
}

/// Appends the shown form of a 0-based number to `out`.
fn push_one_based(out: &mut String, n: usize)
    ensures
        final(out)@ == old(out)@ + one_based(n),
{
    let shown = decimal_string(n as u128 + 1);
    out.append(shown.as_str());
}

/// Appends a location to `out` as `row,col`, both counted from one.
fn push_loc(out: &mut String, loc: Loc)
    ensures
        final(out)@ == old(out)@ + one_based(loc.row) + seq![','] + one_based(loc.col),
{
    push_one_based(out, loc.row);
    proof {
        reveal_strlit(",");
    }
    out.append(",");
    push_one_based(out, loc.col);
}

impl<F: FileName> SpanT<F> {
    /// What the span looks like in a message: the file name, a colon, and
    /// the range.
    pub open spec fn rendering(&self) -> Seq<char> {
        self.file_name.text() + seq![':'] + range_text(self.start, self.end)
    }

    /// Renders the span for a human reader, with rows and columns counted
    /// from one: `file:row,col`, `file:row,col-col` or
    /// `file:row,col-row,col`.
    pub fn to_string(&self) -> (s: String)
        ensures
            s@ == self.rendering(),
    {
        let mut s = String::from_str(self.file_name.as_text());
        proof {
            reveal_strlit(":");
            reveal_strlit("-");
        }
        s.append(":");
        push_loc(&mut s, self.start);
        if self.start.row != self.end.row {
            s.append("-");
            push_loc(&mut s, self.end);
        } else if self.start.col != self.end.col {
            s.append("-");
            push_one_based(&mut s, self.end.col);
        }
        assert(s@ =~= self.rendering());
        s
    }
}

/// Of two locations, `min` and `max` each hand back one of the two
/// unchanged, the first on a tie; `min` is never after `max`, and between
/// them they hold the byte positions of both.
pub proof fn lemma_min_max(a: Loc, b: Loc)
    ensures
        a.min(b).pos <= a.max(b).pos,
        a.min(b) == a || a.min(b) == b,
        a.max(b) == a || a.max(b) == b,
        a.pos == b.pos ==> a.min(b) == a && a.max(b) == a,
        a.pos != b.pos ==> (a.min(b) == a && a.max(b) == b) || (a.min(b) == b && a.max(b) == a),
        set![a.min(b).pos, a.max(b).pos] == set![a.pos, b.pos],
        a.min(b).pos <= a.pos && a.min(b).pos <= b.pos,
        a.max(b).pos >= a.pos && a.max(b).pos >= b.pos,
{
    assert(set![a.min(b).pos, a.max(b).pos] =~= set![a.pos, b.pos]);
}

/// Extending a span to cover itself changes nothing.
pub proof fn lemma_extend_self<F>(s: SpanT<F>)
    ensures
        s.extend_to_cover(s) == s,
{
}

/// The union of two spans starts at the smaller of their start positions
/// and ends at the larger of their end positions, whatever their files.
pub proof fn lemma_extend_bounds<F>(s1: SpanT<F>, s2: SpanT<F>)
    ensures
        s1.extend_to_cover(s2).file_name == s1.file_name,
        s1.extend_to_cover(s2).start.pos == vstd::math::min(
            s1.start.pos as int,
            s2.start.pos as int,
        ),
        s1.extend_to_cover(s2).end.pos == vstd::math::max(s1.end.pos as int, s2.end.pos as int),
{
}

/// The union of two spans covers both, and every span that covers both
/// covers the union: it is the least such range. Where either span is
/// ordered, so is the union.
pub proof fn lemma_extend_least<F>(s1: SpanT<F>, s2: SpanT<F>, s: SpanT<F>)
    ensures
        s1.extend_to_cover(s2).covers(s1),
        s1.extend_to_cover(s2).covers(s2),
        s.covers(s1) && s.covers(s2) ==> s.covers(s1.extend_to_cover(s2)),
        s1.is_ordered() || s2.is_ordered() ==> s1.extend_to_cover(s2).is_ordered(),
{
}

/// The byte range of a union does not depend on the order in which spans
/// are folded into it; only the file name does, which is always that of the
/// leftmost span.
pub proof fn lemma_extend_fold_order<F>(s1: SpanT<F>, s2: SpanT<F>, s3: SpanT<F>)
    ensures
        s1.extend_to_cover(s2).start.pos == s2.extend_to_cover(s1).start.pos,
        s1.extend_to_cover(s2).end.pos == s2.extend_to_cover(s1).end.pos,
        s1.extend_to_cover(s2).extend_to_cover(s3).start.pos == s1.extend_to_cover(
            s2.extend_to_cover(s3),
        ).start.pos,
        s1.extend_to_cover(s2).extend_to_cover(s3).end.pos == s1.extend_to_cover(
            s2.extend_to_cover(s3),
        ).end.pos,
        s1.extend_to_cover(s2).extend_to_cover(s3).file_name == s1.file_name,
        s1.extend_to_cover(s2.extend_to_cover(s3)).file_name == s1.file_name,
{
}

} // verus!
