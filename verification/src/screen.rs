//! The buffer of line segments that turtles draw into.

use vstd::prelude::*;
use crate::scalar::{Color, Scalar, Vector2};

verus! {

/// One stroke: a straight line from `start` to `end`.
#[derive(Clone, Copy, Debug, PartialEq, Eq, Structural)]
pub struct LineSegment {
    pub start: Vector2,
    pub end: Vector2,
    pub thickness: Scalar,
    pub color: Color,
}

impl LineSegment {
    /// Whether the segment can be drawn: it starts and ends in finite points
    /// and its thickness is a finite number above zero.
    pub open spec fn well_formed(self) -> bool {
        self.start.finite() && self.end.finite() && self.thickness.positive()
    }
}

/// An ordered buffer of line segments. The order of insertion is the order
/// of drawing: a later segment is drawn over an earlier one.
///
/// The view of a screen is the sequence of its segments, oldest first.
pub struct TurtleScreen {
    background_color: Color,
    shapes: Vec<LineSegment>,
}

impl View for TurtleScreen {
    type V = Seq<LineSegment>;

    closed spec fn view(&self) -> Seq<LineSegment> {
        self.shapes@
    }
}

/// The buffer `segments` after one more segment was drawn.
pub open spec fn appended(segments: Seq<LineSegment>, segment: LineSegment) -> Seq<LineSegment> {
    segments.push(segment)
}

/// The buffer `segments` after a clear: nothing is left.
pub open spec fn cleared(segments: Seq<LineSegment>) -> Seq<LineSegment> {
    Seq::empty()
}

impl TurtleScreen {
    /// The colour behind the segments.
    pub closed spec fn background(&self) -> Color {
        self.background_color
    }

    /// An empty screen.
    pub fn new(background_color: Color) -> (screen: TurtleScreen)
        ensures
            screen@ == Seq::<LineSegment>::empty(),
            screen.background() == background_color,
    {
        TurtleScreen { background_color, shapes: Vec::new() }
    }

    /// Adds one segment at the end of the buffer. Nothing that was there is
    /// removed or reordered.
    pub fn draw_line(&mut self, a: Vector2, b: Vector2, thickness: Scalar, color: Color)
        ensures
            final(self)@ == appended(
                old(self)@,
                (LineSegment { start: a, end: b, thickness, color }),
            ),
            final(self).background() == old(self).background(),
    {
        self.shapes.push(LineSegment { start: a, end: b, thickness, color });
    }

    /// Empties the buffer.
    pub fn clear(&mut self)
        ensures
            final(self)@ == cleared(old(self)@),
            final(self).background() == old(self).background(),
    {
        self.shapes.clear();
    }

    /// A copy of the segments, oldest first, for a renderer to project and
    /// draw.
    pub fn snapshot(&self) -> (segments: Vec<LineSegment>)
        ensures
            segments@ == self@,
    {
        let mut segments: Vec<LineSegment> = Vec::new();
        let mut i: usize = 0;
        while i < self.shapes.len()
            invariant
                i <= self.shapes.len(),
                segments@ == self.shapes@.subrange(0, i as int),
            decreases self.shapes.len() - i,
        {
            segments.push(self.shapes[i]);
            i += 1;
        }
        segments
    }

    /// The number of segments in the buffer.
    pub fn len(&self) -> (n: usize)
        ensures
            n == self@.len(),
    {
        self.shapes.len()
    }

    pub fn background_color(&self) -> (color: Color)
        ensures
            color == self.background(),
    {
        self.background_color
    }
}

/// A snapshot taken right after a clear is empty, whatever the buffer held
/// before and however many segments had been drawn into it.
pub proof fn lemma_snapshot_after_clear_is_empty(before: Seq<LineSegment>)
    ensures
        cleared(before) == Seq::<LineSegment>::empty(),
        cleared(before).len() == 0,
{
}

/// Drawing only ever adds at the end: the buffer before the call is a prefix
/// of the buffer after it, one segment shorter.
pub proof fn lemma_draw_keeps_earlier_segments(before: Seq<LineSegment>, segment: LineSegment)
    ensures
        appended(before, segment).len() == before.len() + 1,
        appended(before, segment).subrange(0, before.len() as int) == before,
        appended(before, segment).last() == segment,
{
}

} // verus!
