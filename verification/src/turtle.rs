//! The turtle: a position, a heading and a pen.

use vstd::prelude::*;
use crate::command::{Motion, TurtleCommand};
use crate::scalar::{Color, Scalar, Vector2};
use crate::screen::{appended, cleared, LineSegment, TurtleScreen};

verus! {

/// The bit pattern of 0.0.
pub const ZERO_BITS: u32 = 0x0000_0000;

/// The bit pattern of 1.0.
pub const ONE_BITS: u32 = 0x3F80_0000;

/// The bit pattern of -1.0.
pub const MINUS_ONE_BITS: u32 = 0xBF80_0000;

/// The bit pattern of 90.0, a quarter turn in degrees.
pub const QUARTER_TURN_BITS: u32 = 0x42B4_0000;

/// How a turtle starts out. A turtle copies its configuration when it is
/// made; changing the configuration afterwards does not reach it.
#[derive(Clone, Copy, Debug, PartialEq, Eq, Structural)]
pub struct TurtleConfig {
    /// The heading at the start and after a reset: a vector of length 1.
    pub start_rotation: Vector2,
    pub pen_width: Scalar,
    pub pen_color: Color,
    pub pen_down: bool,
    /// The compass angle, in degrees, of a heading along the x axis.
    pub angle_offset: Scalar,
    /// 1.0 where compass angles grow counter-clockwise, -1.0 where they grow
    /// clockwise.
    pub angle_rotation: Scalar,
}

impl TurtleConfig {
    /// The configuration that [`Default`] gives: heading up, a black pen of
    /// width 1.0 that is down, and a compass on which up is 0 degrees and
    /// angles grow clockwise.
    pub open spec fn standard() -> TurtleConfig {
        TurtleConfig {
            start_rotation: Vector2 {
                x: Scalar { bits: ZERO_BITS },
                y: Scalar { bits: ONE_BITS },
            },
            pen_width: Scalar { bits: ONE_BITS },
            pen_color: Color {
                r: Scalar { bits: ZERO_BITS },
                g: Scalar { bits: ZERO_BITS },
                b: Scalar { bits: ZERO_BITS },
                a: Scalar { bits: ONE_BITS },
            },
            pen_down: true,
            angle_offset: Scalar { bits: QUARTER_TURN_BITS },
            angle_rotation: Scalar { bits: MINUS_ONE_BITS },
        }
    }
}

impl Default for TurtleConfig {
    fn default() -> (config: TurtleConfig)
        ensures
            config == TurtleConfig::standard(),
    {
        let zero = Scalar { bits: ZERO_BITS };
        let one = Scalar { bits: ONE_BITS };
        TurtleConfig {
            start_rotation: Vector2 { x: zero, y: one },
            pen_width: one,
            pen_color: Color { r: zero, g: zero, b: zero, a: one },
            pen_down: true,
            angle_offset: Scalar { bits: QUARTER_TURN_BITS },
            angle_rotation: Scalar { bits: MINUS_ONE_BITS },
        }
    }
}

/// What a [`Turtle`] is, as a mathematical value.
pub struct TurtleModel {
    pub position: Vector2,
    /// Where the turtle was made. Nothing changes it.
    pub origin: Vector2,
    /// The heading: a vector of length 1.
    pub rotation: Vector2,
    pub pen_width: Scalar,
    pub pen_color: Color,
    pub pen_down: bool,
    pub angle_offset: Scalar,
    pub angle_rotation: Scalar,
    /// The configuration the turtle was made with.
    pub initial_config: TurtleConfig,
}

impl TurtleModel {
    /// The segment that the pen draws on the way from the position to
    /// `destination`.
    pub open spec fn stroke_to(self, destination: Vector2) -> LineSegment {
        LineSegment {
            start: self.position,
            end: destination,
            thickness: self.pen_width,
            color: self.pen_color,
        }
    }

    /// Whether the numbers of the turtle are sound: the position and the
    /// origin are finite, the heading and the heading to start with point
    /// somewhere, and the width of the pen is a finite number above zero.
    pub open spec fn sound(self) -> bool {
        &&& self.position.finite()
        &&& self.origin.finite()
        &&& self.rotation.has_direction()
        &&& self.initial_config.start_rotation.has_direction()
        &&& self.pen_width.positive()
    }

    /// The turtle after it was given a pen of width `width`. It takes the
    /// pen if `width` is a finite number above zero and keeps its own if
    /// not.
    pub open spec fn with_pen_width(self, width: Scalar) -> TurtleModel {
        if width.positive() {
            TurtleModel { pen_width: width, ..self }
        } else {
            self
        }
    }

    /// The turtle after it was sent to `destination`, drawing or not. It
    /// goes there if `destination` is finite and stays where it is if not.
    pub open spec fn moved_to(self, destination: Vector2) -> TurtleModel {
        if destination.finite() {
            TurtleModel { position: destination, ..self }
        } else {
            self
        }
    }

    /// The buffer `segments` after the turtle was sent to `destination` with
    /// its pen: one stroke longer when the pen is down and `destination` is
    /// finite, else unchanged.
    pub open spec fn drawn_to(self, segments: Seq<LineSegment>, destination: Vector2) -> Seq<
        LineSegment,
    > {
        if self.pen_down && destination.finite() {
            appended(segments, self.stroke_to(destination))
        } else {
            segments
        }
    }

    /// The turtle after it was told to head along `rotation`. It does if
    /// `rotation` points somewhere and keeps its heading if not.
    pub open spec fn turned_to(self, rotation: Vector2) -> TurtleModel {
        if rotation.has_direction() {
            TurtleModel { rotation, ..self }
        } else {
            self
        }
    }

    /// The turtle after `motion` ended in `outcome`: at `outcome` after a
    /// translation, heading along `outcome` after a rotation. An outcome
    /// that is no finite point, or no direction, leaves the turtle as it is.
    pub open spec fn after_motion(self, motion: Motion, outcome: Vector2) -> TurtleModel {
        match motion {
            Motion::Translate { .. } => self.moved_to(outcome),
            Motion::Rotate { .. } => self.turned_to(outcome),
        }
    }

    /// The buffer `segments` after `motion` ended in `outcome`: only a
    /// translation with the pen down, to a finite point, draws.
    pub open spec fn drawn_by_motion(
        self,
        segments: Seq<LineSegment>,
        motion: Motion,
        outcome: Vector2,
    ) -> Seq<LineSegment> {
        match motion {
            Motion::Translate { .. } => self.drawn_to(segments, outcome),
            Motion::Rotate { .. } => segments,
        }
    }

    /// The turtle back where it was made, heading as at the start. The pen
    /// stays as it is.
    pub open spec fn reset(self) -> TurtleModel {
        self.moved_to(self.origin).turned_to(self.initial_config.start_rotation)
    }
}

/// A drawing cursor. Moving it with the pen down leaves a line segment on
/// the screen it is given.
pub struct Turtle {
    pen_width: Scalar,
    pen_color: Color,
    pen_down: bool,
    position: Vector2,
    origin: Vector2,
    rotation: Vector2,
    angle_offset: Scalar,
    angle_rotation: Scalar,
    initial_config: TurtleConfig,
}

impl View for Turtle {
    type V = TurtleModel;

    closed spec fn view(&self) -> TurtleModel {
        TurtleModel {
            position: self.position,
            origin: self.origin,
            rotation: self.rotation,
            pen_width: self.pen_width,
            pen_color: self.pen_color,
            pen_down: self.pen_down,
            angle_offset: self.angle_offset,
            angle_rotation: self.angle_rotation,
            initial_config: self.initial_config,
        }
    }
}

impl Turtle {
    /// A turtle at `origin`, with heading, pen and compass as `config` says.
    /// It is sound if `origin` is finite, the heading to start with points
    /// somewhere and the width of the pen is a finite number above zero.
    pub fn new(origin: Vector2, config: &TurtleConfig) -> (turtle: Turtle)
        ensures
            turtle@.sound() <==> origin.finite() && config.start_rotation.has_direction()
                && config.pen_width.positive(),
            turtle@ == (TurtleModel {
                position: origin,
                origin,
                rotation: config.start_rotation,
                pen_width: config.pen_width,
                pen_color: config.pen_color,
                pen_down: config.pen_down,
                angle_offset: config.angle_offset,
                angle_rotation: config.angle_rotation,
                initial_config: *config,
            }),
    {
        Turtle {
            position: origin,
            origin,
            rotation: config.start_rotation,
            pen_width: config.pen_width,
            pen_color: config.pen_color,
            pen_down: config.pen_down,
            angle_offset: config.angle_offset,
            angle_rotation: config.angle_rotation,
            initial_config: *config,
        }
    }

    /// Whether the numbers of the turtle are sound. A turtle that was made
    /// sound stays so.
    pub fn is_sound(&self) -> (sound: bool)
        ensures
            sound == self@.sound(),
    {
        self.position.is_finite() && self.origin.is_finite() && self.rotation.is_direction()
            && self.initial_config.start_rotation.is_direction() && self.pen_width.is_positive()
    }

    pub fn get_position(&self) -> (position: Vector2)
        ensures
            position == self@.position,
    {
        self.position
    }

    /// Goes to `destination`. With the pen down this draws the segment from
    /// the old position to `destination` on `screen`, in the pen's width and
    /// colour; with the pen up the screen stays as it is. A destination
    /// that is not finite is ignored: nothing moves and nothing is drawn.
    pub fn set_position(&mut self, screen: &mut TurtleScreen, destination: Vector2)
        ensures
            final(self)@ == old(self)@.moved_to(destination),
            final(screen)@ == old(self)@.drawn_to(old(screen)@, destination),
            final(screen).background() == old(screen).background(),
    {
        if destination.is_finite() {
            if self.pen_down {
                screen.draw_line(self.position, destination, self.pen_width, self.pen_color);
            }
            self.position = destination;
        }
    }

    /// Goes to `destination` without drawing. A destination that is not
    /// finite is ignored.
    pub fn teleport(&mut self, destination: Vector2)
        ensures
            final(self)@ == old(self)@.moved_to(destination),
    {
        if destination.is_finite() {
            self.position = destination;
        }
    }

    pub fn get_origin(&self) -> (origin: Vector2)
        ensures
            origin == self@.origin,
    {
        self.origin
    }

    /// Goes back to where the turtle was made, without drawing.
    pub fn to_origin(&mut self)
        ensures
            final(self)@ == old(self)@.moved_to(old(self)@.origin),
    {
        let origin = self.origin;
        self.teleport(origin);
    }

    /// The heading, a vector of length 1.
    pub fn get_rotation(&self) -> (rotation: Vector2)
        ensures
            rotation == self@.rotation,
    {
        self.rotation
    }

    /// Replaces the heading by `rotation`, which the host computed and
    /// brought back to length 1. A vector that points nowhere, because a
    /// part of it is no finite number or because it is zero, is ignored.
    pub fn set_rotation(&mut self, rotation: Vector2)
        ensures
            final(self)@ == old(self)@.turned_to(rotation),
    {
        if rotation.is_direction() {
            self.rotation = rotation;
        }
    }

    pub fn get_pen_down(&self) -> (down: bool)
        ensures
            down == self@.pen_down,
    {
        self.pen_down
    }

    /// Puts the pen down, so that moving draws, or lifts it.
    pub fn set_pen_down(&mut self, down: bool)
        ensures
            final(self)@ == (TurtleModel { pen_down: down, ..old(self)@ }),
    {
        self.pen_down = down;
    }

    pub fn get_pen_width(&self) -> (width: Scalar)
        ensures
            width == self@.pen_width,
    {
        self.pen_width
    }

    /// Sets the thickness of the segments drawn from now on. A width that
    /// is not a finite number above zero is ignored.
    pub fn set_pen_width(&mut self, width: Scalar)
        ensures
            final(self)@ == old(self)@.with_pen_width(width),
    {
        if width.is_positive() {
            self.pen_width = width;
        }
    }

    pub fn get_pen_color(&self) -> (color: Color)
        ensures
            color == self@.pen_color,
    {
        self.pen_color
    }

    /// Sets the colour of the segments drawn from now on.
    pub fn set_pen_color(&mut self, color: Color)
        ensures
            final(self)@ == (TurtleModel { pen_color: color, ..old(self)@ }),
    {
        self.pen_color = color;
    }

    /// The compass angle of a heading along the x axis, in degrees.
    pub fn get_angle_offset(&self) -> (offset: Scalar)
        ensures
            offset == self@.angle_offset,
    {
        self.angle_offset
    }

    /// The sense in which compass angles grow: 1.0 or -1.0.
    pub fn get_angle_rotation(&self) -> (sense: Scalar)
        ensures
            sense == self@.angle_rotation,
    {
        self.angle_rotation
    }

    /// Goes back to where the turtle was made, without drawing, and takes up
    /// the heading it started with.
    pub fn reset(&mut self)
        ensures
            final(self)@ == old(self)@.reset(),
    {
        self.to_origin();
        let start_rotation = self.initial_config.start_rotation;
        self.set_rotation(start_rotation);
    }

    /// The motion that `command` asks of this turtle. The turtle itself
    /// stays as it is until the host reports where the motion ended, with
    /// [`Turtle::finish_motion`].
    pub fn exec_command(&self, command: TurtleCommand) -> (motion: Motion)
        ensures
            motion == command.motion(),
    {
        match command {
            TurtleCommand::Forward { distance } => Motion::Translate { distance, reverse: false },
            TurtleCommand::Backward { distance } => Motion::Translate { distance, reverse: true },
            TurtleCommand::Left { angle } => Motion::Rotate { angle, reverse: false },
            TurtleCommand::Right { angle } => Motion::Rotate { angle, reverse: true },
        }
    }

    /// Takes over the outcome of `motion` as the host computed it: the
    /// position where a translation ended, which is drawn to as
    /// [`Turtle::set_position`] does, or the heading, of length 1, that a
    /// rotation led to. Where the arithmetic went wrong, as it does with a
    /// distance or an angle that is no number or with a heading of length 0,
    /// the outcome is no finite point or no direction, and the motion is
    /// ignored.
    pub fn finish_motion(&mut self, screen: &mut TurtleScreen, motion: Motion, outcome: Vector2)
        ensures
            final(self)@ == old(self)@.after_motion(motion, outcome),
            final(screen)@ == old(self)@.drawn_by_motion(old(screen)@, motion, outcome),
            final(screen).background() == old(screen).background(),
    {
        match motion {
            Motion::Translate { .. } => self.set_position(screen, outcome),
            Motion::Rotate { .. } => self.set_rotation(outcome),
        }
    }

    /// Empties `screen`: everything on it goes, also what other turtles
    /// drew. The turtle stays as it is.
    pub fn clear(&self, screen: &mut TurtleScreen)
        ensures
            final(screen)@ == cleared(old(screen)@),
            final(screen).background() == old(screen).background(),
    {
        screen.clear();
    }
}

/// Nothing that a turtle does moves its origin, changes its compass or the
/// configuration it was made with; and no motion touches the pen.
pub proof fn lemma_origin_is_fixed(turtle: TurtleModel, motion: Motion, outcome: Vector2)
    ensures
        turtle.after_motion(motion, outcome).origin == turtle.origin,
        turtle.after_motion(motion, outcome).initial_config == turtle.initial_config,
        turtle.after_motion(motion, outcome).angle_offset == turtle.angle_offset,
        turtle.after_motion(motion, outcome).angle_rotation == turtle.angle_rotation,
        turtle.after_motion(motion, outcome).pen_down == turtle.pen_down,
        turtle.after_motion(motion, outcome).pen_width == turtle.pen_width,
        turtle.after_motion(motion, outcome).pen_color == turtle.pen_color,
        turtle.reset().origin == turtle.origin,
        turtle.reset().initial_config == turtle.initial_config,
{
}

/// A sound turtle stays sound: whatever position, heading or pen it is
/// given, and whatever outcome a motion is reported with, its position stays
/// finite, its heading keeps pointing somewhere and its pen keeps a width
/// above zero. What is not a finite number never gets into it.
pub proof fn lemma_sound_turtle_stays_sound(
    turtle: TurtleModel,
    motion: Motion,
    outcome: Vector2,
    width: Scalar,
)
    requires
        turtle.sound(),
    ensures
        turtle.moved_to(outcome).sound(),
        turtle.turned_to(outcome).sound(),
        turtle.after_motion(motion, outcome).sound(),
        turtle.with_pen_width(width).sound(),
        turtle.reset().sound(),
{
}

/// What a sound turtle draws is well formed: if every segment in the buffer
/// is, then so is every segment after a motion of the turtle.
pub proof fn lemma_sound_turtle_draws_well_formed_segments(
    turtle: TurtleModel,
    segments: Seq<LineSegment>,
    motion: Motion,
    outcome: Vector2,
)
    requires
        turtle.sound(),
        forall|i: int| 0 <= i < segments.len() ==> (#[trigger] segments[i]).well_formed(),
    ensures
        forall|i: int|
            0 <= i < turtle.drawn_by_motion(segments, motion, outcome).len() ==> (
            #[trigger] turtle.drawn_by_motion(segments, motion, outcome)[i]).well_formed(),
{
}

/// After a reset a sound turtle is where it was made, heading as at the
/// start, and a second reset changes nothing more.
pub proof fn lemma_reset_is_idempotent(turtle: TurtleModel)
    requires
        turtle.sound(),
    ensures
        turtle.reset().position == turtle.origin,
        turtle.reset().rotation == turtle.initial_config.start_rotation,
        turtle.reset().reset() == turtle.reset(),
{
}

/// The standard configuration makes a sound turtle at any finite origin.
pub proof fn lemma_standard_config_is_sound()
    ensures
        TurtleConfig::standard().start_rotation.has_direction(),
        TurtleConfig::standard().pen_width.positive(),
{
}

} // verus!
