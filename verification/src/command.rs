//! The commands a turtle understands, and the motions they ask for.

use vstd::prelude::*;
use crate::scalar::Scalar;

verus! {

/// One step of a drawing. Distances are in logical units, angles in degrees.
/// A negative distance moves the other way, a negative angle turns the other
/// way.
#[derive(Clone, Copy, Debug, PartialEq, Eq, Structural)]
pub enum TurtleCommand {
    Forward { distance: Scalar },
    Backward { distance: Scalar },
    Left { angle: Scalar },
    Right { angle: Scalar },
}

/// What a command asks of the turtle that runs it. The library decides
/// which motion it is; computing where the motion ends is arithmetic on
/// single-precision numbers, which the host does.
#[derive(Clone, Copy, Debug, PartialEq, Eq, Structural)]
pub enum Motion {
    /// Move along the heading by `distance`; by `-distance` when `reverse`.
    Translate { distance: Scalar, reverse: bool },
    /// Turn the heading by `angle` degrees; by `-angle` when `reverse`.
    Rotate { angle: Scalar, reverse: bool },
}

impl Motion {
    /// The same motion the other way.
    pub open spec fn opposite(self) -> Motion {
        match self {
            Motion::Translate { distance, reverse } => Motion::Translate {
                distance,
                reverse: !reverse,
            },
            Motion::Rotate { angle, reverse } => Motion::Rotate { angle, reverse: !reverse },
        }
    }
}

impl TurtleCommand {
    /// Whether the command moves the turtle, and so may draw a segment.
    /// `Forward` and `Backward` do, the two turns do not.
    pub open spec fn translates(self) -> bool {
        self is Forward || self is Backward
    }

    /// The motion that the command asks for.
    pub open spec fn motion(self) -> Motion {
        match self {
            TurtleCommand::Forward { distance } => Motion::Translate { distance, reverse: false },
            TurtleCommand::Backward { distance } => Motion::Translate { distance, reverse: true },
            TurtleCommand::Left { angle } => Motion::Rotate { angle, reverse: false },
            TurtleCommand::Right { angle } => Motion::Rotate { angle, reverse: true },
        }
    }

    /// Whether the command moves the turtle.
    pub fn is_translation(&self) -> (moves: bool)
        ensures
            moves == self.translates(),
    {
        match self {
            TurtleCommand::Forward { .. } => true,
            TurtleCommand::Backward { .. } => true,
            TurtleCommand::Left { .. } => false,
            TurtleCommand::Right { .. } => false,
        }
    }
}

/// A command moves the turtle exactly when its motion is a translation.
pub proof fn lemma_translates_iff_motion_translates(command: TurtleCommand)
    ensures
        command.translates() <==> command.motion() is Translate,
{
}

/// `Backward` asks for the opposite of what `Forward` asks for with the same
/// distance, and `Right` for the opposite of `Left` with the same angle.
pub proof fn lemma_backward_and_right_are_opposites(amount: Scalar)
    ensures
        (TurtleCommand::Backward { distance: amount }).motion() == (TurtleCommand::Forward {
            distance: amount,
        }).motion().opposite(),
        (TurtleCommand::Right { angle: amount }).motion() == (TurtleCommand::Left {
            angle: amount,
        }).motion().opposite(),
{
}

/// The opposite of the opposite of a motion is the motion.
pub proof fn lemma_opposite_is_an_involution(motion: Motion)
    ensures
        motion.opposite().opposite() == motion,
{
}

} // verus!
