//! The command list of a Sierpinski triangle.
//!
//! A triangle of some depth is three sides; after each side and the turn
//! that follows it comes a triangle of the next depth, drawn with the side
//! length of that depth. The side lengths are the host's to compute (each
//! half the one before): the list of them says how deep the figure goes.

use vstd::prelude::*;
use vstd::arithmetic::power::{lemma_pow1, pow};
use crate::command::TurtleCommand;
use crate::scalar::Scalar;

verus! {

/// `block` written `count` times in a row.
pub open spec fn repeated(block: Seq<TurtleCommand>, count: nat) -> Seq<TurtleCommand>
    decreases count,
{
    if count == 0 {
        Seq::empty()
    } else {
        repeated(block, (count - 1) as nat) + block
    }
}

/// One corner of the outermost triangle: a side of length `sides[0]`, a left
/// turn by `turn`, and the triangle of the remaining depths.
pub open spec fn corner_commands(sides: Seq<Scalar>, turn: Scalar) -> Seq<TurtleCommand>
    recommends
        sides.len() > 0,
    decreases sides.len(), 0nat,
    when sides.len() > 0
{
    seq![
        TurtleCommand::Forward { distance: sides[0] },
        TurtleCommand::Left { angle: turn },
    ] + triangle_commands(sides.skip(1), turn)
}

/// The commands that draw a triangle as deep as `sides` is long, with sides
/// of length `sides[0]` at the outermost depth: three corners. With no depth
/// left there is nothing to draw.
pub open spec fn triangle_commands(sides: Seq<Scalar>, turn: Scalar) -> Seq<TurtleCommand>
    decreases sides.len(), 1nat,
{
    if sides.len() == 0 {
        Seq::empty()
    } else {
        repeated(corner_commands(sides, turn), 3)
    }
}

/// The commands that draw a Sierpinski triangle: `sides[d]` is the side
/// length at depth `d`, and `turn` the angle of the left turn after each
/// side, 120 degrees for a triangle that closes.
pub fn triangle(sides: &Vec<Scalar>, turn: Scalar) -> (commands: Vec<TurtleCommand>)
    ensures
        commands@ == triangle_commands(sides@, turn),
{
    let mut result: Vec<TurtleCommand> = Vec::new();
    triangle_recursive(sides, 0, turn, &mut result);
    assert(sides@.skip(0) == sides@);
    assert(Seq::<TurtleCommand>::empty() + triangle_commands(sides@, turn) == triangle_commands(
        sides@,
        turn,
    ));
    result
}

/// Appends to `result` the commands of the triangle of the depths from
/// `depth` on.
pub fn triangle_recursive(
    sides: &Vec<Scalar>,
    depth: usize,
    turn: Scalar,
    result: &mut Vec<TurtleCommand>,
)
    requires
        depth <= sides.len(),
    ensures
        final(result)@ == old(result)@ + triangle_commands(sides@.skip(depth as int), turn),
    decreases sides.len() - depth,
{
    if depth >= sides.len() {
        assert(old(result)@ + Seq::<TurtleCommand>::empty() == old(result)@);
        return ;
    }
    let ghost rest = sides@.skip(depth as int);
    let ghost corner = corner_commands(rest, turn);
    let mut k: usize = 0;
    while k < 3
        invariant
            k <= 3,
            depth < sides.len(),
            rest == sides@.skip(depth as int),
            corner == corner_commands(rest, turn),
            result@ == old(result)@ + repeated(corner, k as nat),
        decreases 3 - k,
    {
        let ghost before = result@;
        result.push(TurtleCommand::Forward { distance: sides[depth] });
        result.push(TurtleCommand::Left { angle: turn });
        triangle_recursive(sides, depth + 1, turn, result);
        proof {
            assert(rest.skip(1) == sides@.skip(depth + 1));
            assert(result@ == before + corner);
            assert(repeated(corner, (k + 1) as nat) == repeated(corner, k as nat) + corner);
            assert(old(result)@ + repeated(corner, k as nat) + corner == old(result)@ + (repeated(
                corner,
                k as nat,
            ) + corner));
        }
        k += 1;
    }
}

/// A triangle of depth `n` takes `3^(n+1) - 3` commands.
pub proof fn lemma_triangle_length(sides: Seq<Scalar>, turn: Scalar)
    ensures
        triangle_commands(sides, turn).len() == pow(3, sides.len() + 1) - 3,
    decreases sides.len(),
{
    if sides.len() == 0 {
        lemma_pow1(3);
    } else {
        let rest = sides.skip(1);
        lemma_triangle_length(rest, turn);
        let corner = corner_commands(sides, turn);
        assert(corner.len() == 2 + triangle_commands(rest, turn).len());
        lemma_repeated_length(corner, 3);
        assert(pow(3, sides.len() + 1) == 3 * pow(3, sides.len())) by {
            reveal(pow);
        }
        assert(3 * (2 + (pow(3, sides.len()) - 3)) == 3 * pow(3, sides.len()) - 3);
    }
}

/// Whether `commands` is sides and turns in turn: an even number of
/// commands, a `Forward` at every even place and a left turn by `turn` at
/// every odd one.
pub open spec fn alternates(commands: Seq<TurtleCommand>, turn: Scalar) -> bool {
    &&& commands.len() % 2 == 0
    &&& forall|i: int|
        0 <= i < commands.len() ==> if i % 2 == 0 {
            #[trigger] commands[i] is Forward
        } else {
            commands[i] == (TurtleCommand::Left { angle: turn })
        }
}

/// The commands of a triangle are sides and turns in turn, whatever its
/// depth. An animator that replays them therefore runs the first side alone
/// and after it a turn and a side with every tick.
pub proof fn lemma_triangle_alternates(sides: Seq<Scalar>, turn: Scalar)
    ensures
        alternates(triangle_commands(sides, turn), turn),
    decreases sides.len(),
{
    if sides.len() > 0 {
        lemma_triangle_alternates(sides.skip(1), turn);
        let edge = seq![
            TurtleCommand::Forward { distance: sides[0] },
            TurtleCommand::Left { angle: turn },
        ];
        let corner = corner_commands(sides, turn);
        lemma_alternates_concat(edge, triangle_commands(sides.skip(1), turn), turn);
        assert(repeated(corner, 0) == Seq::<TurtleCommand>::empty());
        assert(repeated(corner, 1) == corner);
        lemma_alternates_concat(corner, corner, turn);
        assert(repeated(corner, 2) == corner + corner);
        lemma_alternates_concat(corner + corner, corner, turn);
    }
}

/// Two lists of sides and turns in turn, one after the other, are such a
/// list again.
pub proof fn lemma_alternates_concat(
    front: Seq<TurtleCommand>,
    back: Seq<TurtleCommand>,
    turn: Scalar,
)
    requires
        alternates(front, turn),
        alternates(back, turn),
    ensures
        alternates(front + back, turn),
{
    let both = front + back;
    assert forall|i: int| 0 <= i < both.len() implies if i % 2 == 0 {
        #[trigger] both[i] is Forward
    } else {
        both[i] == (TurtleCommand::Left { angle: turn })
    } by {
        if i >= front.len() {
            let j = i - front.len();
            assert(both[i] == back[j]);
            assert(j % 2 == i % 2);
            if j % 2 == 0 {
                assert(back[j] is Forward);
            }
        } else {
            assert(both[i] == front[i]);
            if i % 2 == 0 {
                assert(front[i] is Forward);
            }
        }
    }
}

/// A block written `count` times is `count` times as long.
pub proof fn lemma_repeated_length(block: Seq<TurtleCommand>, count: nat)
    ensures
        repeated(block, count).len() == count * block.len(),
    decreases count,
{
    if count == 0 {
        assert(count * block.len() == 0) by (nonlinear_arith)
            requires
                count == 0,
        ;
    } else {
        let fewer = (count - 1) as nat;
        lemma_repeated_length(block, fewer);
        assert(count * block.len() == fewer * block.len() + block.len()) by (nonlinear_arith)
            requires
                count == fewer + 1,
        ;
    }
}

} // verus!
