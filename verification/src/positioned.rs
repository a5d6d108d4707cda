//! What everything on the field has in common: a position, an extent, and
//! for some a constant motion.

use vstd::prelude::*;
use crate::game_settings::field::Field;
use crate::units::{abs, distance, MAX_COORD, MAX_EXTENT, UNIT};

verus! {

/// Whether a position and an extent are in the range for which collisions
/// are computed without overflow.
pub open spec fn within_limits(position: (i64, i64), extent: (i64, i64)) -> bool {
    &&& -MAX_COORD <= position.0 <= MAX_COORD
    &&& -MAX_COORD <= position.1 <= MAX_COORD
    &&& 0 <= extent.0 <= MAX_EXTENT
    &&& 0 <= extent.1 <= MAX_EXTENT
}

/// Whether the box around `position` that reaches `extent` to each side lies
/// entirely outside the field.
pub open spec fn outside(position: (i64, i64), extent: (i64, i64), field: Field) -> bool {
    ||| position.0 + extent.0 < 0
    ||| position.0 - extent.0 > field.width * UNIT
    ||| position.1 + extent.1 < 0
    ||| position.1 - extent.1 > field.height * UNIT
}

/// Whether two round objects touch: the distance between their centres is
/// less than four fifths of the sum of their radii, a radius being half a
/// width.
pub open spec fn discs_touch(a: (i64, i64), a_width: i64, b: (i64, i64), b_width: i64) -> bool {
    let across = abs(a.0 - b.0);
    let along = abs(a.1 - b.1);
    let reach = a_width + b_width;
    reach > 0 && 25 * (across * across + along * along) < 4 * (reach * reach)
}

/// Whether two boxes touch: on each axis the centres are closer than a third
/// of the sum of the extents.
pub open spec fn boxes_touch(
    a: (i64, i64),
    a_extent: (i64, i64),
    b: (i64, i64),
    b_extent: (i64, i64),
) -> bool {
    &&& 3 * abs(a.0 - b.0) < a_extent.0 + b_extent.0
    &&& 3 * abs(a.1 - b.1) < a_extent.1 + b_extent.1
}

/// Whether two objects collide. Two round objects are compared as discs,
/// any other pair as boxes.
pub open spec fn touching(
    a: (i64, i64),
    a_extent: (i64, i64),
    a_round: bool,
    b: (i64, i64),
    b_extent: (i64, i64),
    b_round: bool,
) -> bool {
    if a_round && b_round {
        discs_touch(a, a_extent.0, b, b_extent.0)
    } else {
        boxes_touch(a, a_extent, b, b_extent)
    }
}

/// Whether two objects collide does not depend on which of them is asked.
pub proof fn lemma_touching_is_mutual(
    a: (i64, i64),
    a_extent: (i64, i64),
    a_round: bool,
    b: (i64, i64),
    b_extent: (i64, i64),
    b_round: bool,
)
    ensures
        touching(a, a_extent, a_round, b, b_extent, b_round) == touching(
            b,
            b_extent,
            b_round,
            a,
            a_extent,
            a_round,
        ),
{
}

/// An object with a position and dimensions.
pub trait Positioned: Sized {
    /// The position of the centre, as (x, y).
    spec fn position(&self) -> (i64, i64);

    /// The dimensions, as (width, height).
    spec fn extent(&self) -> (i64, i64);

    /// Whether the object is round. The width of a round object is treated
    /// as its diameter in collisions.
    spec fn round(&self) -> bool;

    /// The same object at another position.
    spec fn at(self, x: i64, y: i64) -> Self;

    /// Moving an object changes its position and nothing else that this
    /// trait shows.
    proof fn lemma_at(self, x: i64, y: i64)
        ensures
            self.at(x, y).position() == (x, y),
            self.at(x, y).extent() == self.extent(),
            self.at(x, y).round() == self.round(),
    ;

    /// The position of the object, as (x, y).
    fn get_position(&self) -> (position: (i64, i64))
        ensures
            position == self.position(),
    ;

    /// Sets the position of the object.
    fn set_position(&mut self, x: i64, y: i64)
        ensures
            *final(self) == old(self).at(x, y),
    ;

    /// The dimensions of the object, as (width, height).
    fn dimensions(&self) -> (extent: (i64, i64))
        ensures
            extent == self.extent(),
    ;

    /// Whether the object is round.
    fn is_round(&self) -> (round: bool)
        ensures
            round == self.round(),
    ;

    /// The width of the object.
    fn get_width(&self) -> (width: i64)
        ensures
            width == self.extent().0,
    {
        let (width, _) = self.dimensions();
        width
    }

    /// The height of the object.
    fn get_height(&self) -> (height: i64)
        ensures
            height == self.extent().1,
    {
        let (_, height) = self.dimensions();
        height
    }

    /// Whether the object lies entirely outside the field.
    fn is_out_of_bounds(&self, field: &Field) -> (out: bool)
        ensures
            out == outside(self.position(), self.extent(), *field),
    {
        let (x, y) = self.get_center();
        let (width, height) = self.dimensions();
        let right: i128 = field.width as i128 * UNIT as i128;
        let bottom: i128 = field.height as i128 * UNIT as i128;
        x as i128 + (width as i128) < 0 || x as i128 - width as i128 > right || y as i128 + (
        height as i128) < 0 || y as i128 - height as i128 > bottom
    }

    /// The centre of the object.
    fn get_center(&self) -> (center: (i64, i64))
        ensures
            center == self.position(),
    {
        let (x, y) = self.get_position();
        (x, y)
    }
}

/// Collision tests between any two objects.
pub trait Collides: Positioned {
    /// Whether the object collides with another one.
    fn is_collision<P: Positioned>(&self, other: &P) -> (hit: bool)
        requires
            within_limits(self.position(), self.extent()),
            within_limits(other.position(), other.extent()),
        ensures
            hit == collide(*self, *other),
    {
        let (x, y) = self.get_center();
        let (x2, y2) = other.get_center();
        let (width, height) = self.dimensions();
        let (width2, height2) = other.dimensions();
        let x_distance: i128 = distance(x, x2) as i128;
        let y_distance: i128 = distance(y, y2) as i128;

        if self.is_round() && other.is_round() {
            let reach: i128 = width as i128 + width2 as i128;
            assert(x_distance * x_distance <= 4 * (MAX_COORD * MAX_COORD)) by (nonlinear_arith)
                requires
                    0 <= x_distance <= 2 * MAX_COORD,
            ;
            assert(y_distance * y_distance <= 4 * (MAX_COORD * MAX_COORD)) by (nonlinear_arith)
                requires
                    0 <= y_distance <= 2 * MAX_COORD,
            ;
            assert(reach * reach <= 4 * (MAX_EXTENT * MAX_EXTENT)) by (nonlinear_arith)
                requires
                    0 <= reach <= 2 * MAX_EXTENT,
            ;
            let apart: i128 = x_distance * x_distance + y_distance * y_distance;
            return reach > 0 && 25 * apart < 4 * (reach * reach);
        }
        3 * x_distance < width as i128 + width2 as i128 && 3 * y_distance < height as i128
            + height2 as i128
    }
}

impl<T: Positioned> Collides for T {
}

/// The object one tick later: at the position that its step leads to.
pub open spec fn advanced<M: Moves>(object: M) -> M {
    object.at(
        (object.position().0 + object.velocity().0) as i64,
        (object.position().1 + object.velocity().1) as i64,
    )
}

/// Whether the object is still in the field, at least in part.
pub open spec fn within<P: Positioned>(object: P, field: Field) -> bool {
    !outside(object.position(), object.extent(), field)
}

/// Whether two objects collide.
pub open spec fn collide<A: Positioned, B: Positioned>(a: A, b: B) -> bool {
    touching(a.position(), a.extent(), a.round(), b.position(), b.extent(), b.round())
}

/// An object that moves by a constant step per tick.
pub trait Moves: Positioned {
    /// The step per tick, as (dx, dy).
    spec fn velocity(&self) -> (i64, i64);

    /// Moving an object leaves its step per tick as it is.
    proof fn lemma_velocity_stays(self, x: i64, y: i64)
        ensures
            self.at(x, y).velocity() == self.velocity(),
    ;

    /// The direction the object moves in, as (dx, dy).
    fn direction(&self) -> (velocity: (i64, i64))
        ensures
            velocity == self.velocity(),
    ;

    /// Moves the object one tick. Returns true if the object is still in the
    /// field.
    fn move_tick(&mut self, field: &Field) -> (inside: bool)
        requires
            i64::MIN <= old(self).position().0 + old(self).velocity().0 <= i64::MAX,
            i64::MIN <= old(self).position().1 + old(self).velocity().1 <= i64::MAX,
        ensures
            *final(self) == old(self).at(
                (old(self).position().0 + old(self).velocity().0) as i64,
                (old(self).position().1 + old(self).velocity().1) as i64,
            ),
            final(self).velocity() == old(self).velocity(),
            inside == within(*final(self), *field),
    {
        let (x, y) = self.get_position();
        let (dx, dy) = self.direction();
        proof {
            self.lemma_velocity_stays((x + dx) as i64, (y + dy) as i64);
        }
        self.set_position(x + dx, y + dy);
        !self.is_out_of_bounds(field)
    }
}

} // verus!
