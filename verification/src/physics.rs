//! Collisions between moving actors and solids that stand still.
//!
//! Every body is a rectangle with sides along the axes, given by its centre
//! and its half extents. In a tick an actor first moves along x and is pushed
//! back out of each solid that it then meets, and only after that moves along
//! y and is pushed back again. The two orders give different results where an
//! actor meets a corner with both axes overlapping: x before y is the rule, and
//! nothing is promised of the other order.
use vstd::prelude::*;
use crate::player::Velocity;

verus! {

/// The half extents of a rectangle, both above zero.
#[derive(Clone, Copy, Debug, PartialEq, Eq)]
pub struct Collider {
    half_width: i64,
    half_height: i64,
}

impl Collider {
    #[verifier::type_invariant]
    spec fn positive(&self) -> bool {
        self.half_width > 0 && self.half_height > 0
    }

    /// Half the rectangle's width.
    pub closed spec fn spec_half_width(&self) -> i64 {
        self.half_width
    }

    /// Half the rectangle's height.
    pub closed spec fn spec_half_height(&self) -> i64 {
        self.half_height
    }

    /// A collider with the given half extents, if both are above zero.
    pub fn new(half_width: i64, half_height: i64) -> (made: Option<Collider>)
        ensures
            made is Some <==> half_width > 0 && half_height > 0,
            made matches Some(collider) ==> collider.spec_half_width() == half_width
                && collider.spec_half_height() == half_height,
    {
        if half_width > 0 && half_height > 0 {
            Some(Collider { half_width, half_height })
        } else {
            None
        }
    }

    /// Half the rectangle's width.
    #[verifier::when_used_as_spec(spec_half_width)]
    pub fn half_width(&self) -> (half: i64)
        ensures
            half == self.spec_half_width(),
            half > 0,
    {
        proof {
            use_type_invariant(self);
        }
        self.half_width
    }

    /// Half the rectangle's height.
    #[verifier::when_used_as_spec(spec_half_height)]
    pub fn half_height(&self) -> (half: i64)
        ensures
            half == self.spec_half_height(),
            half > 0,
    {
        proof {
            use_type_invariant(self);
        }
        self.half_height
    }
}

/// A body that does not move and that actors cannot enter.
#[derive(Clone, Copy, Debug, PartialEq, Eq)]
pub struct Solid {
    pub x: i64,
    pub y: i64,
    pub collider: Collider,
}

/// A body that moves by its velocity and is stopped by solids.
#[derive(Clone, Copy, Debug, PartialEq, Eq)]
pub struct Actor {
    pub x: i64,
    pub y: i64,
    pub velocity: Velocity,
    pub collider: Collider,
}

/// The length that two intervals share.
pub open spec fn overlap(min_1: int, max_1: int, min_2: int, max_2: int) -> int {
    let low = if min_1 >= min_2 { min_1 } else { min_2 };
    let high = if max_1 <= max_2 { max_1 } else { max_2 };
    if high - low >= 0 { high - low } else { 0 }
}

/// The direction of a velocity: -1, 0 or 1.
pub open spec fn sign(velocity: int) -> int {
    if velocity > 0 { 1 } else if velocity < 0 { -1 } else { 0 }
}

/// How far a body with centre `position` and half extent `half`, moving at
/// `velocity`, is pushed out of an interval around `solid`: by the length the
/// two share, against its motion.
pub open spec fn correction(position: int, half: int, velocity: int, solid: int, solid_half: int) -> int {
    overlap(position - half, position + half, solid - solid_half, solid + solid_half) * -sign(velocity)
}

/// Whether a rectangle at (`x`, `y`) and a solid share an area.
pub open spec fn collides(x: int, y: int, collider: Collider, solid: Solid) -> bool {
    &&& x - collider.spec_half_width() < solid.x + solid.collider.spec_half_width()
    &&& x + collider.spec_half_width() > solid.x - solid.collider.spec_half_width()
    &&& y - collider.spec_half_height() < solid.y + solid.collider.spec_half_height()
    &&& y + collider.spec_half_height() > solid.y - solid.collider.spec_half_height()
}

/// Where an actor that has moved to (`x`, `y`) along x ends up on that axis,
/// after each solid in turn has pushed it back.
pub open spec fn settle_x(x: int, y: int, velocity: int, collider: Collider, solids: Seq<Solid>) -> int
    decreases solids.len(),
{
    if solids.len() == 0 {
        x
    } else {
        let before = settle_x(x, y, velocity, collider, solids.drop_last());
        let solid = solids.last();
        if collides(before, y, collider, solid) {
            before + correction(
                before,
                collider.spec_half_width() as int,
                velocity,
                solid.x as int,
                solid.collider.spec_half_width() as int,
            )
        } else {
            before
        }
    }
}

/// Where an actor that has moved to (`x`, `y`) along y ends up on that axis,
/// after each solid in turn has pushed it back.
pub open spec fn settle_y(x: int, y: int, velocity: int, collider: Collider, solids: Seq<Solid>) -> int
    decreases solids.len(),
{
    if solids.len() == 0 {
        y
    } else {
        let before = settle_y(x, y, velocity, collider, solids.drop_last());
        let solid = solids.last();
        if collides(x, before, collider, solid) {
            before + correction(
                before,
                collider.spec_half_height() as int,
                velocity,
                solid.y as int,
                solid.collider.spec_half_height() as int,
            )
        } else {
            before
        }
    }
}

impl Actor {
    /// The actor's x coordinate after one tick among `solids`.
    pub open spec fn next_x(&self, solids: Seq<Solid>) -> int {
        settle_x(self.x + self.velocity.x, self.y as int, self.velocity.x as int, self.collider, solids)
    }

    /// The actor's y coordinate after one tick among `solids`.
    pub open spec fn next_y(&self, solids: Seq<Solid>) -> int {
        settle_y(self.next_x(solids), self.y + self.velocity.y, self.velocity.y as int, self.collider, solids)
    }

    /// Whether every x coordinate that `solids` solids could push the actor to
    /// in one tick is in range.
    pub open spec fn can_move_x(&self, solids: nat) -> bool {
        &&& i64::MIN <= self.x + self.velocity.x - 2 * self.collider.spec_half_width() * solids
        &&& self.x + self.velocity.x + 2 * self.collider.spec_half_width() * solids <= i64::MAX
    }

    /// Whether every y coordinate that `solids` solids could push the actor to
    /// in one tick is in range.
    pub open spec fn can_move_y(&self, solids: nat) -> bool {
        &&& i64::MIN <= self.y + self.velocity.y - 2 * self.collider.spec_half_height() * solids
        &&& self.y + self.velocity.y + 2 * self.collider.spec_half_height() * solids <= i64::MAX
    }

    /// Whether every place that `solids` solids could push the actor to in one
    /// tick has coordinates in range.
    pub open spec fn can_move(&self, solids: nat) -> bool {
        self.can_move_x(solids) && self.can_move_y(solids)
    }
}

/// The largest distance of a coordinate sum from zero that the arithmetic
/// below meets: a coordinate and a half extent, each of 64 bits.
spec fn near(value: int) -> bool {
    -0x2_0000_0000_0000_0000 <= value <= 0x2_0000_0000_0000_0000
}

/// The length that two intervals share, for ends that are sums of two 64-bit
/// numbers.
fn shared(min_1: i128, max_1: i128, min_2: i128, max_2: i128) -> (length: i128)
    requires
        near(min_1 as int),
        near(max_1 as int),
        near(min_2 as int),
        near(max_2 as int),
    ensures
        length == overlap(min_1 as int, max_1 as int, min_2 as int, max_2 as int),
{
    let low = if min_1 >= min_2 { min_1 } else { min_2 };
    let high = if max_1 <= max_2 { max_1 } else { max_2 };
    if high - low >= 0 {
        high - low
    } else {
        0
    }
}

/// The length that the intervals `min_1 ..= max_1` and `min_2 ..= max_2`
/// share; zero where they are apart.
pub fn overlap_length(min_1: i64, max_1: i64, min_2: i64, max_2: i64) -> (length: u64)
    ensures
        length == overlap(min_1 as int, max_1 as int, min_2 as int, max_2 as int),
{
    shared(min_1 as i128, max_1 as i128, min_2 as i128, max_2 as i128) as u64
}

/// Two intervals share no more than the length of the first.
pub proof fn overlap_bounded(min_1: int, max_1: int, min_2: int, max_2: int)
    requires
        min_1 <= max_1,
    ensures
        0 <= overlap(min_1, max_1, min_2, max_2) <= max_1 - min_1,
{
}

/// A push is the shared length against the motion: backwards for a body that
/// moves forwards, forwards for one that moves backwards, none for one at rest.
pub proof fn correction_by_direction(length: int, velocity: int)
    ensures
        length * -sign(velocity) == if velocity > 0 {
            -length
        } else if velocity < 0 {
            length
        } else {
            0
        },
{
    if velocity > 0 {
        assert(length * -1 == -length);
    } else if velocity < 0 {
        assert(length * 1 == length);
    } else {
        assert(length * 0 == 0);
    }
}

/// Whether a moving body reaches into an interval over the end that it moves
/// towards, and not beyond the other end: `min_1 ..= max_1` is the body,
/// `min_2 ..= max_2` the interval.
pub open spec fn enters(min_1: int, max_1: int, velocity: int, min_2: int, max_2: int) -> bool {
    if velocity > 0 {
        min_1 <= min_2 < max_1 <= max_2
    } else if velocity < 0 {
        min_2 <= min_1 < max_2 <= max_1
    } else {
        false
    }
}

/// A body that has entered an interval is pushed back by exactly the length
/// that the two share, and shares none with it afterwards.
pub proof fn push_clears_overlap(position: int, half: int, velocity: int, solid: int, solid_half: int)
    requires
        enters(position - half, position + half, velocity, solid - solid_half, solid + solid_half),
    ensures
        ({
            let length = overlap(position - half, position + half, solid - solid_half, solid + solid_half);
            let push = correction(position, half, velocity, solid, solid_half);
            &&& length > 0
            &&& (push == length || push == -length)
            &&& overlap(position + push - half, position + push + half, solid - solid_half, solid + solid_half)
                == 0
        }),
{
    correction_by_direction(
        overlap(position - half, position + half, solid - solid_half, solid + solid_half),
        velocity,
    );
}

/// An actor that moves along x into a single solid ends the tick touching the
/// solid's near side, with no length shared along x.
pub proof fn actor_stops_at_solid(actor: Actor, solid: Solid)
    requires
        collides(actor.x + actor.velocity.x, actor.y as int, actor.collider, solid),
        enters(
            actor.x + actor.velocity.x - actor.collider.spec_half_width(),
            actor.x + actor.velocity.x + actor.collider.spec_half_width(),
            actor.velocity.x as int,
            solid.x - solid.collider.spec_half_width(),
            solid.x + solid.collider.spec_half_width(),
        ),
    ensures
        ({
            let half = actor.collider.spec_half_width() as int;
            let low = solid.x - solid.collider.spec_half_width();
            let high = solid.x + solid.collider.spec_half_width();
            let x = actor.next_x(seq![solid]);
            &&& overlap(x - half, x + half, low, high) == 0
            &&& actor.velocity.x > 0 ==> x + half == low
            &&& actor.velocity.x < 0 ==> x - half == high
        }),
{
    let solids = seq![solid];
    let start = actor.x + actor.velocity.x;
    let half = actor.collider.spec_half_width() as int;
    assert(solids.drop_last() =~= Seq::<Solid>::empty());
    assert(solids.last() == solid);
    assert(settle_x(start, actor.y as int, actor.velocity.x as int, actor.collider, solids.drop_last()) == start);
    assert(actor.next_x(solids) == start + correction(
        start,
        half,
        actor.velocity.x as int,
        solid.x as int,
        solid.collider.spec_half_width() as int,
    ));
    correction_by_direction(
        overlap(start - half, start + half, solid.x - solid.collider.spec_half_width(), solid.x + solid.collider.spec_half_width()),
        actor.velocity.x as int,
    );
    push_clears_overlap(
        actor.x + actor.velocity.x,
        actor.collider.spec_half_width() as int,
        actor.velocity.x as int,
        solid.x as int,
        solid.collider.spec_half_width() as int,
    );
}

/// An actor at rest along an axis is not pushed along it, whatever it
/// overlaps.
pub proof fn rest_is_not_corrected(position: int, half: int, solid: int, solid_half: int)
    ensures
        correction(position, half, 0, solid, solid_half) == 0,
{
    correction_by_direction(
        overlap(position - half, position + half, solid - solid_half, solid + solid_half),
        0,
    );
}

/// The direction of a velocity.
fn direction(velocity: i64) -> (dir: i128)
    ensures
        dir == sign(velocity as int),
{
    if velocity > 0 {
        1
    } else if velocity < 0 {
        -1
    } else {
        0
    }
}

/// Whether a rectangle at (`x`, `y`) and a solid share an area.
fn meets(x: i128, y: i128, collider: Collider, solid: &Solid) -> (hit: bool)
    requires
        i64::MIN <= x <= i64::MAX,
        i64::MIN <= y <= i64::MAX,
    ensures
        hit == collides(x as int, y as int, collider, *solid),
{
    let half_width = collider.half_width() as i128;
    let half_height = collider.half_height() as i128;
    let solid_x = solid.x as i128;
    let solid_y = solid.y as i128;
    let solid_half_width = solid.collider.half_width() as i128;
    let solid_half_height = solid.collider.half_height() as i128;
    x - half_width < solid_x + solid_half_width && x + half_width > solid_x - solid_half_width && y
        - half_height < solid_y + solid_half_height && y + half_height > solid_y - solid_half_height
}

/// Pushes along one axis move an actor by no more than its own extent for
/// each solid.
proof fn settle_x_stays_near(x: int, y: int, velocity: int, collider: Collider, solids: Seq<Solid>)
    requires
        collider.spec_half_width() > 0,
    ensures
        x - 2 * collider.spec_half_width() * solids.len() <= settle_x(x, y, velocity, collider, solids) <= x + 2
            * collider.spec_half_width() * solids.len(),
    decreases solids.len(),
{
    let half = collider.spec_half_width() as int;
    if solids.len() > 0 {
        let rest = solids.drop_last();
        settle_x_stays_near(x, y, velocity, collider, rest);
        let before = settle_x(x, y, velocity, collider, rest);
        let solid = solids.last();
        overlap_bounded(
            before - half,
            before + half,
            solid.x - solid.collider.spec_half_width(),
            solid.x + solid.collider.spec_half_width(),
        );
        correction_by_direction(
            overlap(
                before - half,
                before + half,
                solid.x - solid.collider.spec_half_width(),
                solid.x + solid.collider.spec_half_width(),
            ),
            velocity,
        );
        assert(2 * half * solids.len() == 2 * half * rest.len() + 2 * half) by (nonlinear_arith)
            requires
                solids.len() == rest.len() + 1,
        ;
    }
}

/// Pushes along one axis move an actor by no more than its own extent for
/// each solid.
proof fn settle_y_stays_near(x: int, y: int, velocity: int, collider: Collider, solids: Seq<Solid>)
    requires
        collider.spec_half_height() > 0,
    ensures
        y - 2 * collider.spec_half_height() * solids.len() <= settle_y(x, y, velocity, collider, solids) <= y + 2
            * collider.spec_half_height() * solids.len(),
    decreases solids.len(),
{
    let half = collider.spec_half_height() as int;
    if solids.len() > 0 {
        let rest = solids.drop_last();
        settle_y_stays_near(x, y, velocity, collider, rest);
        let before = settle_y(x, y, velocity, collider, rest);
        let solid = solids.last();
        overlap_bounded(
            before - half,
            before + half,
            solid.y - solid.collider.spec_half_height(),
            solid.y + solid.collider.spec_half_height(),
        );
        correction_by_direction(
            overlap(
                before - half,
                before + half,
                solid.y - solid.collider.spec_half_height(),
                solid.y + solid.collider.spec_half_height(),
            ),
            velocity,
        );
        assert(2 * half * solids.len() == 2 * half * rest.len() + 2 * half) by (nonlinear_arith)
            requires
                solids.len() == rest.len() + 1,
        ;
    }
}

/// A bound that holds for all solids holds for the first few.
proof fn reach_grows(half: int, some: nat, all: nat)
    requires
        half > 0,
        some <= all,
    ensures
        2 * half * some <= 2 * half * all,
{
    assert(2 * half * some <= 2 * half * all) by (nonlinear_arith)
        requires
            half > 0,
            some <= all,
    ;
}

impl Actor {
    /// Moves the actor along x by its velocity and pushes it back out of each
    /// of `solids` that it then meets, in their order.
    pub fn resolve_x(&mut self, solids: &Vec<Solid>)
        requires
            old(self).can_move_x(solids@.len()),
        ensures
            final(self).x == old(self).next_x(solids@),
            final(self).y == old(self).y,
            final(self).velocity == old(self).velocity,
            final(self).collider == old(self).collider,
    {
        let collider = self.collider;
        let half = collider.half_width() as i128;
        let dir = direction(self.velocity.x);
        let start: i128 = self.x as i128 + self.velocity.x as i128;
        let y: i128 = self.y as i128;
        let mut x: i128 = start;
        let mut i: usize = 0;
        assert(solids@.take(0) =~= Seq::empty());
        while i < solids.len()
            invariant
                i <= solids@.len(),
                collider == old(self).collider,
                half == collider.spec_half_width(),
                half > 0,
                dir == sign(old(self).velocity.x as int),
                start == old(self).x + old(self).velocity.x,
                y == old(self).y,
                old(self).can_move_x(solids@.len()),
                x == settle_x(start as int, y as int, old(self).velocity.x as int, collider, solids@.take(i as int)),
            decreases solids@.len() - i,
        {
            proof {
                settle_x_stays_near(start as int, y as int, old(self).velocity.x as int, collider, solids@.take(i as int));
                reach_grows(half as int, i as nat, solids@.len());
                assert(solids@.take(i + 1).drop_last() =~= solids@.take(i as int));
            }
            let solid = &solids[i];
            if meets(x, y, collider, solid) {
                let solid_half = solid.collider.half_width() as i128;
                let amount = shared(x - half, x + half, solid.x as i128 - solid_half, solid.x as i128 + solid_half);
                proof {
                    overlap_bounded(x - half, x + half, solid.x - solid_half, solid.x + solid_half);
                    correction_by_direction(amount as int, old(self).velocity.x as int);
                }
                x = x + amount * -dir;
            }
            i += 1;
        }
        proof {
            assert(solids@.take(i as int) =~= solids@);
            settle_x_stays_near(start as int, y as int, old(self).velocity.x as int, collider, solids@);
        }
        self.x = x as i64;
    }

    /// Moves the actor along y by its velocity and pushes it back out of each
    /// of `solids` that it then meets, in their order.
    pub fn resolve_y(&mut self, solids: &Vec<Solid>)
        requires
            old(self).can_move_y(solids@.len()),
        ensures
            final(self).x == old(self).x,
            final(self).y == settle_y(
                old(self).x as int,
                old(self).y + old(self).velocity.y,
                old(self).velocity.y as int,
                old(self).collider,
                solids@,
            ),
            final(self).velocity == old(self).velocity,
            final(self).collider == old(self).collider,
    {
        let collider = self.collider;
        let half = collider.half_height() as i128;
        let dir = direction(self.velocity.y);
        let start: i128 = self.y as i128 + self.velocity.y as i128;
        let x: i128 = self.x as i128;
        let mut y: i128 = start;
        let mut i: usize = 0;
        assert(solids@.take(0) =~= Seq::empty());
        while i < solids.len()
            invariant
                i <= solids@.len(),
                collider == old(self).collider,
                half == collider.spec_half_height(),
                half > 0,
                dir == sign(old(self).velocity.y as int),
                start == old(self).y + old(self).velocity.y,
                x == old(self).x,
                old(self).can_move_y(solids@.len()),
                y == settle_y(x as int, start as int, old(self).velocity.y as int, collider, solids@.take(i as int)),
            decreases solids@.len() - i,
        {
            proof {
                settle_y_stays_near(x as int, start as int, old(self).velocity.y as int, collider, solids@.take(i as int));
                reach_grows(half as int, i as nat, solids@.len());
                assert(solids@.take(i + 1).drop_last() =~= solids@.take(i as int));
            }
            let solid = &solids[i];
            if meets(x, y, collider, solid) {
                let solid_half = solid.collider.half_height() as i128;
                let amount = shared(y - half, y + half, solid.y as i128 - solid_half, solid.y as i128 + solid_half);
                proof {
                    overlap_bounded(y - half, y + half, solid.y - solid_half, solid.y + solid_half);
                    correction_by_direction(amount as int, old(self).velocity.y as int);
                }
                y = y + amount * -dir;
            }
            i += 1;
        }
        proof {
            assert(solids@.take(i as int) =~= solids@);
            settle_y_stays_near(x as int, start as int, old(self).velocity.y as int, collider, solids@);
        }
        self.y = y as i64;
    }

    /// One tick of the actor among `solids`: first along x, then along y.
    pub fn step(&mut self, solids: &Vec<Solid>)
        requires
            old(self).can_move(solids@.len()),
        ensures
            final(self).x == old(self).next_x(solids@),
            final(self).y == old(self).next_y(solids@),
            final(self).velocity == old(self).velocity,
            final(self).collider == old(self).collider,
    {
        self.resolve_x(solids);
        self.resolve_y(solids);
    }

    /// Whether the actor can take a tick among `solids` solids with all its
    /// coordinates in range.
    pub fn has_room(&self, solids: usize) -> (ok: bool)
        ensures
            ok == self.can_move(solids as nat),
    {
        let count = solids as i128;
        let wide = self.collider.half_width() as i128;
        let high = self.collider.half_height() as i128;
        let x = self.x as i128 + self.velocity.x as i128;
        let y = self.y as i128 + self.velocity.y as i128;
        let low = i64::MIN as i128;
        let top = i64::MAX as i128;
        proof {
            span_fits(wide as int, count as int);
            span_fits(high as int, count as int);
            assert(2 * wide * count == 2 * (wide * count)) by (nonlinear_arith);
            assert(2 * high * count == 2 * (high * count)) by (nonlinear_arith);
        }
        let span_x = wide * count;
        let span_y = high * count;
        twice_within(span_x, x - low) && twice_within(span_x, top - x) && twice_within(span_y, y - low)
            && twice_within(span_y, top - y)
    }
}

/// Whether twice `span` is at most `room`.
fn twice_within(span: i128, room: i128) -> (ok: bool)
    requires
        0 <= span,
        near(room as int),
    ensures
        ok == (2 * span <= room),
{
    room >= 0 && span <= room / 2
}

/// The product of a half extent and a count of solids is far from the ends of
/// 128 bits.
proof fn span_fits(half: int, count: int)
    requires
        0 < half <= i64::MAX,
        0 <= count <= u64::MAX,
    ensures
        0 <= half * count <= 0x7fff_ffff_ffff_ffff * 0xffff_ffff_ffff_ffff,
{
    assert(0 <= half * count <= 0x7fff_ffff_ffff_ffff * 0xffff_ffff_ffff_ffff) by (nonlinear_arith)
        requires
            0 < half <= 0x7fff_ffff_ffff_ffff,
            0 <= count <= 0xffff_ffff_ffff_ffff,
    ;
}

/// One tick of every actor among `solids`.
///
/// Actors do not meet each other: each one moves as if it were alone with the
/// solids.
pub fn update(actors: &mut Vec<Actor>, solids: &Vec<Solid>)
    requires
        forall|i: int| 0 <= i < old(actors)@.len() ==> (#[trigger] old(actors)@[i]).can_move(solids@.len()),
    ensures
        final(actors)@.len() == old(actors)@.len(),
        forall|i: int|
            0 <= i < old(actors)@.len() ==> {
                let before = old(actors)@[i];
                let after = #[trigger] final(actors)@[i];
                &&& after.x == before.next_x(solids@)
                &&& after.y == before.next_y(solids@)
                &&& after.velocity == before.velocity
                &&& after.collider == before.collider
            },
{
    let mut i: usize = 0;
    while i < actors.len()
        invariant
            i <= actors@.len(),
            actors@.len() == old(actors)@.len(),
            forall|j: int| i <= j < actors@.len() ==> actors@[j] == old(actors)@[j],
            forall|j: int| 0 <= j < old(actors)@.len() ==> (#[trigger] old(actors)@[j]).can_move(solids@.len()),
            forall|j: int|
                0 <= j < i ==> {
                    let before = old(actors)@[j];
                    let after = #[trigger] actors@[j];
                    &&& after.x == before.next_x(solids@)
                    &&& after.y == before.next_y(solids@)
                    &&& after.velocity == before.velocity
                    &&& after.collider == before.collider
                },
        decreases actors@.len() - i,
    {
        let mut actor = actors[i];
        assert(actor == old(actors)@[i as int]);
        actor.step(solids);
        actors.set(i, actor);
        i += 1;
    }
}

} // verus!
