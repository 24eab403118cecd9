use vstd::prelude::*;

verus! {

/// Squared distance between two centres below which the balls touch.
pub const DIAMETER_SQUARED: i128 = 1000000;

/// Squared capture radius of a pocket: four times the squared ball radius, times 1.5.
pub const RADIUS_SQUARED: i128 = 562500;

/// One in the Q36 fixed-point scale of the inverse squared distance.
pub const FIXED_ONE: i128 = 68719476736;

/// Factor by which the colour ball's velocity is projected towards the pocket.
pub const PROJECTION: i128 = 5;

/// A ball: `Ball(position_x, position_y, velocity_x, velocity_y)`.
#[derive(Clone, Copy, Debug, PartialEq, Eq, Structural)]
pub struct Ball(pub i128, pub i128, pub i128, pub i128);

/// A pocket: `Pocket(position_x, position_y)`.
#[derive(Clone, Copy, Debug, PartialEq, Eq, Structural)]
pub struct Pocket(pub i128, pub i128);

/// One trial: a cue ball struck at a colour ball that should end in a pocket.
#[derive(Clone, Copy, Debug, PartialEq, Eq, Structural)]
pub struct Pool {
    pub cue_ball: Ball,
    pub color_ball: Ball,
    pub pocket: Pocket,
}

/// Whether an intermediate value of the engine fits in an `i128`.
pub open spec fn in_i128(v: int) -> bool {
    i128::MIN <= v <= i128::MAX
}

/// Displacement from the cue ball to the colour ball, along x.
pub open spec fn x_gap(p: Pool) -> int {
    p.color_ball.0 - p.cue_ball.0
}

/// Displacement from the cue ball to the colour ball, along y.
pub open spec fn y_gap(p: Pool) -> int {
    p.color_ball.1 - p.cue_ball.1
}

/// Squared distance between the centres of the two balls.
pub open spec fn distance_squared(p: Pool) -> int {
    x_gap(p) * x_gap(p) + y_gap(p) * y_gap(p)
}

/// The balls touch: the contact boundary itself is exclusive.
pub open spec fn in_contact(p: Pool) -> bool {
    distance_squared(p) < DIAMETER_SQUARED
}

/// Momentum passes between the balls: they touch and do not lie on one another.
pub open spec fn exchanges(p: Pool) -> bool {
    in_contact(p) && distance_squared(p) != 0
}

/// Inverse squared distance in Q36.
pub open spec fn mag_inv(p: Pool) -> int {
    FIXED_ONE as int / distance_squared(p)
}

/// Collision normal along x, scaled by the inverse squared distance.
pub open spec fn normal_x(p: Pool) -> int {
    x_gap(p) * mag_inv(p)
}

/// Collision normal along y, scaled by the inverse squared distance.
pub open spec fn normal_y(p: Pool) -> int {
    y_gap(p) * mag_inv(p)
}

/// The cue ball's velocity projected on the normal, negated.
pub open spec fn rel(p: Pool) -> int {
    (-p.cue_ball.2) * normal_x(p) - p.cue_ball.3 * normal_y(p)
}

/// Impulse along x: `(rel * nx) >> 36`, an arithmetic shift.
pub open spec fn impulse_x(p: Pool) -> int {
    ((rel(p) * normal_x(p)) as i128 >> 36u32) as int
}

/// Impulse along y: `(rel * ny) >> 36`, an arithmetic shift.
pub open spec fn impulse_y(p: Pool) -> int {
    ((rel(p) * normal_y(p)) as i128 >> 36u32) as int
}

/// The trial after the momentum exchange; unchanged where no momentum passes.
pub open spec fn collided(p: Pool) -> Pool {
    if exchanges(p) {
        Pool {
            cue_ball: Ball(
                p.cue_ball.0,
                p.cue_ball.1,
                (p.cue_ball.2 + impulse_x(p)) as i128,
                (p.cue_ball.3 + impulse_y(p)) as i128,
            ),
            color_ball: Ball(
                p.color_ball.0,
                p.color_ball.1,
                (p.color_ball.2 - impulse_x(p)) as i128,
                (p.color_ball.3 - impulse_y(p)) as i128,
            ),
            pocket: p.pocket,
        }
    } else {
        p
    }
}

/// Direction of the capture line along x: `x * vx * 5 - x`.
pub open spec fn aim_x(b: Ball) -> int {
    b.0 * b.2 * PROJECTION - b.0
}

/// Direction of the capture line along y: `y * vy * 5 - y`.
pub open spec fn aim_y(b: Ball) -> int {
    b.1 * b.3 * PROJECTION - b.1
}

/// Signed offset of the pocket from the capture line through the ball.
pub open spec fn offset(b: Ball, k: Pocket) -> int {
    aim_x(b) * (b.1 - k.1) - aim_y(b) * (b.0 - k.0)
}

/// Non-negative exactly when the capture line meets the pocket's capture circle.
pub open spec fn discriminant(b: Ball, k: Pocket) -> int {
    RADIUS_SQUARED * (aim_x(b) * aim_x(b) + aim_y(b) * aim_y(b)) - offset(b, k) * offset(b, k)
}

/// The capture line of the ball passes within the pocket's capture radius.
pub open spec fn captured(b: Ball, k: Pocket) -> bool {
    discriminant(b, k) >= 0
}

/// The colour ball is potted: the balls touch and, after the exchange, it is captured.
pub open spec fn potted(p: Pool) -> bool {
    in_contact(p) && captured(collided(p).color_ball, p.pocket)
}

/// Every intermediate value of the momentum exchange fits in an `i128`.
pub open spec fn exchange_fits(p: Pool) -> bool {
    &&& in_i128(normal_x(p))
    &&& in_i128(normal_y(p))
    &&& in_i128(-p.cue_ball.2)
    &&& in_i128((-p.cue_ball.2) * normal_x(p))
    &&& in_i128(p.cue_ball.3 * normal_y(p))
    &&& in_i128(rel(p))
    &&& in_i128(rel(p) * normal_x(p))
    &&& in_i128(rel(p) * normal_y(p))
    &&& in_i128(p.cue_ball.2 + impulse_x(p))
    &&& in_i128(p.cue_ball.3 + impulse_y(p))
    &&& in_i128(p.color_ball.2 - impulse_x(p))
    &&& in_i128(p.color_ball.3 - impulse_y(p))
}

/// Every intermediate value of the capture test fits in an `i128`.
pub open spec fn capture_fits(b: Ball, k: Pocket) -> bool {
    &&& in_i128(b.0 * b.2)
    &&& in_i128(b.0 * b.2 * PROJECTION)
    &&& in_i128(aim_x(b))
    &&& in_i128(b.1 * b.3)
    &&& in_i128(b.1 * b.3 * PROJECTION)
    &&& in_i128(aim_y(b))
    &&& in_i128(b.1 - k.1)
    &&& in_i128(aim_x(b) * (b.1 - k.1))
    &&& in_i128(b.0 - k.0)
    &&& in_i128(aim_y(b) * (b.0 - k.0))
    &&& in_i128(offset(b, k))
    &&& in_i128(aim_x(b) * aim_x(b))
    &&& in_i128(aim_y(b) * aim_y(b))
    &&& in_i128(aim_x(b) * aim_x(b) + aim_y(b) * aim_y(b))
    &&& in_i128(RADIUS_SQUARED * (aim_x(b) * aim_x(b) + aim_y(b) * aim_y(b)))
    &&& in_i128(offset(b, k) * offset(b, k))
    &&& in_i128(discriminant(b, k))
}

/// Every intermediate value of the trial fits in an `i128`.
pub open spec fn fits(p: Pool) -> bool {
    &&& in_i128(x_gap(p))
    &&& in_i128(y_gap(p))
    &&& in_i128(x_gap(p) * x_gap(p))
    &&& in_i128(y_gap(p) * y_gap(p))
    &&& in_i128(distance_squared(p))
    &&& in_contact(p) ==> {
        &&& exchanges(p) ==> exchange_fits(p)
        &&& capture_fits(collided(p).color_ball, p.pocket)
    }
}

/// Negation that fails only on `i128::MIN`.
fn negate(v: i128) -> (r: Option<i128>)
    ensures
        r == (if in_i128(-v) { Some((-v) as i128) } else { None::<i128> }),
{
    if v == i128::MIN {
        None
    } else {
        Some(-v)
    }
}

/// Tests whether the capture line of `b` passes within the capture radius of `k`.
/// Returns `None` where an intermediate value does not fit in an `i128`.
fn capture(b: &Ball, k: &Pocket) -> (r: Option<bool>)
    ensures
        r.is_some() == capture_fits(*b, *k),
        r.is_some() ==> r.unwrap() == captured(*b, *k),
{
    let dx = b.0.checked_mul(b.2)?.checked_mul(PROJECTION)?.checked_sub(b.0)?;
    let dy = b.1.checked_mul(b.3)?.checked_mul(PROJECTION)?.checked_sub(b.1)?;
    let across = dx.checked_mul(b.1.checked_sub(k.1)?)?;
    let along = dy.checked_mul(b.0.checked_sub(k.0)?)?;
    let d = across.checked_sub(along)?;
    let length = dx.checked_mul(dx)?.checked_add(dy.checked_mul(dy)?)?;
    let disc = RADIUS_SQUARED.checked_mul(length)?.checked_sub(d.checked_mul(d)?)?;
    Some(disc >= 0)
}

impl Pool {
    /// Runs the trial and reports whether the colour ball is potted; the balls take
    /// their velocities after the collision. Returns `None`, and changes nothing,
    /// where an intermediate value does not fit in an `i128`.
    pub fn try_is_potted(&mut self) -> (r: Option<bool>)
        ensures
            r.is_some() == fits(*old(self)),
            r.is_some() ==> r.unwrap() == potted(*old(self)) && *final(self) == collided(
                *old(self),
            ),
            r.is_none() ==> *final(self) == *old(self),
    {
        let xd = self.color_ball.0.checked_sub(self.cue_ball.0)?;
        let yd = self.color_ball.1.checked_sub(self.cue_ball.1)?;
        let distance_squared = xd.checked_mul(xd)?.checked_add(yd.checked_mul(yd)?)?;
        if distance_squared >= DIAMETER_SQUARED {
            return Some(false);
        }
        let mut cue = self.cue_ball;
        let mut color = self.color_ball;
        if distance_squared != 0 {
            assert(0 <= xd * xd + yd * yd) by (nonlinear_arith);
            let mag_inv = FIXED_ONE / distance_squared;
            let nx = xd.checked_mul(mag_inv)?;
            let ny = yd.checked_mul(mag_inv)?;
            let rel = negate(cue.2)?.checked_mul(nx)?.checked_sub(cue.3.checked_mul(ny)?)?;
            let ix = rel.checked_mul(nx)? >> 36u32;
            let iy = rel.checked_mul(ny)? >> 36u32;
            cue.2 = cue.2.checked_add(ix)?;
            cue.3 = cue.3.checked_add(iy)?;
            color.2 = color.2.checked_sub(ix)?;
            color.3 = color.3.checked_sub(iy)?;
        }
        let result = capture(&color, &self.pocket)?;
        self.cue_ball = cue;
        self.color_ball = color;
        Some(result)
    }

    /// Runs the trial and reports whether the colour ball is potted. Balls that touch
    /// exchange momentum along the line of their centres (unless they lie on one
    /// another), and the colour ball is potted when its capture line passes within
    /// the pocket's capture radius. The balls keep their velocities after the collision.
    pub fn is_potted(&mut self) -> (r: bool)
        requires
            fits(*old(self)),
        ensures
            r == potted(*old(self)),
            *final(self) == collided(*old(self)),
            !in_contact(*old(self)) ==> !r && *final(self) == *old(self),
            distance_squared(*old(self)) == 0 ==> *final(self) == *old(self) && r == captured(
                old(self).color_ball,
                old(self).pocket,
            ),
    {
        match self.try_is_potted() {
            Some(r) => r,
            None => false,
        }
    }
}

/// Builds the trial of a cue ball, a colour ball and its pocket.
#[allow(non_snake_case)]
pub fn Pool(cue_ball: Ball, color_ball: Ball, pocket: Pocket) -> (r: Pool)
    ensures
        r == (Pool { cue_ball, color_ball, pocket }),
{
    Pool { cue_ball, color_ball, pocket }
}

} // verus!
