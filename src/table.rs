use vstd::prelude::*;

use crate::pool::{Ball, Pocket};
use crate::MAX_BALLS;

verus! {

/// Row on which every ball starts.
pub const BALL_ROW: i128 = 6000;

/// Row on which every pocket stands.
pub const POCKET_ROW: i128 = 2000;

/// Smallest x-position that the generator draws.
pub const LOWEST_X: u16 = 2500;

/// Number of distinct x-positions that the generator draws.
pub const X_SPAN: u16 = 5001;

/// The balls and pockets of one session, paired by index.
#[derive(Clone, Debug)]
pub struct Table {
    pub balls: Vec<Ball>,
    pub pockets: Vec<Pocket>,
}

/// One xorshift64 step: `x ^= x << 21; x ^= x >> 35; x ^= x << 4`.
pub open spec fn xorshift(x: u64) -> u64 {
    let a = x ^ (x << 21u64);
    let b = a ^ (a >> 35u64);
    b ^ (b << 4u64)
}

/// The generator's state after `k` steps from `seed`.
pub open spec fn state_after(seed: u64, k: nat) -> u64
    decreases k,
{
    if k == 0 {
        seed
    } else {
        xorshift(state_after(seed, (k - 1) as nat))
    }
}

/// The x-position drawn from a state: its low 14 bits, taken modulo 5001, plus 2500.
pub open spec fn draw(s: u64) -> int {
    (s & 16383u64) as int % X_SPAN as int + LOWEST_X as int
}

/// The `j`-th ball of the table generated from `seed`.
pub open spec fn table_ball(seed: u64, j: int) -> Ball {
    Ball(draw(state_after(seed, (2 * j + 1) as nat)) as i128, BALL_ROW, 0, 0)
}

/// The `j`-th pocket of the table generated from `seed`.
pub open spec fn table_pocket(seed: u64, j: int) -> Pocket {
    Pocket(draw(state_after(seed, (2 * j + 2) as nat)) as i128, POCKET_ROW)
}

/// `t` is the table generated from `seed`.
pub open spec fn generated(t: Table, seed: u64) -> bool {
    &&& t.balls@ == Seq::new(MAX_BALLS as nat, |j: int| table_ball(seed, j))
    &&& t.pockets@ == Seq::new(MAX_BALLS as nat, |j: int| table_pocket(seed, j))
}

/// Advances the xorshift64 state and draws an x-position in `[2500, 7500]` from it.
pub fn rand(x: &mut u64) -> (r: u16)
    ensures
        *final(x) == xorshift(*old(x)),
        r == draw(*final(x)),
        LOWEST_X <= r <= 7500,
{
    *x = *x ^ (*x << 21u64);
    *x = *x ^ (*x >> 35u64);
    *x = *x ^ (*x << 4u64);
    let mask: u64 = 16383;
    let masked_value = *x & mask;
    assert(masked_value <= 16383) by (bit_vector)
        requires
            masked_value == *x & mask,
            mask == 16383,
    ;
    (masked_value as u16) % X_SPAN + LOWEST_X
}

/// Generates the table of a session from `seed`: each ball at `(draw, 6000)` at rest,
/// each pocket at `(draw, 2000)`, ball and pocket drawn in turn.
pub fn create_table(seed: u64) -> (r: Table)
    ensures
        generated(r, seed),
        forall|j: int| 0 <= j < MAX_BALLS ==> LOWEST_X <= #[trigger] r.balls@[j].0 <= 7500,
        forall|j: int| 0 <= j < MAX_BALLS ==> LOWEST_X <= #[trigger] r.pockets@[j].0 <= 7500,
{
    let mut state: u64 = seed;
    let mut balls: Vec<Ball> = Vec::new();
    let mut pockets: Vec<Pocket> = Vec::new();
    let mut i: usize = 0;
    while i < MAX_BALLS
        invariant
            i <= MAX_BALLS,
            state == state_after(seed, (2 * i) as nat),
            balls@ == Seq::new(i as nat, |j: int| table_ball(seed, j)),
            pockets@ == Seq::new(i as nat, |j: int| table_pocket(seed, j)),
            forall|j: int| 0 <= j < i ==> LOWEST_X <= #[trigger] balls@[j].0 <= 7500,
            forall|j: int| 0 <= j < i ==> LOWEST_X <= #[trigger] pockets@[j].0 <= 7500,
        decreases MAX_BALLS - i,
    {
        let bx = rand(&mut state);
        balls.push(Ball(bx as i128, BALL_ROW, 0, 0));
        let px = rand(&mut state);
        pockets.push(Pocket(px as i128, POCKET_ROW));
        assert(state_after(seed, (2 * i + 1) as nat) == xorshift(state_after(seed, (2 * i) as nat)));
        assert(state_after(seed, (2 * i + 2) as nat) == xorshift(
            state_after(seed, (2 * i + 1) as nat),
        ));
        assert(balls@ =~= Seq::new((i + 1) as nat, |j: int| table_ball(seed, j)));
        assert(pockets@ =~= Seq::new((i + 1) as nat, |j: int| table_pocket(seed, j)));
        i += 1;
    }
    Table { balls, pockets }
}

} // verus!
