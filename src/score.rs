use vstd::prelude::*;

use crate::pool::{fits, potted, Ball, Pool};
use crate::table::Table;
use crate::MAX_BALLS;

verus! {

/// Bonus for the first pot of a turn.
pub const OPENING_BONUS: u32 = 12;

/// Points for each ball of the current streak, added after every trial.
pub const STREAK_POINTS: u32 = 9;

/// The `i`-th trial of a turn: the `i`-th cue ball against the `i`-th ball and pocket.
pub open spec fn trial(table: Table, shot: Seq<Ball>, i: int) -> Pool {
    Pool { cue_ball: shot[i], color_ball: table.balls@[i], pocket: table.pockets@[i] }
}

/// Whether each trial of a turn pots its ball.
pub open spec fn outcomes(table: Table, shot: Seq<Ball>) -> Seq<bool> {
    Seq::new(MAX_BALLS as nat, |i: int| potted(trial(table, shot, i)))
}

/// Every trial of a turn stays within `i128`.
pub open spec fn shot_fits(table: Table, shot: Seq<Ball>) -> bool {
    forall|i: int| 0 <= i < MAX_BALLS ==> #[trigger] fits(trial(table, shot, i))
}

/// The opening bonus is due: a pot while the score is still zero.
pub open spec fn bonus(score: int, pot: bool) -> int {
    if pot && score == 0 {
        OPENING_BONUS as int
    } else {
        0
    }
}

/// One trial folded into `(score, streak)`: a pot extends the streak and may earn the
/// opening bonus, a miss resets it; then the streak times nine is added.
pub open spec fn step(s: (int, int), pot: bool) -> (int, int) {
    let streak = if pot {
        s.1 + 1
    } else {
        0
    };
    (s.0 + bonus(s.0, pot) + streak * STREAK_POINTS, streak)
}

/// `(score, streak)` after the first `n` trials.
pub open spec fn tally(pots: Seq<bool>, n: nat) -> (int, int)
    decreases n,
{
    if n == 0 {
        (0, 0)
    } else {
        step(tally(pots, (n - 1) as nat), pots[n - 1])
    }
}

/// The running score after the first `n` trials.
pub open spec fn score_after(pots: Seq<bool>, n: nat) -> int {
    tally(pots, n).0
}

/// The running streak after the first `n` trials.
pub open spec fn streak_after(pots: Seq<bool>, n: nat) -> int {
    tally(pots, n).1
}

/// The score of a turn.
pub open spec fn turn_score(table: Table, shot: Seq<Ball>) -> int {
    score_after(outcomes(table, shot), MAX_BALLS as nat)
}

/// The table and the shot both hold a full set of balls.
pub open spec fn full_turn(table: Table, shot: Seq<Ball>) -> bool {
    &&& table.balls@.len() >= MAX_BALLS
    &&& table.pockets@.len() >= MAX_BALLS
    &&& shot.len() >= MAX_BALLS
}

/// Scores a turn, or returns `None` where some trial leaves `i128`.
pub fn try_compute_score(table: &Table, shot: &Vec<Ball>) -> (r: Option<u32>)
    requires
        full_turn(*table, shot@),
    ensures
        r.is_some() == shot_fits(*table, shot@),
        r.is_some() ==> r.unwrap() == turn_score(*table, shot@),
        r.is_some() ==> r.unwrap() <= 147,
{
    let ghost pots = outcomes(*table, shot@);
    let mut score: u32 = 0;
    let mut streak: u32 = 0;
    let mut i: usize = 0;
    while i < MAX_BALLS
        invariant
            full_turn(*table, shot@),
            pots == outcomes(*table, shot@),
            i <= MAX_BALLS,
            score == score_after(pots, i as nat),
            streak == streak_after(pots, i as nat),
            streak <= i,
            score <= 57 * i,
            forall|j: int| 0 <= j < i ==> #[trigger] fits(trial(*table, shot@, j)),
        decreases MAX_BALLS - i,
    {
        let mut pool = Pool { cue_ball: shot[i], color_ball: table.balls[i], pocket: table.pockets[i] };
        assert(pool == trial(*table, shot@, i as int));
        let pot = match pool.try_is_potted() {
            Some(b) => b,
            None => return None,
        };
        if pot {
            streak += 1;
            if score == 0 {
                score += OPENING_BONUS;
            }
        } else {
            streak = 0;
        }
        score += streak * STREAK_POINTS;
        i += 1;
    }
    proof {
        lemma_turn_at_most_max_break(pots);
    }
    Some(score)
}

/// Scores a turn whose trials all stay within `i128`.
pub fn compute_score(table: &Table, shot: &Vec<Ball>) -> (r: u32)
    requires
        full_turn(*table, shot@),
        shot_fits(*table, shot@),
    ensures
        r == turn_score(*table, shot@),
        r <= 147,
{
    match try_compute_score(table, shot) {
        Some(r) => r,
        None => 0,
    }
}

/// Scores and streaks never go below zero.
pub proof fn lemma_tally_nonnegative(pots: Seq<bool>, n: nat)
    ensures
        score_after(pots, n) >= 0,
        streak_after(pots, n) >= 0,
    decreases n,
{
    if n > 0 {
        lemma_tally_nonnegative(pots, (n - 1) as nat);
    }
}

/// `1 + 2 + ... + n`.
pub open spec fn triangle(n: nat) -> nat
    decreases n,
{
    if n == 0 {
        0
    } else {
        n + triangle((n - 1) as nat)
    }
}

/// After `n` trials the streak is at most `n`.
pub proof fn lemma_streak_at_most(pots: Seq<bool>, n: nat)
    ensures
        streak_after(pots, n) <= n,
    decreases n,
{
    if n > 0 {
        lemma_streak_at_most(pots, (n - 1) as nat);
    }
}

/// After `n` trials the score is at most the opening bonus plus nine times `1 + ... + n`.
pub proof fn lemma_score_at_most(pots: Seq<bool>, n: nat)
    ensures
        score_after(pots, n) <= OPENING_BONUS + STREAK_POINTS * triangle(n),
    decreases n,
{
    if n > 0 {
        lemma_score_at_most(pots, (n - 1) as nat);
        lemma_streak_at_most(pots, (n - 1) as nat);
        lemma_tally_nonnegative(pots, (n - 1) as nat);
    }
}

/// No turn scores more than the maximum break.
pub proof fn lemma_turn_at_most_max_break(pots: Seq<bool>)
    ensures
        0 <= score_after(pots, MAX_BALLS as nat) <= 147,
{
    lemma_score_at_most(pots, MAX_BALLS as nat);
    lemma_tally_nonnegative(pots, MAX_BALLS as nat);
    reveal_with_fuel(triangle, 6);
}

/// A turn that pots every ball scores 21, 39, 66, 102 and 147 after its five trials.
pub proof fn lemma_full_break(pots: Seq<bool>)
    requires
        pots.len() == MAX_BALLS,
        forall|i: int| 0 <= i < MAX_BALLS ==> pots[i],
    ensures
        score_after(pots, 1) == 21,
        score_after(pots, 2) == 39,
        score_after(pots, 3) == 66,
        score_after(pots, 4) == 102,
        score_after(pots, 5) == 147,
{
    assert(pots[0] && pots[1] && pots[2] && pots[3] && pots[4]);
    assert(tally(pots, 0) == (0int, 0int));
    assert(tally(pots, 1) == (21int, 1int));
    assert(tally(pots, 2) == (39int, 2int));
    assert(tally(pots, 3) == (66int, 3int));
    assert(tally(pots, 4) == (102int, 4int));
    assert(tally(pots, 5) == (147int, 5int));
}

/// A miss resets the streak and leaves the score where it was.
pub proof fn lemma_miss_resets_streak(pots: Seq<bool>, k: nat)
    requires
        k < pots.len(),
        !pots[k as int],
    ensures
        streak_after(pots, k + 1) == 0,
        score_after(pots, k + 1) == score_after(pots, k),
{
}

/// The running score never decreases from one trial to a later one.
pub proof fn lemma_score_never_decreases(pots: Seq<bool>, m: nat, n: nat)
    requires
        m <= n,
    ensures
        score_after(pots, m) <= score_after(pots, n),
    decreases n,
{
    if m < n {
        lemma_score_never_decreases(pots, m, (n - 1) as nat);
        lemma_tally_nonnegative(pots, (n - 1) as nat);
    }
}

/// The score is still zero exactly while no ball has been potted.
pub proof fn lemma_zero_until_first_pot(pots: Seq<bool>, n: nat)
    requires
        n <= pots.len(),
    ensures
        score_after(pots, n) == 0 <==> forall|i: int| 0 <= i < n ==> !pots[i],
    decreases n,
{
    if n > 0 {
        lemma_zero_until_first_pot(pots, (n - 1) as nat);
        lemma_tally_nonnegative(pots, (n - 1) as nat);
        if score_after(pots, n) == 0 {
            assert forall|i: int| 0 <= i < n implies !pots[i] by {}
        }
    }
}

/// The opening bonus is earned at trial `k` exactly when `k` is the first pot.
pub proof fn lemma_bonus_at_first_pot(pots: Seq<bool>, k: nat)
    requires
        k < pots.len(),
    ensures
        (bonus(score_after(pots, k), pots[k as int]) == OPENING_BONUS) <==> (pots[k as int]
            && forall|i: int| 0 <= i < k ==> !pots[i]),
{
    lemma_zero_until_first_pot(pots, k);
}

/// The opening bonus is earned at most once in a turn.
pub proof fn lemma_bonus_once(pots: Seq<bool>, j: nat, k: nat)
    requires
        j < k < pots.len(),
    ensures
        bonus(score_after(pots, j), pots[j as int]) == 0 || bonus(
            score_after(pots, k),
            pots[k as int],
        ) == 0,
{
    lemma_bonus_at_first_pot(pots, j);
    lemma_bonus_at_first_pot(pots, k);
}

} // verus!
