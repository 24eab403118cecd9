use vstd::prelude::*;

use crate::pool::Ball;
use crate::score::{full_turn, shot_fits, try_compute_score, turn_score};
use crate::table::{create_table, generated, Table};
use crate::MAX_BALLS;

verus! {

/// Time within which a turn must be played after its table was dealt.
pub const MAX_TURN_TIME: u64 = 180;

/// The maximum break, which earns the reward.
pub const MAX_BREAK: u32 = 147;

#[derive(Clone, Copy, Debug, PartialEq, Eq, Structural)]
pub enum Error {
    /// The game has not been configured.
    NoAdmin,
    /// The game was configured already.
    AlreadyInitialized,
    /// No table is dealt, or it is stale, or it lacks balls or pockets.
    InvalidPoolTable,
    /// The shot lacks cue balls, or its arithmetic leaves `i128`.
    InvalidShot,
}

/// The game's configuration, set once; `A` is the type of an account.
#[derive(Clone, Debug)]
pub struct Admin<A> {
    pub admin: A,
    pub payment_token: A,
    pub payment_amount: i128,
    pub reward_token: A,
    pub reward_amount: i128,
}

/// When the table of a session was dealt.
#[derive(Clone, Copy, Debug, PartialEq, Eq, Structural)]
pub struct Session {
    pub ledger_time: u64,
}

/// What inserting a coin yields: a table, its session, and the payment owed for it.
#[derive(Clone, Debug)]
pub struct Deal {
    pub table: Table,
    pub session: Session,
    pub payment: Option<i128>,
}

/// What a turn yields: its score, and the reward owed for it.
#[derive(Clone, Copy, Debug, PartialEq, Eq, Structural)]
pub struct Outcome {
    pub score: u32,
    pub reward: Option<i128>,
}

/// The table was dealt at most 180 time units before `now`.
pub open spec fn fresh(stamp: u64, now: u64) -> bool {
    stamp + MAX_TURN_TIME >= now
}

/// The table holds a full set of balls and pockets.
pub open spec fn well_formed(t: Table) -> bool {
    t.balls@.len() >= MAX_BALLS && t.pockets@.len() >= MAX_BALLS
}

/// The seed of a table: the ledger time plus the ledger sequence plus one.
pub open spec fn seed_of(timestamp: u64, sequence: u32) -> int {
    timestamp + sequence + 1
}

/// A payment is owed for a table where the configured amount is positive.
pub open spec fn payment_due<A>(config: Admin<A>) -> Option<i128> {
    if config.payment_amount > 0 {
        Some(config.payment_amount)
    } else {
        None
    }
}

/// A reward is owed for the maximum break where the configured amount is positive.
pub open spec fn reward_due<A>(config: Admin<A>, score: int) -> Option<i128> {
    if score == MAX_BREAK && config.reward_amount > 0 {
        Some(config.reward_amount)
    } else {
        None
    }
}

/// Why a turn is refused, if it is.
pub open spec fn turn_error<A>(
    config: Option<Admin<A>>,
    session: Option<Session>,
    table: Option<Table>,
    now: u64,
    shot: Seq<Ball>,
) -> Option<Error> {
    if config is None {
        Some(Error::NoAdmin)
    } else if session is None || table is None || !fresh(session.unwrap().ledger_time, now)
        || !well_formed(table.unwrap()) {
        Some(Error::InvalidPoolTable)
    } else if shot.len() < MAX_BALLS || !shot_fits(table.unwrap(), shot) {
        Some(Error::InvalidShot)
    } else {
        None
    }
}

/// Tells whether a table dealt at `stamp` can still be played at `now`, and holds a
/// full set of balls and pockets.
pub fn validate_session(stamp: u64, now: u64, table: &Table) -> (r: bool)
    ensures
        r == (fresh(stamp, now) && well_formed(*table)),
{
    let stale = now > MAX_TURN_TIME && stamp < now - MAX_TURN_TIME;
    !stale && table.balls.len() >= MAX_BALLS && table.pockets.len() >= MAX_BALLS
}

/// The seed of a table from the ledger time and sequence; `None` where the sequence plus
/// one leaves `u32` or the seed leaves `u64`.
pub fn table_seed(timestamp: u64, sequence: u32) -> (r: Option<u64>)
    ensures
        r == (if sequence < u32::MAX && seed_of(timestamp, sequence) <= u64::MAX {
            Some(seed_of(timestamp, sequence) as u64)
        } else {
            None::<u64>
        }),
{
    if sequence == u32::MAX {
        return None;
    }
    timestamp.checked_add((sequence + 1) as u64)
}

/// Sets the configuration, once.
pub fn initialize<A>(config: &mut Option<Admin<A>>, admin: Admin<A>) -> (r: Result<bool, Error>)
    ensures
        old(config).is_some() ==> r == Err::<bool, Error>(Error::AlreadyInitialized)
            && *final(config) == *old(config),
        old(config).is_none() ==> r == Ok::<bool, Error>(true) && *final(config) == Some(admin),
{
    if config.is_some() {
        return Err(Error::AlreadyInitialized);
    }
    *config = Some(admin);
    Ok(true)
}

/// Deals the table of a new session at ledger time `timestamp`, generated from `seed`,
/// with the payment that the configuration asks for it.
pub fn insertcoin<A>(config: &Option<Admin<A>>, seed: u64, timestamp: u64) -> (r: Result<
    Deal,
    Error,
>)
    ensures
        config is None ==> r == Err::<Deal, Error>(Error::NoAdmin),
        config is Some ==> r is Ok && generated(r.unwrap().table, seed) && r.unwrap().session == (
        Session { ledger_time: timestamp }) && r.unwrap().payment == payment_due(config.unwrap()),
{
    let admin = match config {
        Some(a) => a,
        None => return Err(Error::NoAdmin),
    };
    let payment = if admin.payment_amount > 0 {
        Some(admin.payment_amount)
    } else {
        None
    };
    Ok(Deal { table: create_table(seed), session: Session { ledger_time: timestamp }, payment })
}

/// Plays a turn at `now` on the dealt table. A turn that is not refused consumes the
/// table, so that it can be scored once only, and yields the score and the reward owed.
/// A refused turn changes nothing.
pub fn play<A>(
    config: &Option<Admin<A>>,
    session: &Option<Session>,
    table: &mut Option<Table>,
    now: u64,
    shot: &Vec<Ball>,
) -> (r: Result<Outcome, Error>)
    ensures
        turn_error(*config, *session, *old(table), now, shot@) is Some ==> r == Err::<
            Outcome,
            Error,
        >(turn_error(*config, *session, *old(table), now, shot@).unwrap()) && *final(table)
            == *old(table),
        turn_error(*config, *session, *old(table), now, shot@) is None ==> {
            &&& r is Ok
            &&& *final(table) is None
            &&& r.unwrap().score == turn_score(old(table).unwrap(), shot@)
            &&& r.unwrap().reward == reward_due(config.unwrap(), r.unwrap().score as int)
        },
{
    let admin = match config {
        Some(a) => a,
        None => return Err(Error::NoAdmin),
    };
    let stamp = match session {
        Some(s) => s.ledger_time,
        None => return Err(Error::InvalidPoolTable),
    };
    let valid = match table.as_ref() {
        Some(t) => validate_session(stamp, now, t),
        None => false,
    };
    if !valid {
        return Err(Error::InvalidPoolTable);
    }
    if shot.len() < MAX_BALLS {
        return Err(Error::InvalidShot);
    }
    let dealt = match table.take() {
        Some(t) => t,
        None => return Err(Error::InvalidPoolTable),
    };
    let score = match try_compute_score(&dealt, shot) {
        Some(s) => s,
        None => {
            *table = Some(dealt);
            return Err(Error::InvalidShot);
        },
    };
    let reward = if score == MAX_BREAK && admin.reward_amount > 0 {
        Some(admin.reward_amount)
    } else {
        None
    };
    Ok(Outcome { score, reward })
}

/// Tells whether a withdrawal of `amount` is paid from a `balance`.
pub fn should_transfer(amount: i128, balance: i128) -> (r: bool)
    ensures
        r == (amount <= balance),
{
    amount <= balance
}

/// Once a turn has consumed its table, any further turn is refused as an invalid table,
/// whatever its time and shot, until a new table is dealt.
pub proof fn lemma_table_consumed<A>(
    config: Option<Admin<A>>,
    session: Option<Session>,
    now: u64,
    shot: Seq<Ball>,
)
    requires
        config is Some,
    ensures
        turn_error(config, session, None, now, shot) == Some(Error::InvalidPoolTable),
{
}

} // verus!
