use snooker::game::{
    initialize, insertcoin, play, should_transfer, table_seed, validate_session, MAX_BREAK,
};
use snooker::score::{compute_score, try_compute_score};
use snooker::table::{create_table, rand};
use snooker::{Admin, Ball, Error, Pocket, Pool, Session, Table, MAX_BALLS};

fn config(payment_amount: i128, reward_amount: i128) -> Option<Admin<&'static str>> {
    let mut slot = None;
    let admin = Admin {
        admin: "admin",
        payment_token: "payment",
        payment_amount,
        reward_token: "reward",
        reward_amount,
    };
    assert_eq!(initialize(&mut slot, admin), Ok(true));
    slot
}

/// A table on which a cue ball lying on the ball pots it, pocket by pocket.
fn diagonal_table() -> Table {
    Table {
        balls: vec![Ball(6000, 6000, 0, 0); MAX_BALLS],
        pockets: vec![Pocket(2000, 2000); MAX_BALLS],
    }
}

fn on_ball() -> Ball {
    Ball(6000, 6000, 0, 0)
}

fn far_away() -> Ball {
    Ball(0, 0, 0, 0)
}

#[test]
fn run_all() {
    let config = config(10000000, 10000000);
    let seed = table_seed(0, 0).unwrap();
    let deal = insertcoin(&config, seed, 0).unwrap();
    let mut table = Some(deal.table.clone());
    let cue_balls = vec![
        Ball(6017, 6900, 1640, -5000),
        Ball(6099, 6949, 1718, -4765),
        Ball(6035, 6971, 1015, -2968),
        Ball(5875, 6875, 2187, -7812),
        Ball(6029, 5796, 1455, -10192),
        Ball(5994, 5876, -283, -6169),
        Ball(6042, 6918, 1796, -5312),
    ];
    let outcome = play(&config, &Some(deal.session), &mut table, 0, &cue_balls).unwrap();
    assert_eq!(outcome.score, 0);
    assert_eq!(outcome.reward, None);
}

#[test]
fn contact_boundary_is_exclusive() {
    let mut pool = Pool(Ball(0, 0, 3, 4), Ball(1000, 0, 0, 0), Pocket(0, 0));
    assert!(!pool.is_potted());
    assert_eq!(pool, Pool(Ball(0, 0, 3, 4), Ball(1000, 0, 0, 0), Pocket(0, 0)));
}

#[test]
fn overlapping_balls_keep_their_velocities() {
    let mut pool = Pool(Ball(6000, 6000, 3, 4), Ball(6000, 6000, 0, 0), Pocket(0, 0));
    assert!(pool.is_potted());
    assert_eq!(pool.cue_ball, Ball(6000, 6000, 3, 4));
    assert_eq!(pool.color_ball, Ball(6000, 6000, 0, 0));
    let mut missed = Pool(Ball(6000, 6000, 3, 4), Ball(6000, 6000, 0, 0), Pocket(6000, 2000));
    assert!(!missed.is_potted());
    assert_eq!(missed.color_ball, Ball(6000, 6000, 0, 0));
}

#[test]
fn collision_exchanges_momentum() {
    let mut pool = Pool(Ball(0, 0, 10, 0), Ball(500, 0, 0, 0), Pocket(0, 0));
    assert!(pool.is_potted());
    assert_eq!(pool.cue_ball, Ball(0, 0, -2748751, 0));
    assert_eq!(pool.color_ball, Ball(500, 0, 2748761, 0));
}

#[test]
fn overflow_is_reported() {
    let mut pool = Pool(Ball(999, 0, 1i128 << 100, 0), Ball(1000, 0, 0, 0), Pocket(0, 0));
    assert_eq!(pool.try_is_potted(), None);
    assert_eq!(pool, Pool(Ball(999, 0, 1i128 << 100, 0), Ball(1000, 0, 0, 0), Pocket(0, 0)));
}

#[test]
fn rand_steps_xorshift() {
    let mut state: u64 = 1;
    assert_eq!(rand(&mut state), 2517);
    assert_eq!(state, 35651601);
}

#[test]
fn generated_table_of_seed_one() {
    let table = create_table(1);
    let xs: Vec<i128> = table.balls.iter().map(|b| b.0).collect();
    let ps: Vec<i128> = table.pockets.iter().map(|p| p.0).collect();
    assert_eq!(xs, vec![2517, 6903, 6322, 7005, 4000]);
    assert_eq!(ps, vec![2885, 2501, 3913, 4576, 4560]);
    assert!(table.balls.iter().all(|b| b.1 == 6000 && b.2 == 0 && b.3 == 0));
    assert!(table.pockets.iter().all(|p| p.1 == 2000));
}

#[test]
fn generator_stays_in_range() {
    for seed in [0u64, 1, 2, 42, 1700000501, u64::MAX, u64::MAX / 3] {
        let table = create_table(seed);
        assert_eq!(table.balls.len(), MAX_BALLS);
        assert_eq!(table.pockets.len(), MAX_BALLS);
        for b in &table.balls {
            assert!(2500 <= b.0 && b.0 <= 7500);
        }
        for p in &table.pockets {
            assert!(2500 <= p.0 && p.0 <= 7500);
        }
    }
}

#[test]
fn full_break_scores_147() {
    let table = diagonal_table();
    let shot = vec![on_ball(); MAX_BALLS];
    assert_eq!(compute_score(&table, &shot), 147);
    let mut trace = Vec::new();
    for n in 1..=MAX_BALLS {
        let mut partial = vec![on_ball(); n];
        partial.resize(MAX_BALLS, far_away());
        trace.push(compute_score(&table, &partial));
    }
    // Scores of the prefixes: each misses after its n-th pot.
    assert_eq!(trace, vec![21, 39, 66, 102, 147]);
}

#[test]
fn miss_breaks_the_streak() {
    let table = diagonal_table();
    let shot = vec![on_ball(), far_away(), on_ball(), on_ball(), far_away()];
    assert_eq!(compute_score(&table, &shot), 48);
    let shot = vec![on_ball(), on_ball(), far_away(), far_away(), far_away()];
    assert_eq!(compute_score(&table, &shot), 39);
}

#[test]
fn bonus_comes_with_the_first_pot() {
    let table = diagonal_table();
    let shot = vec![far_away(), far_away(), on_ball(), far_away(), on_ball()];
    assert_eq!(compute_score(&table, &shot), 30);
    let shot = vec![far_away(); MAX_BALLS];
    assert_eq!(compute_score(&table, &shot), 0);
}

#[test]
fn overflowing_shot_is_not_scored() {
    let table = Table {
        balls: vec![Ball(1000, 0, 0, 0); MAX_BALLS],
        pockets: vec![Pocket(0, 0); MAX_BALLS],
    };
    let shot = vec![Ball(999, 0, 1i128 << 100, 0); MAX_BALLS];
    assert_eq!(try_compute_score(&table, &shot), None);
    assert_eq!(try_compute_score(&diagonal_table(), &vec![on_ball(); MAX_BALLS]), Some(147));
}

#[test]
fn table_is_scored_once() {
    let config = config(0, 0);
    let session = Some(Session { ledger_time: 10 });
    let mut table = Some(diagonal_table());
    let shot = vec![on_ball(); MAX_BALLS];
    let first = play(&config, &session, &mut table, 20, &shot).unwrap();
    assert_eq!(first.score, 147);
    assert!(table.is_none());
    assert_eq!(play(&config, &session, &mut table, 20, &shot), Err(Error::InvalidPoolTable));
}

#[test]
fn end_to_end_maximum_break() {
    let config = config(500, 7000);
    let timestamp: u64 = 1700000000;
    let seed = table_seed(timestamp, 500).unwrap();
    assert_eq!(seed, 1700000501);
    let deal = insertcoin(&config, seed, timestamp).unwrap();
    assert_eq!(deal.payment, Some(500));
    assert_eq!(deal.session, Session { ledger_time: timestamp });
    let shot = vec![
        Ball(4580, 6514, -2, -1),
        Ball(2690, 6360, -1, 1),
        Ball(2596, 6574, -1, -1),
        Ball(2574, 6240, -2, -3),
        Ball(5557, 5490, 1, 1),
    ];
    let mut table = Some(deal.table.clone());
    let outcome = play(&config, &Some(deal.session), &mut table, timestamp + 180, &shot).unwrap();
    assert_eq!(outcome.score, MAX_BREAK);
    assert_eq!(outcome.reward, Some(7000));
    assert!(table.is_none());
}

#[test]
fn no_reward_or_payment_when_not_configured() {
    let config = config(0, 0);
    let deal = insertcoin(&config, 7, 3).unwrap();
    assert_eq!(deal.payment, None);
    let mut table = Some(diagonal_table());
    let shot = vec![on_ball(); MAX_BALLS];
    let outcome = play(&config, &Some(Session { ledger_time: 3 }), &mut table, 3, &shot).unwrap();
    assert_eq!(outcome, snooker::Outcome { score: 147, reward: None });
}

#[test]
fn refused_turns() {
    let shot = vec![on_ball(); MAX_BALLS];
    let session = Some(Session { ledger_time: 100 });

    let mut table = Some(diagonal_table());
    assert_eq!(play::<&str>(&None, &session, &mut table, 100, &shot), Err(Error::NoAdmin));
    assert!(table.is_some());

    let config = config(0, 0);
    assert_eq!(play(&config, &None, &mut table, 100, &shot), Err(Error::InvalidPoolTable));
    assert_eq!(play(&config, &session, &mut table, 281, &shot), Err(Error::InvalidPoolTable));
    assert!(table.is_some());

    let mut short = Some(Table { balls: vec![on_ball(); 4], pockets: vec![Pocket(2000, 2000); 5] });
    assert_eq!(play(&config, &session, &mut short, 100, &shot), Err(Error::InvalidPoolTable));

    assert_eq!(play(&config, &session, &mut table, 100, &shot[..4].to_vec()), Err(Error::InvalidShot));
    let wild = vec![Ball(5999, 6000, 1i128 << 100, 0); MAX_BALLS];
    assert_eq!(play(&config, &session, &mut table, 100, &wild), Err(Error::InvalidShot));
    assert!(table.is_some());

    assert_eq!(play(&config, &session, &mut table, 280, &shot).map(|o| o.score), Ok(147));
}

#[test]
fn configuration_is_set_once() {
    let mut slot = config(1, 2);
    let again = Admin { admin: "other", payment_token: "p", payment_amount: 9, reward_token: "r", reward_amount: 9 };
    assert_eq!(initialize(&mut slot, again), Err(Error::AlreadyInitialized));
    assert_eq!(slot.as_ref().map(|a| a.admin), Some("admin"));
    assert!(matches!(insertcoin::<&str>(&None, 1, 1), Err(Error::NoAdmin)));
}

#[test]
fn session_freshness_and_shape() {
    let table = diagonal_table();
    assert!(validate_session(0, 180, &table));
    assert!(!validate_session(0, 181, &table));
    assert!(validate_session(u64::MAX, 0, &table));
    let short = Table { balls: vec![on_ball(); 5], pockets: vec![Pocket(0, 0); 4] };
    assert!(!validate_session(0, 0, &short));
}

#[test]
fn seeds_from_the_ledger() {
    assert_eq!(table_seed(0, 0), Some(1));
    assert_eq!(table_seed(10, 5), Some(16));
    assert_eq!(table_seed(0, u32::MAX), None);
    assert_eq!(table_seed(u64::MAX, 0), None);
}

#[test]
fn withdrawal_needs_the_balance() {
    assert!(should_transfer(100, 100));
    assert!(!should_transfer(101, 100));
}
