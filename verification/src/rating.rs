//! The rating engine: two ratings and an outcome give two new ratings.
//!
//! Scores are held in thousandths, so that a win is 1000, a draw 500 and a
//! loss 0. The expected score follows the logistic curve with base ten,
//! sampled at sixteen steps per scale unit and rounded to the thousandth.

use vstd::prelude::*;

verus! {

/// How a finished game went, seen from the first player.
#[derive(Clone, Copy, Debug, PartialEq, Eq, Structural)]
pub enum Outcomes {
    Win,
    Loss,
    Draw,
}

/// The constants of the rating engine.
#[derive(Clone, Copy, Debug)]
pub struct EloConfig {
    /// The most that one game can move a rating.
    pub k: u32,
    /// The rating difference at which the odds are ten to one.
    pub scale: u32,
    /// No rating falls below this.
    pub floor: u64,
}

/// The rating of a player who has not finished a game yet.
pub const DEFAULT_RATING: u64 = 1200;

/// A full score, in thousandths.
pub const FULL_SCORE: u64 = 1000;

impl EloConfig {
    /// A configuration is usable when its scale is positive.
    pub open spec fn valid(&self) -> bool {
        self.scale > 0
    }

    /// The configuration that the ledger uses.
    pub open spec fn new_spec() -> EloConfig {
        EloConfig { k: 32, scale: 400, floor: 100 }
    }

    /// The configuration that the ledger uses.
    pub fn new() -> (cfg: EloConfig)
        ensures
            cfg == Self::new_spec(),
            cfg.valid(),
    {
        EloConfig { k: 32, scale: 400, floor: 100 }
    }
}

/// The expected score, in thousandths, of the player who is ahead by `step`
/// sixteenths of the scale: the logistic curve `1 / (1 + 10^(-step/16))`,
/// flat from two scale units on.
pub open spec fn favoured_share(step: u64) -> u64 {
    match step {
        0 => 500,
        1 => 536,
        2 => 571,
        3 => 606,
        4 => 640,
        5 => 673,
        6 => 703,
        7 => 733,
        8 => 760,
        9 => 785,
        10 => 808,
        11 => 830,
        12 => 849,
        13 => 867,
        14 => 882,
        15 => 896,
        16 => 909,
        17 => 920,
        18 => 930,
        19 => 939,
        20 => 947,
        21 => 954,
        22 => 960,
        23 => 965,
        24 => 969,
        25 => 973,
        26 => 977,
        27 => 980,
        28 => 983,
        29 => 985,
        30 => 987,
        31 => 989,
        _ => 990,
    }
}

/// The number of whole sixteenths of the scale in a rating lead, at most 32.
pub open spec fn lead_steps(lead: int, scale: int) -> int {
    if lead >= 2 * scale {
        32
    } else {
        lead * 16 / scale
    }
}

/// The first player's expected score, in thousandths.
pub open spec fn expected_score(rating1: u64, rating2: u64, scale: int) -> int {
    if rating1 >= rating2 {
        favoured_share(lead_steps(rating1 - rating2, scale) as u64) as int
    } else {
        1000 - favoured_share(lead_steps(rating2 - rating1, scale) as u64)
    }
}

/// The first player's actual score, in thousandths.
pub open spec fn actual_score(outcome: Outcomes) -> int {
    match outcome {
        Outcomes::Win => 1000,
        Outcomes::Draw => 500,
        Outcomes::Loss => 0,
    }
}

/// The signed number of points that the first player gains: `k` times the
/// difference of actual and expected score, rounded towards zero. The second
/// player gains the opposite.
pub open spec fn points_moved(rating1: u64, rating2: u64, outcome: Outcomes, cfg: EloConfig) -> int {
    let diff = actual_score(outcome) - expected_score(rating1, rating2, cfg.scale as int);
    if diff >= 0 {
        cfg.k * diff / 1000
    } else {
        -(cfg.k * (-diff) / 1000)
    }
}

/// A rating after `change` points, kept at or above the floor and within `u64`.
pub open spec fn rating_after(rating: u64, change: int, floor: u64) -> int {
    let moved = rating + change;
    if moved < floor {
        floor as int
    } else if moved > u64::MAX {
        u64::MAX as int
    } else {
        moved
    }
}

/// The two ratings after a game.
pub open spec fn elo_spec(rating1: u64, rating2: u64, outcome: Outcomes, cfg: EloConfig) -> (
    int,
    int,
) {
    let change = points_moved(rating1, rating2, outcome, cfg);
    (rating_after(rating1, change, cfg.floor), rating_after(rating2, -change, cfg.floor))
}

fn share_of_favoured(step: u64) -> (share: u64)
    ensures
        share == favoured_share(step),
        500 <= share <= 1000,
{
    match step {
        0 => 500,
        1 => 536,
        2 => 571,
        3 => 606,
        4 => 640,
        5 => 673,
        6 => 703,
        7 => 733,
        8 => 760,
        9 => 785,
        10 => 808,
        11 => 830,
        12 => 849,
        13 => 867,
        14 => 882,
        15 => 896,
        16 => 909,
        17 => 920,
        18 => 930,
        19 => 939,
        20 => 947,
        21 => 954,
        22 => 960,
        23 => 965,
        24 => 969,
        25 => 973,
        26 => 977,
        27 => 980,
        28 => 983,
        29 => 985,
        30 => 987,
        31 => 989,
        _ => 990,
    }
}

fn steps_of_lead(lead: u64, scale: u32) -> (steps: u64)
    requires
        scale > 0,
    ensures
        steps == lead_steps(lead as int, scale as int),
        steps <= 32,
{
    let wide: u64 = scale as u64;
    if lead >= 2 * wide {
        32
    } else {
        let steps: u64 = lead * 16 / wide;
        proof {
            assert(lead * 16 / (wide as int) <= 32) by (nonlinear_arith)
                requires
                    lead < 2 * wide,
                    wide > 0,
            ;
        }
        steps
    }
}

fn raise(rating: u64, gain: u64, floor: u64) -> (r: u64)
    ensures
        r == rating_after(rating, gain as int, floor),
{
    let moved: u64 = rating.saturating_add(gain);
    if moved < floor {
        floor
    } else {
        moved
    }
}

fn lower(rating: u64, loss: u64, floor: u64) -> (r: u64)
    ensures
        r == rating_after(rating, -(loss as int), floor),
{
    if rating < loss {
        floor
    } else {
        let moved: u64 = rating - loss;
        if moved < floor {
            floor
        } else {
            moved
        }
    }
}

/// Rates one finished game. `outcome` is the first player's.
pub fn elo(rating1: u64, rating2: u64, outcome: Outcomes, cfg: &EloConfig) -> (rated: (u64, u64))
    requires
        cfg.valid(),
    ensures
        (rated.0 as int, rated.1 as int) == elo_spec(rating1, rating2, outcome, *cfg),
{
    let expected: u64 = if rating1 >= rating2 {
        share_of_favoured(steps_of_lead(rating1 - rating2, cfg.scale))
    } else {
        FULL_SCORE - share_of_favoured(steps_of_lead(rating2 - rating1, cfg.scale))
    };
    let actual: u64 = match outcome {
        Outcomes::Win => 1000,
        Outcomes::Draw => 500,
        Outcomes::Loss => 0,
    };
    let k: u64 = cfg.k as u64;
    if actual >= expected {
        let diff: u64 = actual - expected;
        assert(k * diff <= 0xffff_ffff * 1000) by (nonlinear_arith)
            requires
                k <= 0xffff_ffff,
                diff <= 1000,
        ;
        let gain: u64 = k * diff / 1000;
        (raise(rating1, gain, cfg.floor), lower(rating2, gain, cfg.floor))
    } else {
        let diff: u64 = expected - actual;
        assert(k * diff <= 0xffff_ffff * 1000) by (nonlinear_arith)
            requires
                k <= 0xffff_ffff,
                diff <= 1000,
        ;
        let loss: u64 = k * diff / 1000;
        (lower(rating1, loss, cfg.floor), raise(rating2, loss, cfg.floor))
    }
}

/// Whatever the game, both new ratings are at or above the floor and fit the
/// range of ratings.
pub proof fn lemma_ratings_keep_floor(rating1: u64, rating2: u64, outcome: Outcomes, cfg: EloConfig)
    ensures
        cfg.floor <= elo_spec(rating1, rating2, outcome, cfg).0 <= u64::MAX,
        cfg.floor <= elo_spec(rating1, rating2, outcome, cfg).1 <= u64::MAX,
{
}

/// A draw between equal ratings at or above the floor changes neither.
pub proof fn lemma_draw_between_equals(rating: u64, cfg: EloConfig)
    requires
        cfg.valid(),
        rating >= cfg.floor,
    ensures
        elo_spec(rating, rating, Outcomes::Draw, cfg) == (rating as int, rating as int),
{
    assert(lead_steps(0, cfg.scale as int) == 0) by (nonlinear_arith)
        requires
            cfg.scale > 0,
    ;
    assert(cfg.k * 0 == 0);
}

/// Between equal ratings the winner gains half of `k` and the loser loses the
/// same, so long as the floor and the top of the range are not met; with `k`
/// of two or more both ratings move.
pub proof fn lemma_win_between_equals(rating: u64, cfg: EloConfig)
    requires
        cfg.valid(),
        rating - cfg.k / 2 >= cfg.floor,
        rating + cfg.k / 2 <= u64::MAX,
    ensures
        elo_spec(rating, rating, Outcomes::Win, cfg) == (rating + cfg.k / 2, rating - cfg.k / 2),
        elo_spec(rating, rating, Outcomes::Loss, cfg) == (rating - cfg.k / 2, rating + cfg.k / 2),
        cfg.k >= 2 ==> elo_spec(rating, rating, Outcomes::Win, cfg).0 > rating > elo_spec(
            rating,
            rating,
            Outcomes::Win,
            cfg,
        ).1,
{
    assert(lead_steps(0, cfg.scale as int) == 0) by (nonlinear_arith)
        requires
            cfg.scale > 0,
    ;
    assert(cfg.k * 500 / 1000 == cfg.k / 2);
}

/// What one player gains the other loses: the points moved are opposite.
pub proof fn lemma_points_are_opposite(rating1: u64, rating2: u64, cfg: EloConfig)
    requires
        cfg.valid(),
    ensures
        points_moved(rating1, rating2, Outcomes::Win, cfg) == -points_moved(
            rating2,
            rating1,
            Outcomes::Loss,
            cfg,
        ),
        points_moved(rating1, rating2, Outcomes::Draw, cfg) == -points_moved(
            rating2,
            rating1,
            Outcomes::Draw,
            cfg,
        ),
{
    assert(lead_steps(0, cfg.scale as int) == 0) by (nonlinear_arith)
        requires
            cfg.scale > 0,
    ;
    assert(cfg.k * 0 == 0);
}

} // verus!
