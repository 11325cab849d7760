//! The ledger's requests as messages: one entry for those that change the
//! ledger and one for those that only read it.

use vstd::prelude::*;
use crate::challenge::{name_of, Challenge};
use crate::error::ContractError;
use crate::game::{CwChessAction, CwChessColor, CwChessGame, CwChessGameOver};
use crate::ledger::{has_key, key_pos, Ledger};
use crate::merge::targets;
use crate::query::{challenges_page, games_page};
use crate::ratings::RatingSummary;

verus! {

/// A request that changes the ledger.
pub enum ExecuteMsg {
    AcceptChallenge { challenge_id: u64 },
    CancelChallenge { challenge_id: u64 },
    CreateChallenge {
        block_limit: Option<u64>,
        opponent: Option<String>,
        play_as: Option<CwChessColor>,
    },
    DeclareTimeout { game_id: u64 },
    Turn { action: CwChessAction, game_id: u64 },
}

/// What a request that changed the ledger did.
#[derive(Clone, Copy, Debug, PartialEq, Eq, Structural)]
pub enum Executed {
    /// The challenge was accepted and started the game `game_id`.
    ChallengeAccepted { game_id: u64 },
    ChallengeCancelled,
    ChallengeCreated { challenge_id: u64 },
    /// The game ended on time with `status`.
    TimeoutDeclared { status: CwChessGameOver },
    /// The turn was taken; `status` is set where it ended the game.
    TurnTaken { status: Option<CwChessGameOver> },
}

/// A request that reads the ledger.
pub enum QueryMsg {
    GetChallenge { challenge_id: u64 },
    GetChallenges { after: Option<u64>, player: Option<String> },
    GetGame { game_id: u64 },
    GetGames { after: Option<u64>, game_over: Option<bool>, player: Option<String> },
    GetRatings,
    ValidMove { game_id: u64, player: String, move_str: String },
    GetTurn { game_id: u64, player: String },
}

/// The answer to a request that reads the ledger.
pub enum QueryAnswer<'a> {
    Challenge(&'a Challenge),
    Challenges(Vec<&'a Challenge>),
    Game(&'a CwChessGame),
    Games(Vec<&'a CwChessGame>),
    Ratings(&'a Vec<RatingSummary>),
    ValidMove(bool),
    Turn(bool),
}

/// Whether `after` and `res` are what the request `msg` of `sender` at tick
/// `height` makes of the ledger `before`: each message does what the request of
/// its name does, and answers with that request's result.
pub open spec fn executed(
    before: Ledger,
    after: Ledger,
    res: Result<Executed, ContractError>,
    sender: String,
    height: u64,
    msg: ExecuteMsg,
) -> bool {
    match msg {
        ExecuteMsg::AcceptChallenge { challenge_id } => match res {
            Ok(Executed::ChallengeAccepted { game_id }) => before.challenge_accepted(
                after,
                Ok(game_id),
                sender,
                challenge_id,
                height,
            ),
            Err(e) => before.challenge_accepted(after, Err(e), sender, challenge_id, height),
            _ => false,
        },
        ExecuteMsg::CancelChallenge { challenge_id } => match res {
            Ok(Executed::ChallengeCancelled) => before.challenge_cancelled(
                after,
                Ok(()),
                sender@,
                challenge_id,
            ),
            Err(e) => before.challenge_cancelled(after, Err(e), sender@, challenge_id),
            _ => false,
        },
        ExecuteMsg::CreateChallenge { block_limit, opponent, play_as } => match res {
            Ok(Executed::ChallengeCreated { challenge_id }) => before.challenge_made(
                after,
                Ok(challenge_id),
                sender,
                block_limit,
                opponent,
                play_as,
                height,
            ),
            Err(e) => before.challenge_made(
                after,
                Err(e),
                sender,
                block_limit,
                opponent,
                play_as,
                height,
            ),
            _ => false,
        },
        ExecuteMsg::DeclareTimeout { game_id } => match res {
            Ok(Executed::TimeoutDeclared { status }) => before.timeout_declared(
                after,
                Ok(status),
                game_id,
                height,
            ),
            Err(e) => before.timeout_declared(after, Err(e), game_id, height),
            _ => false,
        },
        ExecuteMsg::Turn { action, game_id } => match res {
            Ok(Executed::TurnTaken { status }) => before.turn_taken(
                after,
                Ok(status),
                sender@,
                action,
                game_id,
                height,
                before.judgement_in(game_id, action),
            ),
            Err(e) => before.turn_taken(
                after,
                Err(e),
                sender@,
                action,
                game_id,
                height,
                before.judgement_in(game_id, action),
            ),
            _ => false,
        },
    }
}

/// Whether `res` is the answer of the ledger to the request `msg`. A single
/// challenge or game that is not there is an error; a question about a turn or
/// a move in a game that is not there is answered with `false`.
pub open spec fn answered<'a>(
    ledger: Ledger,
    msg: QueryMsg,
    res: Result<QueryAnswer<'a>, ContractError>,
) -> bool {
    match msg {
        QueryMsg::GetChallenge { challenge_id } => if has_key(ledger.challenges@, challenge_id) {
            res matches Ok(QueryAnswer::Challenge(c)) && *c == ledger.challenges@[key_pos(
                ledger.challenges@,
                challenge_id,
                0,
            )]
        } else {
            res matches Err(e) && e == ContractError::ChallengeNotFound
        },
        QueryMsg::GetChallenges { after, player } => res matches Ok(QueryAnswer::Challenges(page))
            && targets(page@) == challenges_page(ledger.challenges@, after, name_of(player)),
        QueryMsg::GetGame { game_id } => if has_key(ledger.games@, game_id) {
            res matches Ok(QueryAnswer::Game(g)) && *g == ledger.games@[key_pos(
                ledger.games@,
                game_id,
                0,
            )]
        } else {
            res matches Err(e) && e == ContractError::GameNotFound
        },
        QueryMsg::GetGames { after, game_over, player } => res matches Ok(QueryAnswer::Games(page))
            && targets(page@) == games_page(
            ledger.games@,
            after,
            game_over == Some(true),
            name_of(player),
        ),
        QueryMsg::GetRatings => res matches Ok(QueryAnswer::Ratings(all)) && all@
            == ledger.ratings@,
        QueryMsg::ValidMove { game_id, player, move_str } => res matches Ok(
            QueryAnswer::ValidMove(valid),
        ) && valid == ledger.move_is_valid(game_id, player@, move_str@),
        QueryMsg::GetTurn { game_id, player } => res matches Ok(QueryAnswer::Turn(mine)) && mine
            == ledger.is_turn_of(game_id, player@),
    }
}

/// Sets up an empty ledger for `owner`.
pub fn instantiate(owner: String) -> (ledger: Ledger)
    ensures
        ledger.wf(),
        ledger.owner == owner,
        ledger.challenges@.len() == 0,
        ledger.games@.len() == 0,
        ledger.ratings@.len() == 0,
        ledger.last_challenge_id == 0,
        ledger.last_game_id == 0,
{
    Ledger::new(owner)
}

/// Carries out the request `msg` of `sender` at tick `height`.
pub fn execute(ledger: &mut Ledger, sender: String, height: u64, msg: ExecuteMsg) -> (res: Result<
    Executed,
    ContractError,
>)
    requires
        old(ledger).wf(),
        msg is CreateChallenge ==> old(ledger).last_challenge_id < u64::MAX,
        msg is AcceptChallenge ==> old(ledger).last_game_id < u64::MAX,
    ensures
        final(ledger).wf(),
        executed(*old(ledger), *final(ledger), res, sender, height, msg),
{
    match msg {
        ExecuteMsg::AcceptChallenge { challenge_id } => {
            match ledger.execute_accept_challenge(sender, challenge_id, height) {
                Ok(game_id) => Ok(Executed::ChallengeAccepted { game_id }),
                Err(e) => Err(e),
            }
        },
        ExecuteMsg::CancelChallenge { challenge_id } => {
            match ledger.execute_cancel_challenge(&sender, challenge_id) {
                Ok(_) => Ok(Executed::ChallengeCancelled),
                Err(e) => Err(e),
            }
        },
        ExecuteMsg::CreateChallenge { block_limit, opponent, play_as } => {
            match ledger.execute_create_challenge(sender, block_limit, opponent, play_as, height) {
                Ok(challenge_id) => Ok(Executed::ChallengeCreated { challenge_id }),
                Err(e) => Err(e),
            }
        },
        ExecuteMsg::DeclareTimeout { game_id } => {
            match ledger.execute_declare_timeout(game_id, height) {
                Ok(status) => Ok(Executed::TimeoutDeclared { status }),
                Err(e) => Err(e),
            }
        },
        ExecuteMsg::Turn { action, game_id } => {
            match ledger.execute_turn(&sender, action, game_id, height) {
                Ok(status) => Ok(Executed::TurnTaken { status }),
                Err(e) => Err(e),
            }
        },
    }
}

/// Answers the request `msg`.
pub fn query<'a>(ledger: &'a Ledger, msg: &QueryMsg) -> (res: Result<QueryAnswer<'a>, ContractError>)
    requires
        ledger.wf(),
    ensures
        answered(*ledger, *msg, res),
{
    match msg {
        QueryMsg::GetChallenge { challenge_id } => {
            match ledger.query_get_challenge(*challenge_id) {
                Ok(c) => Ok(QueryAnswer::Challenge(c)),
                Err(e) => Err(e),
            }
        },
        QueryMsg::GetChallenges { after, player } => {
            let who = match player {
                Some(p) => Some(p),
                None => None,
            };
            Ok(QueryAnswer::Challenges(ledger.query_get_challenges(*after, who)))
        },
        QueryMsg::GetGame { game_id } => {
            match ledger.query_get_game(*game_id) {
                Ok(g) => Ok(QueryAnswer::Game(g)),
                Err(e) => Err(e),
            }
        },
        QueryMsg::GetGames { after, game_over, player } => {
            let who = match player {
                Some(p) => Some(p),
                None => None,
            };
            Ok(QueryAnswer::Games(ledger.query_get_games(*after, *game_over, who)))
        },
        QueryMsg::GetRatings => Ok(QueryAnswer::Ratings(ledger.query_get_ratings())),
        QueryMsg::ValidMove { game_id, player, move_str } => Ok(
            QueryAnswer::ValidMove(ledger.query_valid_move(*game_id, player, move_str)),
        ),
        QueryMsg::GetTurn { game_id, player } => Ok(
            QueryAnswer::Turn(ledger.query_get_turn(*game_id, player)),
        ),
    }
}

/// Once a challenge is accepted, asking for it finds nothing, and the ledger
/// holds one game more: the one that started from the challenge.
pub proof fn lemma_accepted_challenge_is_gone<'a>(
    before: Ledger,
    after: Ledger,
    accepted: Result<u64, ContractError>,
    acceptor: String,
    challenge_id: u64,
    now: u64,
    answer: Result<QueryAnswer<'a>, ContractError>,
)
    requires
        before.challenge_accepted(after, accepted, acceptor, challenge_id, now),
        accepted.is_ok(),
        answered(after, (QueryMsg::GetChallenge { challenge_id }), answer),
    ensures
        answer matches Err(e) && e == ContractError::ChallengeNotFound,
        after.games@.len() == before.games@.len() + 1,
        after.games@.drop_last() == before.games@,
        after.games@.last().game_id == accepted.unwrap(),
        after.games@.last().block_start == now,
        after.games@.last().moves@.len() == 0,
        after.games@.last().status.is_none(),
        after.games@.last().block_limit == before.challenges@[key_pos(
            before.challenges@,
            challenge_id,
            0,
        )].block_limit,
{
}

/// A finished game refuses every turn and every timeout with the error that
/// the game is over, and the ledger stays as it was, the board with it.
pub proof fn lemma_finished_game_stays(
    before: Ledger,
    after: Ledger,
    res: Result<Executed, ContractError>,
    sender: String,
    height: u64,
    msg: ExecuteMsg,
)
    requires
        executed(before, after, res, sender, height, msg),
        match msg {
            ExecuteMsg::Turn { game_id, .. } | ExecuteMsg::DeclareTimeout { game_id } => has_key(
                before.games@,
                game_id,
            ) && before.games@[key_pos(before.games@, game_id, 0)].status.is_some(),
            _ => false,
        },
    ensures
        res matches Err(e) && e == ContractError::GameAlreadyOver,
        after == before,
{
}

} // verus!
