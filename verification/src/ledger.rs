//! The ledger: open challenges, games and ratings, and the requests that
//! change them. A refused request leaves the ledger as it was.

use vstd::prelude::*;
use crate::challenge::{name_of, Challenge};
use crate::error::ContractError;
use crate::game::{
    player_order, CwChessAction, CwChessColor, CwChessGame, CwChessGameOver, DEFAULT_FEN,
};
use crate::rules::{Judgement, MoveVerdict};
use crate::merge::Keyed;
use crate::rating::EloConfig;
use crate::ratings::{
    after_game, def_player_rating, sorted_book, update_players_rating, with_default,
    RatingSummary,
};

verus! {

/// The first position at or after `k` of the entry with key `id`, or the
/// length of `s` where there is none.
pub open spec fn key_pos<T: Keyed>(s: Seq<T>, id: u64, k: int) -> int
    decreases s.len() - k,
{
    if k < 0 || k >= s.len() {
        s.len() as int
    } else if s[k].key_spec() == id {
        k
    } else {
        key_pos(s, id, k + 1)
    }
}

/// Whether an entry of `s` has the key `id`.
pub open spec fn has_key<T: Keyed>(s: Seq<T>, id: u64) -> bool {
    key_pos(s, id, 0) < s.len()
}

/// Whether the keys of `s` rise from each entry to the next.
pub open spec fn rising<T: Keyed>(s: Seq<T>) -> bool {
    forall|x: int, y: int| 0 <= x < y < s.len() ==> s[x].key_spec() < s[y].key_spec()
}

/// Whether no key of `s` is above `top`.
pub open spec fn keys_up_to<T: Keyed>(s: Seq<T>, top: u64) -> bool {
    forall|x: int| 0 <= x < s.len() ==> (#[trigger] s[x]).key_spec() <= top
}

/// Where the first entry with key `id` at or after `k` stands, and that no
/// entry before it has that key.
pub proof fn lemma_key_pos<T: Keyed>(s: Seq<T>, id: u64, k: int)
    requires
        0 <= k <= s.len(),
    ensures
        k <= key_pos(s, id, k) <= s.len(),
        key_pos(s, id, k) < s.len() ==> s[key_pos(s, id, k)].key_spec() == id,
        forall|x: int| k <= x < key_pos(s, id, k) ==> (#[trigger] s[x]).key_spec() != id,
    decreases s.len() - k,
{
    if k < s.len() && s[k].key_spec() != id {
        lemma_key_pos(s, id, k + 1);
    }
}

/// Once the entry with key `id` is taken out of a listing with rising keys, no
/// entry has that key.
pub proof fn lemma_removed_key_is_gone<T: Keyed>(s: Seq<T>, id: u64)
    requires
        rising(s),
        has_key(s, id),
    ensures
        !has_key(s.remove(key_pos(s, id, 0)), id),
        s.remove(key_pos(s, id, 0)).len() == s.len() - 1,
        rising(s.remove(key_pos(s, id, 0))),
{
    lemma_key_pos(s, id, 0);
    let at = key_pos(s, id, 0);
    let rest = s.remove(at);
    assert forall|x: int| 0 <= x < rest.len() implies (#[trigger] rest[x]).key_spec() != id by {
        if x < at {
            assert(rest[x] == s[x]);
        } else {
            assert(rest[x] == s[x + 1]);
        }
    }
    lemma_key_pos(rest, id, 0);
    assert forall|x: int, y: int| 0 <= x < y < rest.len() implies rest[x].key_spec()
        < rest[y].key_spec() by {
        let sx = if x < at { x } else { x + 1 };
        let sy = if y < at { y } else { y + 1 };
        assert(rest[x] == s[sx]);
        assert(rest[y] == s[sy]);
    }
}

/// The position of the entry with key `id`, or the length of the listing.
pub fn find_key<T: Keyed>(list: &Vec<T>, id: u64) -> (at: usize)
    ensures
        at == key_pos(list@, id, 0),
        at <= list.len(),
        at < list.len() ==> list@[at as int].key_spec() == id,
{
    let mut k: usize = 0;
    while k < list.len()
        invariant
            k <= list.len(),
            key_pos(list@, id, 0) == key_pos(list@, id, k as int),
        decreases list.len() - k,
    {
        if list[k].key() == id {
            return k;
        }
        k = k + 1;
    }
    k
}

pub struct Ledger {
    /// The identity that set the ledger up.
    pub owner: String,
    /// The open challenges, oldest first.
    pub challenges: Vec<Challenge>,
    /// All games, oldest first.
    pub games: Vec<CwChessGame>,
    pub ratings: Vec<RatingSummary>,
    /// The id of the newest challenge ever made; 0 before the first.
    pub last_challenge_id: u64,
    /// The id of the newest game; 0 before the first.
    pub last_game_id: u64,
}

impl Ledger {
    /// Ids rise along both listings and none is above the last one given out;
    /// nobody challenges or plays themselves; the rating book is in order.
    pub open spec fn wf(&self) -> bool {
        &&& sorted_book(self.ratings@)
        &&& rising(self.challenges@)
        &&& keys_up_to(self.challenges@, self.last_challenge_id)
        &&& forall|x: int| 0 <= x < self.challenges@.len() ==> (#[trigger] self.challenges@[x]).wf()
        &&& rising(self.games@)
        &&& keys_up_to(self.games@, self.last_game_id)
        &&& forall|x: int| 0 <= x < self.games@.len() ==> (#[trigger] self.games@[x]).wf()
    }

    /// Whether `game` is the game that accepting `challenge` at tick `now`
    /// starts under the id `game_id`: the challenge's budget, the clock at
    /// `now`, the starting position, no moves, and the colors by
    /// [`player_order`].
    pub open spec fn starts_from(
        game: CwChessGame,
        challenge: Challenge,
        acceptor: String,
        now: u64,
        game_id: u64,
    ) -> bool {
        &&& game.game_id == game_id
        &&& (game.player1, game.player2) == player_order(
            challenge.created_by,
            acceptor,
            challenge.play_as,
            now,
        )
        &&& game.block_limit == challenge.block_limit
        &&& game.block_start == now
        &&& game.fen@ == DEFAULT_FEN@
        &&& game.moves@.len() == 0
        &&& game.status.is_none()
        &&& game.to_move == CwChessColor::White
        &&& game.draw_offer.is_none()
    }

    /// An empty ledger.
    pub fn new(owner: String) -> (ledger: Ledger)
        ensures
            ledger.wf(),
            ledger.owner == owner,
            ledger.challenges@.len() == 0,
            ledger.games@.len() == 0,
            ledger.ratings@.len() == 0,
            ledger.last_challenge_id == 0,
            ledger.last_game_id == 0,
    {
        Ledger {
            owner,
            challenges: Vec::new(),
            games: Vec::new(),
            ratings: Vec::new(),
            last_challenge_id: 0,
            last_game_id: 0,
        }
    }

    /// Whether `next` and `res` are what making a challenge at tick `now` makes
    /// of this ledger: a refusal where the creator names themselves, or the new
    /// challenge at the end of the listing under the next id, with creator and
    /// opponent rated.
    pub open spec fn challenge_made(
        &self,
        next: Ledger,
        res: Result<u64, ContractError>,
        creator: String,
        block_limit: Option<u64>,
        opponent: Option<String>,
        play_as: Option<CwChessColor>,
        now: u64,
    ) -> bool {
        if name_of(opponent) == Some(creator@) {
            res == Err::<u64, ContractError>(ContractError::CannotPlaySelf) && next == *self
        } else {
            &&& res == Ok::<u64, ContractError>((self.last_challenge_id + 1) as u64)
            &&& next.last_challenge_id == self.last_challenge_id + 1
            &&& next.challenges@ == self.challenges@.push(
                (Challenge {
                    block_created: now,
                    block_limit,
                    challenge_id: (self.last_challenge_id + 1) as u64,
                    created_by: creator,
                    opponent,
                    play_as,
                }),
            )
            &&& next.ratings@ == match opponent {
                Some(o) => with_default(with_default(self.ratings@, creator), o),
                None => with_default(self.ratings@, creator),
            }
            &&& next.games == self.games
            &&& next.last_game_id == self.last_game_id
            &&& next.owner == self.owner
        }
    }

    /// Makes a challenge at tick `now` and gives back its id, the next after
    /// the last. Creator and opponent are rated from then on. Naming oneself
    /// as opponent is refused.
    pub fn execute_create_challenge(
        &mut self,
        creator: String,
        block_limit: Option<u64>,
        opponent: Option<String>,
        play_as: Option<CwChessColor>,
        now: u64,
    ) -> (res: Result<u64, ContractError>)
        requires
            old(self).wf(),
            old(self).last_challenge_id < u64::MAX,
        ensures
            final(self).wf(),
            old(self).challenge_made(*final(self), res, creator, block_limit, opponent, play_as, now),
    {
        let challenge_id: u64 = self.last_challenge_id + 1;
        let rated_creator = creator.clone();
        let rated_opponent = match &opponent {
            Some(o) => Some(o.clone()),
            None => None,
        };
        match Challenge::create(challenge_id, creator, opponent, play_as, block_limit, now) {
            Err(e) => Err(e),
            Ok(challenge) => {
                self.last_challenge_id = challenge_id;
                self.challenges.push(challenge);
                def_player_rating(&mut self.ratings, rated_creator);
                match rated_opponent {
                    Some(o) => {
                        def_player_rating(&mut self.ratings, o);
                    },
                    None => {},
                }
                Ok(challenge_id)
            },
        }
    }

    /// Whether `next` and `res` are what accepting a challenge at tick `now`
    /// makes of this ledger: a refusal, or the challenge gone and one game
    /// started from it at the end of the listing under the next id, with the
    /// acceptor rated.
    pub open spec fn challenge_accepted(
        &self,
        next: Ledger,
        res: Result<u64, ContractError>,
        acceptor: String,
        challenge_id: u64,
        now: u64,
    ) -> bool {
        if !has_key(self.challenges@, challenge_id) {
            res == Err::<u64, ContractError>(ContractError::ChallengeNotFound) && next == *self
        } else {
            let at = key_pos(self.challenges@, challenge_id, 0);
            let challenge = self.challenges@[at];
            match challenge.accept_error(acceptor@) {
                Some(e) => res == Err::<u64, ContractError>(e) && next == *self,
                None => {
                    &&& res == Ok::<u64, ContractError>((self.last_game_id + 1) as u64)
                    &&& next.last_game_id == self.last_game_id + 1
                    &&& next.challenges@ == self.challenges@.remove(at)
                    &&& !has_key(next.challenges@, challenge_id)
                    &&& next.games@.len() == self.games@.len() + 1
                    &&& next.games@.drop_last() == self.games@
                    &&& Self::starts_from(
                        next.games@.last(),
                        challenge,
                        acceptor,
                        now,
                        (self.last_game_id + 1) as u64,
                    )
                    &&& next.ratings@ == with_default(self.ratings@, acceptor)
                    &&& next.last_challenge_id == self.last_challenge_id
                    &&& next.owner == self.owner
                },
            }
        }
    }

    /// Accepts a challenge at tick `now`: the challenge leaves the ledger and
    /// one game starts, under the next game id, which is given back. The
    /// acceptor is rated from then on.
    pub fn execute_accept_challenge(&mut self, acceptor: String, challenge_id: u64, now: u64) -> (res:
        Result<u64, ContractError>)
        requires
            old(self).wf(),
            old(self).last_game_id < u64::MAX,
        ensures
            final(self).wf(),
            old(self).challenge_accepted(*final(self), res, acceptor, challenge_id, now),
    {
        let at: usize = find_key(&self.challenges, challenge_id);
        if at >= self.challenges.len() {
            return Err(ContractError::ChallengeNotFound);
        }
        match self.challenges[at].check_accept(&acceptor) {
            Err(e) => {
                return Err(e);
            },
            Ok(_) => {},
        }
        proof {
            lemma_removed_key_is_gone(self.challenges@, challenge_id);
        }
        let ghost before = self.challenges@;
        let challenge = self.challenges.remove(at);
        assert forall|x: int| 0 <= x < self.challenges@.len() implies (
        #[trigger] self.challenges@[x]).wf() && self.challenges@[x].key_spec()
            <= self.last_challenge_id by {
            if x < at {
                assert(self.challenges@[x] == before[x]);
            } else {
                assert(self.challenges@[x] == before[x + 1]);
            }
        }
        def_player_rating(&mut self.ratings, acceptor.clone());
        let game_id: u64 = self.last_game_id + 1;
        let (player1, player2) = CwChessGame::get_player_order(
            challenge.created_by,
            acceptor,
            challenge.play_as,
            now,
        );
        let game = CwChessGame::new(game_id, player1, player2, challenge.block_limit, now);
        self.last_game_id = game_id;
        self.games.push(game);
        assert(self.games@.drop_last() =~= old(self).games@);
        Ok(game_id)
    }

    /// Whether `next` and `res` are what cancelling a challenge makes of this
    /// ledger: a refusal, or the challenge gone and nothing else changed.
    pub open spec fn challenge_cancelled(
        &self,
        next: Ledger,
        res: Result<(), ContractError>,
        caller: Seq<char>,
        challenge_id: u64,
    ) -> bool {
        if !has_key(self.challenges@, challenge_id) {
            res == Err::<(), ContractError>(ContractError::ChallengeNotFound) && next == *self
        } else {
            let at = key_pos(self.challenges@, challenge_id, 0);
            if self.challenges@[at].created_by@ != caller {
                res == Err::<(), ContractError>(ContractError::NotYourChallenge) && next == *self
            } else {
                &&& res.is_ok()
                &&& next.challenges@ == self.challenges@.remove(at)
                &&& !has_key(next.challenges@, challenge_id)
                &&& next.games == self.games
                &&& next.ratings == self.ratings
                &&& next.last_challenge_id == self.last_challenge_id
                &&& next.last_game_id == self.last_game_id
                &&& next.owner == self.owner
            }
        }
    }

    /// Cancels a challenge, which only its creator may do: the challenge
    /// leaves the ledger.
    pub fn execute_cancel_challenge(&mut self, caller: &String, challenge_id: u64) -> (res: Result<
        (),
        ContractError,
    >)
        requires
            old(self).wf(),
        ensures
            final(self).wf(),
            old(self).challenge_cancelled(*final(self), res, caller@, challenge_id),
    {
        let at: usize = find_key(&self.challenges, challenge_id);
        if at >= self.challenges.len() {
            return Err(ContractError::ChallengeNotFound);
        }
        match self.challenges[at].check_cancel(caller) {
            Err(e) => {
                return Err(e);
            },
            Ok(_) => {},
        }
        proof {
            lemma_removed_key_is_gone(self.challenges@, challenge_id);
        }
        let ghost before = self.challenges@;
        let _ = self.challenges.remove(at);
        assert forall|x: int| 0 <= x < self.challenges@.len() implies (
        #[trigger] self.challenges@[x]).wf() && self.challenges@[x].key_spec()
            <= self.last_challenge_id by {
            if x < at {
                assert(self.challenges@[x] == before[x]);
            } else {
                assert(self.challenges@[x] == before[x + 1]);
            }
        }
        Ok(())
    }

    /// Whether `next` is the listing `games` with the game at `at` replaced.
    pub open spec fn only_changed_at(games: Seq<CwChessGame>, next: Seq<CwChessGame>, at: int) -> bool {
        &&& next.len() == games.len()
        &&& forall|x: int| 0 <= x < games.len() && x != at ==> next[x] == games[x]
    }

    /// The rating book after the game between `player1` and `player2` got the
    /// status `status`: rated where the game is over, else as before.
    pub open spec fn ratings_after(
        book: Seq<RatingSummary>,
        player1: String,
        player2: String,
        status: Option<CwChessGameOver>,
    ) -> Seq<RatingSummary> {
        match status {
            Some(tag) => after_game(
                book,
                player1,
                player2,
                tag.outcome_spec(),
                EloConfig::new_spec(),
            ),
            None => book,
        }
    }

    /// Whether `next` and `res` are what a turn, judged as `verdict`, makes of
    /// this ledger: a refusal with the ledger as it was, or the game after the
    /// turn, its status given back, and both players rated where it is over.
    pub open spec fn turn_taken(
        &self,
        next: Ledger,
        res: Result<Option<CwChessGameOver>, ContractError>,
        caller: Seq<char>,
        action: CwChessAction,
        game_id: u64,
        now: u64,
        verdict: Judgement,
    ) -> bool {
        if !has_key(self.games@, game_id) {
            res == Err::<Option<CwChessGameOver>, ContractError>(ContractError::GameNotFound)
                && next == *self
        } else {
            let at = key_pos(self.games@, game_id, 0);
            let game = self.games@[at];
            match game.turn_error(caller, action, verdict) {
                Some(e) => res == Err::<Option<CwChessGameOver>, ContractError>(e) && next == *self,
                None => {
                    &&& res == Ok::<Option<CwChessGameOver>, ContractError>(
                        game.status_after(action, verdict),
                    )
                    &&& Self::only_changed_at(self.games@, next.games@, at)
                    &&& game.turn_applied(next.games@[at], now, action, verdict)
                    &&& next.ratings@ == Self::ratings_after(
                        self.ratings@,
                        game.player1,
                        game.player2,
                        game.status_after(action, verdict),
                    )
                    &&& next.challenges == self.challenges
                    &&& next.last_challenge_id == self.last_challenge_id
                    &&& next.last_game_id == self.last_game_id
                    &&& next.owner == self.owner
                },
            }
        }
    }

    /// The judgement of the rules of chess on `action` in the position of the
    /// game `game_id`.
    pub open spec fn judgement_in(&self, game_id: u64, action: CwChessAction) -> Judgement {
        if has_key(self.games@, game_id) {
            self.games@[key_pos(self.games@, game_id, 0)].judgement(action)
        } else {
            Judgement::Illegal
        }
    }

    /// Takes one turn in a game at tick `now` and gives back the game's status
    /// after it. A move is judged by the rules of chess in the game's position.
    /// A turn that ends the game rates both players.
    pub fn execute_turn(
        &mut self,
        caller: &String,
        action: CwChessAction,
        game_id: u64,
        now: u64,
    ) -> (res: Result<Option<CwChessGameOver>, ContractError>)
        requires
            old(self).wf(),
        ensures
            final(self).wf(),
            old(self).turn_taken(
                *final(self),
                res,
                caller@,
                action,
                game_id,
                now,
                old(self).judgement_in(game_id, action),
            ),
    {
        let at: usize = find_key(&self.games, game_id);
        if at >= self.games.len() {
            return Err(ContractError::GameNotFound);
        }
        let verdict = self.games[at].judge(&action);
        self.execute_turn_judged(caller, action, game_id, now, verdict)
    }

    /// Takes one turn that was judged already: `verdict` is the judgement of
    /// the rules of chess on the move in the game's position.
    pub fn execute_turn_judged(
        &mut self,
        caller: &String,
        action: CwChessAction,
        game_id: u64,
        now: u64,
        verdict: MoveVerdict,
    ) -> (res: Result<Option<CwChessGameOver>, ContractError>)
        requires
            old(self).wf(),
        ensures
            final(self).wf(),
            old(self).turn_taken(*final(self), res, caller@, action, game_id, now, verdict@),
    {
        let at: usize = find_key(&self.games, game_id);
        if at >= self.games.len() {
            return Err(ContractError::GameNotFound);
        }
        match self.games[at].check_turn(caller, &action, &verdict) {
            Some(e) => {
                return Err(e);
            },
            None => {},
        }
        let ghost before = self.games@;
        let mut game = self.games.remove(at);
        let _ = game.apply_turn(caller, now, action, verdict);
        let status = game.status;
        match status {
            Some(tag) => {
                update_players_rating(&mut self.ratings, &game.player1, &game.player2, tag.outcome());
            },
            None => {},
        }
        self.games.insert(at, game);
        assert(self.games@ =~= before.update(at as int, game));
        Ok(status)
    }

    /// Whether `next` and `res` are what declaring a timeout at tick `now`
    /// makes of this ledger: a refusal with the ledger as it was, or the game
    /// ended by the timeout of the color to move and both players rated.
    pub open spec fn timeout_declared(
        &self,
        next: Ledger,
        res: Result<CwChessGameOver, ContractError>,
        game_id: u64,
        now: u64,
    ) -> bool {
        if !has_key(self.games@, game_id) {
            res == Err::<CwChessGameOver, ContractError>(ContractError::GameNotFound) && next
                == *self
        } else {
            let at = key_pos(self.games@, game_id, 0);
            let game = self.games@[at];
            if game.status.is_some() {
                res == Err::<CwChessGameOver, ContractError>(ContractError::GameAlreadyOver)
                    && next == *self
            } else if !game.timed_out(now) {
                res == Err::<CwChessGameOver, ContractError>(ContractError::GameNotTimedOut)
                    && next == *self
            } else {
                &&& res == Ok::<CwChessGameOver, ContractError>(game.to_move.timeout())
                &&& Self::only_changed_at(self.games@, next.games@, at)
                &&& game.timeout_applied(next.games@[at])
                &&& next.ratings@ == Self::ratings_after(
                    self.ratings@,
                    game.player1,
                    game.player2,
                    Some(game.to_move.timeout()),
                )
                &&& next.challenges == self.challenges
                &&& next.last_challenge_id == self.last_challenge_id
                &&& next.last_game_id == self.last_game_id
                &&& next.owner == self.owner
            }
        }
    }

    /// Declares that the player to move in a game has run out of ticks at
    /// `now`, which anyone may do. Where that is so, the game ends with that
    /// color's timeout, which is given back, and both players are rated.
    pub fn execute_declare_timeout(&mut self, game_id: u64, now: u64) -> (res: Result<
        CwChessGameOver,
        ContractError,
    >)
        requires
            old(self).wf(),
        ensures
            final(self).wf(),
            old(self).timeout_declared(*final(self), res, game_id, now),
    {
        let at: usize = find_key(&self.games, game_id);
        if at >= self.games.len() {
            return Err(ContractError::GameNotFound);
        }
        if self.games[at].status.is_some() {
            return Err(ContractError::GameAlreadyOver);
        }
        if !self.games[at].is_timed_out(now) {
            return Err(ContractError::GameNotTimedOut);
        }
        let ghost before = self.games@;
        let mut game = self.games.remove(at);
        let _ = game.check_timeout(now);
        let tag = match game.to_move {
            CwChessColor::White => CwChessGameOver::WhiteTimeout,
            CwChessColor::Black => CwChessGameOver::BlackTimeout,
        };
        update_players_rating(&mut self.ratings, &game.player1, &game.player2, tag.outcome());
        self.games.insert(at, game);
        assert(self.games@ =~= before.update(at as int, game));
        Ok(tag)
    }
}

} // verus!
