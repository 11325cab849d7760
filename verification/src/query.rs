//! The read-only side of the ledger: single entries, and listings that come a
//! page at a time in ascending order of id.

use vstd::prelude::*;
use crate::challenge::{name_of, Challenge};
use crate::error::ContractError;
use crate::game::CwChessGame;
use crate::rules::judgement_of;
use crate::ledger::{find_key, has_key, key_pos, rising, Ledger};
use crate::merge::{
    ascending, beyond, lemma_page_ascending, merge_page, page_of, targets, Keyed, PAGE_SIZE,
};
use crate::ratings::{sorted_book, RatingSummary};

verus! {

/// The text of an optional borrowed identity.
pub open spec fn name_of_ref(who: Option<&String>) -> Option<Seq<char>> {
    match who {
        Some(s) => Some(s@),
        None => None,
    }
}

/// Whether a challenge stands in the index of its creators under `who`, or in
/// the index of its opponents under `who`. In the latter, open challenges
/// stand under nobody.
pub open spec fn challenge_listed(c: Challenge, by_creator: bool, who: Option<Seq<char>>) -> bool {
    if by_creator {
        who == Some(c.created_by@)
    } else {
        who == name_of(c.opponent)
    }
}

/// [`challenge_listed`] as a filter.
pub open spec fn challenge_filter(by_creator: bool, who: Option<Seq<char>>) -> spec_fn(
    Challenge,
) -> bool {
    |c: Challenge| challenge_listed(c, by_creator, who)
}

/// Which games a scan is to give.
#[derive(Clone, Copy, Debug, PartialEq, Eq, Structural)]
pub enum Seat {
    /// Games of anyone.
    Any,
    /// Games in which the player has White.
    First,
    /// Games in which the player has Black.
    Second,
}

/// Whether a game is one that a scan for `who` in `seat` gives. Finished games
/// are given only where `game_over` is set.
pub open spec fn game_listed(g: CwChessGame, seat: Seat, who: Seq<char>, game_over: bool) -> bool {
    &&& game_over || g.status.is_none()
    &&& match seat {
        Seat::Any => true,
        Seat::First => g.player1@ == who,
        Seat::Second => g.player2@ == who,
    }
}

/// [`game_listed`] as a filter.
pub open spec fn game_filter(seat: Seat, who: Seq<char>, game_over: bool) -> spec_fn(
    CwChessGame,
) -> bool {
    |g: CwChessGame| game_listed(g, seat, who, game_over)
}

/// The page of challenges after the cursor: those of `who` as creator merged
/// with those of `who` as opponent, or the open ones where nobody is named.
pub open spec fn challenges_page(
    all: Seq<Challenge>,
    after: Option<u64>,
    who: Option<Seq<char>>,
) -> Seq<Challenge> {
    match who {
        Some(_) => page_of(
            all.filter(challenge_filter(true, who)),
            all.filter(challenge_filter(false, who)),
            after,
            PAGE_SIZE as int,
        ),
        None => page_of(
            all.filter(challenge_filter(false, None)),
            Seq::empty(),
            after,
            PAGE_SIZE as int,
        ),
    }
}

/// The page of games after the cursor: those of `who` with White merged with
/// those of `who` with Black, or those of anyone where nobody is named.
pub open spec fn games_page(
    all: Seq<CwChessGame>,
    after: Option<u64>,
    game_over: bool,
    who: Option<Seq<char>>,
) -> Seq<CwChessGame> {
    match who {
        Some(p) => page_of(
            all.filter(game_filter(Seat::First, p, game_over)),
            all.filter(game_filter(Seat::Second, p, game_over)),
            after,
            PAGE_SIZE as int,
        ),
        None => page_of(
            all.filter(game_filter(Seat::Any, Seq::empty(), game_over)),
            Seq::empty(),
            after,
            PAGE_SIZE as int,
        ),
    }
}

/// What a filter keeps of a listing with rising keys is ascending, and has no
/// key above `top` where the listing has none.
pub proof fn lemma_filter_rising<T: Keyed>(s: Seq<T>, keep: spec_fn(T) -> bool, top: int)
    requires
        rising(s),
        forall|x: int| 0 <= x < s.len() ==> (#[trigger] s[x]).key_spec() <= top,
    ensures
        ascending(s.filter(keep)),
        forall|x: int|
            0 <= x < s.filter(keep).len() ==> (#[trigger] s.filter(keep)[x]).key_spec() <= top,
    decreases s.len(),
{
    reveal(Seq::filter);
    if s.len() > 0 {
        let front = s.drop_last();
        assert forall|x: int, y: int| 0 <= x < y < front.len() implies front[x].key_spec()
            < front[y].key_spec() by {
            assert(front[x] == s[x]);
            assert(front[y] == s[y]);
        }
        assert forall|x: int| 0 <= x < front.len() implies (#[trigger] front[x]).key_spec()
            <= s.last().key_spec() - 1 by {
            assert(front[x] == s[x]);
        }
        lemma_filter_rising(front, keep, s.last().key_spec() - 1);
        assert(s.last() == s[s.len() - 1]);
    }
}

/// Every page of challenges and of games that a ledger gives is in ascending
/// order of id and holds only ids beyond the cursor.
pub proof fn lemma_pages_ascend(
    ledger: Ledger,
    after: Option<u64>,
    game_over: bool,
    who: Option<Seq<char>>,
)
    requires
        ledger.wf(),
    ensures
        ascending(challenges_page(ledger.challenges@, after, who)),
        forall|k: int|
            0 <= k < challenges_page(ledger.challenges@, after, who).len() ==> beyond(
                (#[trigger] challenges_page(ledger.challenges@, after, who)[k]).challenge_id,
                after,
            ),
        ascending(games_page(ledger.games@, after, game_over, who)),
        forall|k: int|
            0 <= k < games_page(ledger.games@, after, game_over, who).len() ==> beyond(
                (#[trigger] games_page(ledger.games@, after, game_over, who)[k]).game_id,
                after,
            ),
{
    let limit = PAGE_SIZE as int;
    let top = u64::MAX as int;
    let none_c = Seq::<Challenge>::empty();
    let none_g = Seq::<CwChessGame>::empty();
    match who {
        Some(p) => {
            let a = ledger.challenges@.filter(challenge_filter(true, who));
            let b = ledger.challenges@.filter(challenge_filter(false, who));
            lemma_filter_rising(ledger.challenges@, challenge_filter(true, who), top);
            lemma_filter_rising(ledger.challenges@, challenge_filter(false, who), top);
            lemma_page_ascending(a, b, after, limit);
            let c = ledger.games@.filter(game_filter(Seat::First, p, game_over));
            let d = ledger.games@.filter(game_filter(Seat::Second, p, game_over));
            lemma_filter_rising(ledger.games@, game_filter(Seat::First, p, game_over), top);
            lemma_filter_rising(ledger.games@, game_filter(Seat::Second, p, game_over), top);
            lemma_page_ascending(c, d, after, limit);
        },
        None => {
            let a = ledger.challenges@.filter(challenge_filter(false, None));
            lemma_filter_rising(ledger.challenges@, challenge_filter(false, None), top);
            lemma_page_ascending(a, none_c, after, limit);
            let c = ledger.games@.filter(game_filter(Seat::Any, Seq::empty(), game_over));
            lemma_filter_rising(
                ledger.games@,
                game_filter(Seat::Any, Seq::empty(), game_over),
                top,
            );
            lemma_page_ascending(c, none_g, after, limit);
        },
    }
}

/// The challenges that stand in one index under `who`, in the listing's order.
pub fn scan_challenges<'a>(all: &'a Vec<Challenge>, by_creator: bool, who: Option<&String>) -> (out:
    Vec<&'a Challenge>)
    ensures
        targets(out@) == all@.filter(challenge_filter(by_creator, name_of_ref(who))),
{
    let ghost keep = challenge_filter(by_creator, name_of_ref(who));
    let mut out: Vec<&'a Challenge> = Vec::new();
    let mut i: usize = 0;
    proof {
        reveal(Seq::filter);
        assert(all@.subrange(0, 0) =~= Seq::<Challenge>::empty());
        assert(targets(out@) =~= Seq::<Challenge>::empty());
    }
    while i < all.len()
        invariant
            i <= all.len(),
            keep == challenge_filter(by_creator, name_of_ref(who)),
            targets(out@) == all@.subrange(0, i as int).filter(keep),
        decreases all.len() - i,
    {
        let c = &all[i];
        let listed = if by_creator {
            match who {
                Some(p) => c.created_by == *p,
                None => false,
            }
        } else {
            match who {
                Some(p) => c.is_for(p),
                None => c.opponent.is_none(),
            }
        };
        let ghost before = targets(out@);
        if listed {
            out.push(c);
        }
        proof {
            reveal(Seq::filter);
            let upto = all@.subrange(0, i as int + 1);
            assert(upto.drop_last() =~= all@.subrange(0, i as int));
            assert(upto.last() == all@[i as int]);
            assert(keep(all@[i as int]) == listed);
            if listed {
                assert(targets(out@) =~= before.push(all@[i as int]));
            } else {
                assert(targets(out@) =~= before);
            }
        }
        i = i + 1;
    }
    proof {
        assert(all@.subrange(0, all.len() as int) =~= all@);
    }
    out
}

/// The games that a scan for `who` in `seat` gives, in the listing's order.
pub fn scan_games<'a>(all: &'a Vec<CwChessGame>, seat: Seat, who: &String, game_over: bool) -> (out:
    Vec<&'a CwChessGame>)
    ensures
        targets(out@) == all@.filter(game_filter(seat, who@, game_over)),
{
    let ghost keep = game_filter(seat, who@, game_over);
    let mut out: Vec<&'a CwChessGame> = Vec::new();
    let mut i: usize = 0;
    proof {
        reveal(Seq::filter);
        assert(all@.subrange(0, 0) =~= Seq::<CwChessGame>::empty());
        assert(targets(out@) =~= Seq::<CwChessGame>::empty());
    }
    while i < all.len()
        invariant
            i <= all.len(),
            keep == game_filter(seat, who@, game_over),
            targets(out@) == all@.subrange(0, i as int).filter(keep),
        decreases all.len() - i,
    {
        let g = &all[i];
        let seated = match seat {
            Seat::Any => true,
            Seat::First => g.player1 == *who,
            Seat::Second => g.player2 == *who,
        };
        let listed = (game_over || g.status.is_none()) && seated;
        let ghost before = targets(out@);
        if listed {
            out.push(g);
        }
        proof {
            reveal(Seq::filter);
            let upto = all@.subrange(0, i as int + 1);
            assert(upto.drop_last() =~= all@.subrange(0, i as int));
            assert(upto.last() == all@[i as int]);
            assert(keep(all@[i as int]) == listed);
            if listed {
                assert(targets(out@) =~= before.push(all@[i as int]));
            } else {
                assert(targets(out@) =~= before);
            }
        }
        i = i + 1;
    }
    proof {
        assert(all@.subrange(0, all.len() as int) =~= all@);
    }
    out
}

impl Ledger {
    /// Whether there is a game `game_id` that is going on with `player` to
    /// move.
    pub open spec fn is_turn_of(&self, game_id: u64, player: Seq<char>) -> bool {
        has_key(self.games@, game_id) && {
            let game = self.games@[key_pos(self.games@, game_id, 0)];
            game.status.is_none() && game.side_of(player) == Some(game.to_move)
        }
    }

    /// Whether it is the turn of `player` in the game `game_id` and the rules
    /// of chess allow the move `move_str` in its position.
    pub open spec fn move_is_valid(&self, game_id: u64, player: Seq<char>, move_str: Seq<char>) -> bool {
        self.is_turn_of(game_id, player) && judgement_of(
            self.games@[key_pos(self.games@, game_id, 0)].fen@,
            move_str,
        ) is Legal
    }

    /// The challenge with the given id.
    pub fn query_get_challenge(&self, challenge_id: u64) -> (res: Result<&Challenge, ContractError>)
        ensures
            !has_key(self.challenges@, challenge_id) ==> res == Err::<&Challenge, ContractError>(
                ContractError::ChallengeNotFound,
            ),
            has_key(self.challenges@, challenge_id) ==> res.is_ok() && *res.unwrap()
                == self.challenges@[key_pos(self.challenges@, challenge_id, 0)],
    {
        let at: usize = find_key(&self.challenges, challenge_id);
        if at < self.challenges.len() {
            Ok(&self.challenges[at])
        } else {
            Err(ContractError::ChallengeNotFound)
        }
    }

    /// The game with the given id.
    pub fn query_get_game(&self, game_id: u64) -> (res: Result<&CwChessGame, ContractError>)
        ensures
            !has_key(self.games@, game_id) ==> res == Err::<&CwChessGame, ContractError>(
                ContractError::GameNotFound,
            ),
            has_key(self.games@, game_id) ==> res.is_ok() && *res.unwrap() == self.games@[key_pos(
                self.games@,
                game_id,
                0,
            )],
    {
        let at: usize = find_key(&self.games, game_id);
        if at < self.games.len() {
            Ok(&self.games[at])
        } else {
            Err(ContractError::GameNotFound)
        }
    }

    /// One page of challenges with ids after the cursor, ascending: those that
    /// `player` made or is directed at, or the open ones where no player is
    /// named.
    pub fn query_get_challenges(&self, after: Option<u64>, player: Option<&String>) -> (page: Vec<
        &Challenge,
    >)
        ensures
            targets(page@) == challenges_page(self.challenges@, after, name_of_ref(player)),
            page@.len() <= PAGE_SIZE,
    {
        match player {
            None => {
                let open = scan_challenges(&self.challenges, false, None);
                let none: Vec<&Challenge> = Vec::new();
                assert(targets(none@) =~= Seq::<Challenge>::empty());
                merge_page(&open, &none, after, PAGE_SIZE)
            },
            Some(p) => {
                let created_by = scan_challenges(&self.challenges, true, Some(p));
                let opponent = scan_challenges(&self.challenges, false, Some(p));
                merge_page(&created_by, &opponent, after, PAGE_SIZE)
            },
        }
    }

    /// One page of games with ids after the cursor, ascending: those that
    /// `player` plays in, or those of anyone where no player is named. Finished
    /// games are left out unless `game_over` is set.
    pub fn query_get_games(
        &self,
        after: Option<u64>,
        game_over: Option<bool>,
        player: Option<&String>,
    ) -> (page: Vec<&CwChessGame>)
        ensures
            targets(page@) == games_page(
                self.games@,
                after,
                game_over == Some(true),
                name_of_ref(player),
            ),
            page@.len() <= PAGE_SIZE,
    {
        let game_over = match game_over {
            Some(wanted) => wanted,
            None => false,
        };
        match player {
            None => {
                let nobody = String::new();
                let all = scan_games(&self.games, Seat::Any, &nobody, game_over);
                let none: Vec<&CwChessGame> = Vec::new();
                assert(targets(none@) =~= Seq::<CwChessGame>::empty());
                assert(game_filter(Seat::Any, nobody@, game_over) == game_filter(
                    Seat::Any,
                    Seq::empty(),
                    game_over,
                ));
                merge_page(&all, &none, after, PAGE_SIZE)
            },
            Some(p) => {
                let player1 = scan_games(&self.games, Seat::First, p, game_over);
                let player2 = scan_games(&self.games, Seat::Second, p, game_over);
                merge_page(&player1, &player2, after, PAGE_SIZE)
            },
        }
    }

    /// All ratings, in ascending order of identity.
    pub fn query_get_ratings(&self) -> (all: &Vec<RatingSummary>)
        requires
            self.wf(),
        ensures
            all@ == self.ratings@,
            sorted_book(all@),
    {
        &self.ratings
    }

    /// Whether the move `move_str` would be accepted from `player` in the game
    /// now; `false` where there is no such game.
    pub fn query_valid_move(&self, game_id: u64, player: &String, move_str: &String) -> (valid:
        bool)
        ensures
            valid == self.move_is_valid(game_id, player@, move_str@),
    {
        let at: usize = find_key(&self.games, game_id);
        if at < self.games.len() {
            self.games[at].valid_move(player, move_str)
        } else {
            false
        }
    }

    /// Whether the game is going on and `player` is to move; `false` where
    /// there is no such game.
    pub fn query_get_turn(&self, game_id: u64, player: &String) -> (mine: bool)
        ensures
            mine == self.is_turn_of(game_id, player@),
    {
        let at: usize = find_key(&self.games, game_id);
        if at < self.games.len() {
            self.games[at].get_turn(player)
        } else {
            false
        }
    }
}

} // verus!
