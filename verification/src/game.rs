//! One game: whose turn it is, what each action does, when it is over, and
//! when the player to move has run out of ticks.

use vstd::prelude::*;
use crate::error::ContractError;
use crate::merge::Keyed;
use crate::rating::Outcomes;
use crate::rules::{judge_move, judgement_of, Ending, Judgement, MoveVerdict};

verus! {

#[derive(Clone, Copy, Debug, PartialEq, Eq, Structural)]
pub enum CwChessColor {
    White,
    Black,
}

/// The nine ways in which a game ends.
#[derive(Clone, Copy, Debug, PartialEq, Eq, Structural)]
pub enum CwChessGameOver {
    WhiteCheckmates,
    BlackCheckmates,
    WhiteResigns,
    BlackResigns,
    WhiteTimeout,
    BlackTimeout,
    DrawAccepted,
    DrawDeclared,
    Stalemate,
}

/// What a player may do on a turn.
#[derive(Clone, Debug)]
pub enum CwChessAction {
    /// Ends the game in a draw; for the color that the pending offer was made to.
    AcceptDraw,
    /// Drops the pending offer. It takes no turn: the same color is to move.
    DeclineDraw,
    /// A move, in the notation that the rules of chess are judged in.
    MakeMove(String),
    /// Offers a draw; for the color to move, while no offer is pending.
    OfferDraw,
    /// Gives the game up; for the color to move.
    Resign,
}

/// The board encoding of the starting position.
pub const DEFAULT_FEN: &'static str = "rnbqkbnr/pppppppp/8/8/8/8/PPPPPPPP/RNBQKBNR w KQkq - 0 1";

pub struct CwChessGame {
    pub block_limit: Option<u64>,
    pub block_start: u64,
    pub fen: String,
    pub game_id: u64,
    /// Plays White.
    pub player1: String,
    /// Plays Black.
    pub player2: String,
    /// Every accepted action with the tick at which it came, oldest first.
    pub moves: Vec<(u64, CwChessAction)>,
    pub status: Option<CwChessGameOver>,
    /// The color to move.
    pub to_move: CwChessColor,
    /// The color that has offered a draw which is not answered yet.
    pub draw_offer: Option<CwChessColor>,
}

impl CwChessColor {
    pub open spec fn other_spec(self) -> CwChessColor {
        match self {
            CwChessColor::White => CwChessColor::Black,
            CwChessColor::Black => CwChessColor::White,
        }
    }

    /// The opposite color.
    pub fn other(self) -> (c: CwChessColor)
        ensures
            c == self.other_spec(),
    {
        match self {
            CwChessColor::White => CwChessColor::Black,
            CwChessColor::Black => CwChessColor::White,
        }
    }

    pub open spec fn checkmates(self) -> CwChessGameOver {
        match self {
            CwChessColor::White => CwChessGameOver::WhiteCheckmates,
            CwChessColor::Black => CwChessGameOver::BlackCheckmates,
        }
    }

    pub open spec fn resigns(self) -> CwChessGameOver {
        match self {
            CwChessColor::White => CwChessGameOver::WhiteResigns,
            CwChessColor::Black => CwChessGameOver::BlackResigns,
        }
    }

    pub open spec fn timeout(self) -> CwChessGameOver {
        match self {
            CwChessColor::White => CwChessGameOver::WhiteTimeout,
            CwChessColor::Black => CwChessGameOver::BlackTimeout,
        }
    }
}

impl CwChessGameOver {
    /// The outcome for the first player, who plays White: a checkmate by
    /// White, or a resignation or timeout of Black, is a win; the mirror
    /// images are losses; the three draws are draws.
    pub open spec fn outcome_spec(self) -> Outcomes {
        match self {
            CwChessGameOver::WhiteCheckmates
            | CwChessGameOver::BlackResigns
            | CwChessGameOver::BlackTimeout => Outcomes::Win,
            CwChessGameOver::BlackCheckmates
            | CwChessGameOver::WhiteResigns
            | CwChessGameOver::WhiteTimeout => Outcomes::Loss,
            CwChessGameOver::DrawAccepted
            | CwChessGameOver::DrawDeclared
            | CwChessGameOver::Stalemate => Outcomes::Draw,
        }
    }

    pub fn outcome(self) -> (o: Outcomes)
        ensures
            o == self.outcome_spec(),
    {
        match self {
            CwChessGameOver::WhiteCheckmates
            | CwChessGameOver::BlackResigns
            | CwChessGameOver::BlackTimeout => Outcomes::Win,
            CwChessGameOver::BlackCheckmates
            | CwChessGameOver::WhiteResigns
            | CwChessGameOver::WhiteTimeout => Outcomes::Loss,
            CwChessGameOver::DrawAccepted
            | CwChessGameOver::DrawDeclared
            | CwChessGameOver::Stalemate => Outcomes::Draw,
        }
    }
}

/// Who plays White and who Black, as `(player1, player2)`. The creator of the
/// challenge gets the color asked for; where none was asked for, the creator
/// plays White when the game starts on an even tick and Black on an odd one.
pub open spec fn player_order(
    creator: String,
    acceptor: String,
    play_as: Option<CwChessColor>,
    block_start: u64,
) -> (String, String) {
    let creator_is_white = match play_as {
        Some(CwChessColor::White) => true,
        Some(CwChessColor::Black) => false,
        None => block_start % 2 == 0,
    };
    if creator_is_white {
        (creator, acceptor)
    } else {
        (acceptor, creator)
    }
}

/// The tick from which the budget of the player to move runs: the later of
/// the game's start and the last accepted action.
pub open spec fn clock_base(block_start: u64, moves: Seq<(u64, CwChessAction)>) -> u64 {
    if moves.len() > 0 && moves[moves.len() - 1].0 > block_start {
        moves[moves.len() - 1].0
    } else {
        block_start
    }
}

impl Keyed for CwChessGame {
    open spec fn key_spec(&self) -> u64 {
        self.game_id
    }

    fn key(&self) -> (k: u64) {
        self.game_id
    }
}

impl CwChessGame {
    /// The two players of a game differ.
    pub open spec fn wf(&self) -> bool {
        self.player1@ != self.player2@
    }

    /// The color that `player` has in this game, if any.
    pub open spec fn side_of(&self, player: Seq<char>) -> Option<CwChessColor> {
        if player == self.player1@ {
            Some(CwChessColor::White)
        } else if player == self.player2@ {
            Some(CwChessColor::Black)
        } else {
            None
        }
    }

    /// The color that may take `action` now: a draw offer is answered by the
    /// color that did not make it, and everything else is done by the color to
    /// move.
    pub open spec fn actor(&self, action: CwChessAction) -> Option<CwChessColor> {
        match action {
            CwChessAction::AcceptDraw | CwChessAction::DeclineDraw => match self.draw_offer {
                Some(c) => Some(c.other_spec()),
                None => None,
            },
            _ => Some(self.to_move),
        }
    }

    /// Why a turn is refused, or `None` where it is accepted. A finished game
    /// refuses everything. An answer to a draw offer that nobody made is no
    /// valid move, nor is a second offer while one is pending, nor a move that
    /// the rules of chess do not allow.
    pub open spec fn turn_error(
        &self,
        player: Seq<char>,
        action: CwChessAction,
        verdict: Judgement,
    ) -> Option<ContractError> {
        if self.status.is_some() {
            Some(ContractError::GameAlreadyOver)
        } else if self.actor(action).is_none() {
            Some(ContractError::InvalidMove)
        } else if self.side_of(player) != self.actor(action) {
            Some(ContractError::NotYourTurn)
        } else if action is OfferDraw && self.draw_offer.is_some() {
            Some(ContractError::InvalidMove)
        } else if action is MakeMove && verdict is Illegal {
            Some(ContractError::InvalidMove)
        } else {
            None
        }
    }

    /// The status after an accepted turn.
    pub open spec fn status_after(&self, action: CwChessAction, verdict: Judgement) -> Option<
        CwChessGameOver,
    > {
        match action {
            CwChessAction::MakeMove(_) => match verdict {
                Judgement::Legal { ending: Ending::Checkmate, .. } => Some(
                    self.to_move.checkmates(),
                ),
                Judgement::Legal { ending: Ending::Stalemate, .. } => Some(
                    CwChessGameOver::Stalemate,
                ),
                _ => None,
            },
            CwChessAction::Resign => Some(self.to_move.resigns()),
            CwChessAction::AcceptDraw => Some(CwChessGameOver::DrawAccepted),
            _ => None,
        }
    }

    /// The board encoding after an accepted turn: only a move changes it.
    pub open spec fn fen_after(&self, action: CwChessAction, verdict: Judgement) -> Seq<char> {
        match (action, verdict) {
            (CwChessAction::MakeMove(_), Judgement::Legal { fen, .. }) => fen,
            _ => self.fen@,
        }
    }

    /// The judgement of the rules of chess on `action` in the current
    /// position. What is no move is not judged.
    pub open spec fn judgement(&self, action: CwChessAction) -> Judgement {
        match action {
            CwChessAction::MakeMove(notation) => judgement_of(self.fen@, notation@),
            _ => Judgement::Illegal,
        }
    }

    /// The color to move after an accepted turn: only a move passes the turn.
    pub open spec fn to_move_after(&self, action: CwChessAction) -> CwChessColor {
        match action {
            CwChessAction::MakeMove(_) => self.to_move.other_spec(),
            _ => self.to_move,
        }
    }

    /// The pending draw offer after an accepted turn: an offer sets it, and a
    /// move or an answer clears it.
    pub open spec fn draw_offer_after(&self, action: CwChessAction) -> Option<CwChessColor> {
        match action {
            CwChessAction::OfferDraw => Some(self.to_move),
            CwChessAction::Resign => self.draw_offer,
            _ => None,
        }
    }

    /// Whether `next` is this game after the accepted turn: the action is
    /// logged with its tick, and board, status, turn and draw offer follow the
    /// action.
    pub open spec fn turn_applied(
        &self,
        next: CwChessGame,
        height: u64,
        action: CwChessAction,
        verdict: Judgement,
    ) -> bool {
        &&& next.moves@ == self.moves@.push((height, action))
        &&& next.fen@ == self.fen_after(action, verdict)
        &&& next.status == self.status_after(action, verdict)
        &&& next.to_move == self.to_move_after(action)
        &&& next.draw_offer == self.draw_offer_after(action)
        &&& next.game_id == self.game_id
        &&& next.player1 == self.player1
        &&& next.player2 == self.player2
        &&& next.block_limit == self.block_limit
        &&& next.block_start == self.block_start
    }

    /// Whether `next` is this game after the color to move lost on time:
    /// nothing but the status differs.
    pub open spec fn timeout_applied(&self, next: CwChessGame) -> bool {
        &&& next.status == Some(self.to_move.timeout())
        &&& next.moves == self.moves
        &&& next.fen == self.fen
        &&& next.to_move == self.to_move
        &&& next.draw_offer == self.draw_offer
        &&& next.game_id == self.game_id
        &&& next.player1 == self.player1
        &&& next.player2 == self.player2
        &&& next.block_limit == self.block_limit
        &&& next.block_start == self.block_start
    }

    /// Whether a timeout can be declared at `height`: the game has a budget,
    /// and more ticks than that have passed since the clock's base.
    pub open spec fn timed_out(&self, height: u64) -> bool {
        match self.block_limit {
            Some(limit) => height - clock_base(self.block_start, self.moves@) > limit,
            None => false,
        }
    }

    /// Orders the two players of a new game into White and Black.
    pub fn get_player_order(
        creator: String,
        acceptor: String,
        play_as: Option<CwChessColor>,
        block_start: u64,
    ) -> (order: (String, String))
        ensures
            order == player_order(creator, acceptor, play_as, block_start),
    {
        let creator_is_white = match play_as {
            Some(CwChessColor::White) => true,
            Some(CwChessColor::Black) => false,
            None => block_start % 2 == 0,
        };
        if creator_is_white {
            (creator, acceptor)
        } else {
            (acceptor, creator)
        }
    }

    /// A game at its start: the starting position, no moves, White to move.
    pub fn new(
        game_id: u64,
        player1: String,
        player2: String,
        block_limit: Option<u64>,
        block_start: u64,
    ) -> (game: CwChessGame)
        requires
            player1@ != player2@,
        ensures
            game.wf(),
            game.game_id == game_id,
            game.player1 == player1,
            game.player2 == player2,
            game.block_limit == block_limit,
            game.block_start == block_start,
            game.fen@ == DEFAULT_FEN@,
            game.moves@.len() == 0,
            game.status.is_none(),
            game.to_move == CwChessColor::White,
            game.draw_offer.is_none(),
    {
        CwChessGame {
            block_limit,
            block_start,
            fen: DEFAULT_FEN.to_string(),
            game_id,
            player1,
            player2,
            moves: Vec::new(),
            status: None,
            to_move: CwChessColor::White,
            draw_offer: None,
        }
    }

    /// The color to move.
    pub fn turn_color(&self) -> (c: CwChessColor)
        ensures
            c == self.to_move,
    {
        self.to_move
    }

    /// The color that `player` has in this game, if any.
    pub fn color_of(&self, player: &String) -> (side: Option<CwChessColor>)
        ensures
            side == self.side_of(player@),
    {
        if *player == self.player1 {
            Some(CwChessColor::White)
        } else if *player == self.player2 {
            Some(CwChessColor::Black)
        } else {
            None
        }
    }

    /// Whether the game is going on and it is `player` who is to move.
    pub fn get_turn(&self, player: &String) -> (mine: bool)
        ensures
            mine == (self.status.is_none() && self.side_of(player@) == Some(self.to_move)),
    {
        if self.status.is_some() {
            return false;
        }
        match self.color_of(player) {
            Some(c) => c == self.to_move,
            None => false,
        }
    }

    /// Whether a move that was judged as `verdict` would be accepted from
    /// `player` now. Changes nothing, and answers `false` where the turn would
    /// be refused.
    pub fn valid_verdict(&self, player: &String, verdict: &MoveVerdict) -> (valid: bool)
        ensures
            valid == (self.status.is_none() && self.side_of(player@) == Some(self.to_move)
                && verdict@ is Legal),
    {
        let legal = match verdict {
            MoveVerdict::Legal { .. } => true,
            MoveVerdict::Illegal => false,
        };
        self.get_turn(player) && legal
    }

    /// Decides whether a turn would be accepted, without taking it.
    pub fn check_turn(&self, player: &String, action: &CwChessAction, verdict: &MoveVerdict) -> (e:
        Option<ContractError>)
        ensures
            e == self.turn_error(player@, *action, verdict@),
    {
        if self.status.is_some() {
            return Some(ContractError::GameAlreadyOver);
        }
        let actor = match action {
            CwChessAction::AcceptDraw | CwChessAction::DeclineDraw => match self.draw_offer {
                Some(c) => c.other(),
                None => {
                    return Some(ContractError::InvalidMove);
                },
            },
            _ => self.to_move,
        };
        match self.color_of(player) {
            Some(c) => {
                if c != actor {
                    return Some(ContractError::NotYourTurn);
                }
            },
            None => {
                return Some(ContractError::NotYourTurn);
            },
        }
        match action {
            CwChessAction::OfferDraw => {
                if self.draw_offer.is_some() {
                    return Some(ContractError::InvalidMove);
                }
            },
            CwChessAction::MakeMove(_) => {
                match verdict {
                    MoveVerdict::Illegal => {
                        return Some(ContractError::InvalidMove);
                    },
                    _ => {},
                }
            },
            _ => {},
        }
        None
    }

    /// Whether a timeout is due at `height`.
    pub fn is_timed_out(&self, height: u64) -> (due: bool)
        ensures
            due == self.timed_out(height),
    {
        let limit: u64 = match self.block_limit {
            Some(limit) => limit,
            None => {
                return false;
            },
        };
        let mut base: u64 = self.block_start;
        let n: usize = self.moves.len();
        if n > 0 {
            let last: u64 = self.moves[n - 1].0;
            if last > base {
                base = last;
            }
        }
        height > base && height - base > limit
    }

    /// Takes one turn that was judged already. `verdict` is the judgement of
    /// the rules of chess on the move in the current position, and is read
    /// only where `action` is a move. A refused turn leaves the game as it was.
    pub fn apply_turn(
        &mut self,
        player: &String,
        height: u64,
        action: CwChessAction,
        verdict: MoveVerdict,
    ) -> (res: Result<(), ContractError>)
        ensures
            match old(self).turn_error(player@, action, verdict@) {
                Some(e) => res == Err::<(), ContractError>(e) && *final(self) == *old(self),
                None => res.is_ok() && old(self).turn_applied(
                    *final(self),
                    height,
                    action,
                    verdict@,
                ),
            },
    {
        match self.check_turn(player, &action, &verdict) {
            Some(e) => {
                return Err(e);
            },
            None => {},
        }
        let mover = self.to_move;
        match &action {
            CwChessAction::MakeMove(_) => match verdict {
                MoveVerdict::Illegal => {},
                MoveVerdict::Legal { fen, ending } => {
                    self.fen = fen;
                    self.to_move = mover.other();
                    self.draw_offer = None;
                    match ending {
                        Ending::Continues => {},
                        Ending::Checkmate => {
                            self.status = Some(
                                match mover {
                                    CwChessColor::White => CwChessGameOver::WhiteCheckmates,
                                    CwChessColor::Black => CwChessGameOver::BlackCheckmates,
                                },
                            );
                        },
                        Ending::Stalemate => {
                            self.status = Some(CwChessGameOver::Stalemate);
                        },
                    }
                },
            },
            CwChessAction::Resign => {
                self.status = Some(
                    match mover {
                        CwChessColor::White => CwChessGameOver::WhiteResigns,
                        CwChessColor::Black => CwChessGameOver::BlackResigns,
                    },
                );
            },
            CwChessAction::OfferDraw => {
                self.draw_offer = Some(mover);
            },
            CwChessAction::AcceptDraw => {
                self.status = Some(CwChessGameOver::DrawAccepted);
                self.draw_offer = None;
            },
            CwChessAction::DeclineDraw => {
                self.draw_offer = None;
            },
        }
        self.moves.push((height, action));
        Ok(())
    }

    /// Judges `action` in the current position, where it is a move.
    pub fn judge(&self, action: &CwChessAction) -> (verdict: MoveVerdict)
        ensures
            verdict@ == self.judgement(*action),
    {
        match action {
            CwChessAction::MakeMove(notation) => judge_move(self.fen.as_str(), notation.as_str()),
            _ => MoveVerdict::Illegal,
        }
    }

    /// Takes one turn: `entry` is the tick and the action. A move is judged by
    /// the rules of chess in the current position. A refused turn leaves the
    /// game as it was.
    pub fn make_move(&mut self, player: &String, entry: (u64, CwChessAction)) -> (res: Result<
        (),
        ContractError,
    >)
        ensures
            match old(self).turn_error(player@, entry.1, old(self).judgement(entry.1)) {
                Some(e) => res == Err::<(), ContractError>(e) && *final(self) == *old(self),
                None => res.is_ok() && old(self).turn_applied(
                    *final(self),
                    entry.0,
                    entry.1,
                    old(self).judgement(entry.1),
                ),
            },
    {
        let verdict = self.judge(&entry.1);
        self.apply_turn(player, entry.0, entry.1, verdict)
    }

    /// Whether the move `move_str` would be accepted from `player` now.
    /// Changes nothing, and answers `false` where the turn would be refused.
    pub fn valid_move(&self, player: &String, move_str: &String) -> (valid: bool)
        ensures
            valid == (self.status.is_none() && self.side_of(player@) == Some(self.to_move)
                && judgement_of(self.fen@, move_str@) is Legal),
    {
        let verdict = judge_move(self.fen.as_str(), move_str.as_str());
        self.valid_verdict(player, &verdict)
    }

    /// Declares a timeout where one is due at `height`: the color to move then
    /// loses on time. Where none is due, the answer is `None` and the game is
    /// as it was. A finished game refuses.
    pub fn check_timeout(&mut self, height: u64) -> (res: Result<
        Option<CwChessGameOver>,
        ContractError,
    >)
        ensures
            old(self).status.is_some() ==> res == Err::<Option<CwChessGameOver>, ContractError>(
                ContractError::GameAlreadyOver,
            ) && *final(self) == *old(self),
            old(self).status.is_none() && !old(self).timed_out(height) ==> res == Ok::<
                Option<CwChessGameOver>,
                ContractError,
            >(None) && *final(self) == *old(self),
            old(self).status.is_none() && old(self).timed_out(height) ==> res == Ok::<
                Option<CwChessGameOver>,
                ContractError,
            >(Some(old(self).to_move.timeout())) && old(self).timeout_applied(*final(self)),
    {
        if self.status.is_some() {
            return Err(ContractError::GameAlreadyOver);
        }
        if self.is_timed_out(height) {
            let tag = match self.to_move {
                CwChessColor::White => CwChessGameOver::WhiteTimeout,
                CwChessColor::Black => CwChessGameOver::BlackTimeout,
            };
            self.status = Some(tag);
            Ok(Some(tag))
        } else {
            Ok(None)
        }
    }
}

/// The colors depend on nothing but the two players, the color asked for and
/// the tick of acceptance: the creator gets the color asked for, and without a
/// wish plays White from an even tick and Black from an odd one. The two
/// players of the game are always the creator and the acceptor.
pub proof fn lemma_player_order(
    creator: String,
    acceptor: String,
    play_as: Option<CwChessColor>,
    block_start: u64,
)
    ensures
        play_as == Some(CwChessColor::White) || (play_as.is_none() && block_start % 2 == 0)
            ==> player_order(creator, acceptor, play_as, block_start) == (creator, acceptor),
        play_as == Some(CwChessColor::Black) || (play_as.is_none() && block_start % 2 == 1)
            ==> player_order(creator, acceptor, play_as, block_start) == (acceptor, creator),
        creator@ != acceptor@ ==> player_order(creator, acceptor, play_as, block_start).0@
            != player_order(creator, acceptor, play_as, block_start).1@,
{
}

/// A finished game refuses every turn from everyone, whatever the verdict.
pub proof fn lemma_finished_game_refuses(
    game: CwChessGame,
    player: Seq<char>,
    action: CwChessAction,
    verdict: Judgement,
)
    requires
        game.status.is_some(),
    ensures
        game.turn_error(player, action, verdict) == Some(ContractError::GameAlreadyOver),
{
}

/// With a budget of `limit` ticks, no timeout is due up to and at `limit` ticks
/// past the clock's base, and one is due at every tick after that.
pub proof fn lemma_timeout_boundary(game: CwChessGame, limit: u64, height: u64)
    requires
        game.block_limit == Some(limit),
    ensures
        height <= clock_base(game.block_start, game.moves@) + limit ==> !game.timed_out(height),
        height > clock_base(game.block_start, game.moves@) + limit ==> game.timed_out(height),
{
}

/// An accepted turn that is no move leaves the board as it was, and only a
/// move passes the turn to the other color.
pub proof fn lemma_only_moves_touch_the_board(
    game: CwChessGame,
    next: CwChessGame,
    height: u64,
    action: CwChessAction,
    verdict: Judgement,
)
    requires
        game.turn_applied(next, height, action, verdict),
        !(action is MakeMove),
    ensures
        next.fen@ == game.fen@,
        next.to_move == game.to_move,
{
}

} // verus!
