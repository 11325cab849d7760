//! The rules of chess, as far as a game needs them: whether a move is legal
//! in a position, the position after it, and whether that position is mate or
//! stalemate. The rules themselves are `shakmaty`'s; positions and moves pass
//! as text, a position in Forsyth-Edwards notation and a move in coordinate
//! notation such as `e2e4` or `e7e8q`.

use vstd::prelude::*;
use shakmaty::Position;

verus! {

/// How the position stands after a legal move.
#[derive(Clone, Copy, Debug, PartialEq, Eq, Structural)]
pub enum Ending {
    /// The opponent has a legal reply.
    Continues,
    /// The opponent is in check and has no legal reply.
    Checkmate,
    /// The opponent is not in check and has no legal reply.
    Stalemate,
}

/// The judgement of the rules of chess on one move in one position.
#[derive(Clone, Debug)]
pub enum MoveVerdict {
    Illegal,
    /// The move is legal; `fen` encodes the board after it.
    Legal { fen: String, ending: Ending },
}

/// A [`MoveVerdict`] with the board encoding as text.
pub enum Judgement {
    Illegal,
    Legal { fen: Seq<char>, ending: Ending },
}

impl View for MoveVerdict {
    type V = Judgement;

    open spec fn view(&self) -> Judgement {
        match *self {
            MoveVerdict::Illegal => Judgement::Illegal,
            MoveVerdict::Legal { fen, ending } => Judgement::Legal { fen: fen@, ending },
        }
    }
}

/// The position that `shakmaty` gives after the move `notation` in the
/// position `fen`, or `None` where it reads no position or no move out of the
/// texts, or does not hold the move legal.
pub uninterp spec fn successor(fen: Seq<char>, notation: Seq<char>) -> Option<Seq<char>>;

/// Whether `shakmaty` holds the side to move in the position `fen` mated, or
/// `None` where it reads no position out of the text.
pub uninterp spec fn checkmated(fen: Seq<char>) -> Option<bool>;

/// Whether `shakmaty` holds the position `fen` a stalemate, or `None` where
/// it reads no position out of the text.
pub uninterp spec fn stalemated(fen: Seq<char>) -> Option<bool>;

/// The text of an optional string.
pub open spec fn text_of(s: Option<String>) -> Option<Seq<char>> {
    match s {
        Some(s) => Some(s@),
        None => None,
    }
}

/// How a position stands for the side to move: mate comes before stalemate,
/// and a position that cannot be read goes on.
pub open spec fn ending_of(fen: Seq<char>) -> Ending {
    if checkmated(fen) == Some(true) {
        Ending::Checkmate
    } else if stalemated(fen) == Some(true) {
        Ending::Stalemate
    } else {
        Ending::Continues
    }
}

/// The judgement on the move `notation` in the position `fen`.
pub open spec fn judgement_of(fen: Seq<char>, notation: Seq<char>) -> Judgement {
    match successor(fen, notation) {
        None => Judgement::Illegal,
        Some(next) => Judgement::Legal { fen: next, ending: ending_of(next) },
    }
}

/// Calls `shakmaty::Position::play` on the standard-chess position that
/// `Fen::from_ascii` and `Fen::into_position` read out of `fen`, with the move
/// that `UciMove::from_ascii` and `UciMove::to_move` read out of `notation`,
/// and writes the new position as text with `Fen::from_position`. Not proved:
/// that the text which comes back is the one named [`successor`], which says
/// only that equal texts give equal answers.
#[verifier::external_body]
fn legal_successor(fen: &str, notation: &str) -> (next: Option<String>)
    ensures
        text_of(next) == successor(fen@, notation@),
{
    let setup = shakmaty::fen::Fen::from_ascii(fen.as_bytes()).ok()?;
    let pos: shakmaty::Chess = setup.into_position(shakmaty::CastlingMode::Standard).ok()?;
    let m = shakmaty::uci::UciMove::from_ascii(notation.as_bytes()).ok()?.to_move(&pos).ok()?;
    let next = pos.play(&m).ok()?;
    Some(shakmaty::fen::Fen::from_position(next, shakmaty::EnPassantMode::Legal).to_string())
}

/// Calls `shakmaty::Position::is_checkmate` on the standard-chess position
/// that `Fen::from_ascii` and `Fen::into_position` read out of `fen`. Not
/// proved: that the answer is the one named [`checkmated`].
#[verifier::external_body]
fn is_checkmate(fen: &str) -> (mate: Option<bool>)
    ensures
        mate == checkmated(fen@),
{
    let setup = shakmaty::fen::Fen::from_ascii(fen.as_bytes()).ok()?;
    let pos: shakmaty::Chess = setup.into_position(shakmaty::CastlingMode::Standard).ok()?;
    Some(pos.is_checkmate())
}

/// Calls `shakmaty::Position::is_stalemate` on the standard-chess position
/// that `Fen::from_ascii` and `Fen::into_position` read out of `fen`. Not
/// proved: that the answer is the one named [`stalemated`].
#[verifier::external_body]
fn is_stalemate(fen: &str) -> (stale: Option<bool>)
    ensures
        stale == stalemated(fen@),
{
    let setup = shakmaty::fen::Fen::from_ascii(fen.as_bytes()).ok()?;
    let pos: shakmaty::Chess = setup.into_position(shakmaty::CastlingMode::Standard).ok()?;
    Some(pos.is_stalemate())
}

/// Puts the three answers of the rules together: no successor is an illegal
/// move, and a successor comes with its ending.
pub fn verdict_from(next: Option<String>, mate: Option<bool>, stale: Option<bool>) -> (verdict:
    MoveVerdict)
    ensures
        verdict@ == match next {
            None => Judgement::Illegal,
            Some(fen) => Judgement::Legal {
                fen: fen@,
                ending: if mate == Some(true) {
                    Ending::Checkmate
                } else if stale == Some(true) {
                    Ending::Stalemate
                } else {
                    Ending::Continues
                },
            },
        },
{
    match next {
        None => MoveVerdict::Illegal,
        Some(fen) => {
            let ending = match (mate, stale) {
                (Some(true), _) => Ending::Checkmate,
                (_, Some(true)) => Ending::Stalemate,
                _ => Ending::Continues,
            };
            MoveVerdict::Legal { fen, ending }
        },
    }
}

/// Judges the move `notation` in the position `fen`.
pub fn judge_move(fen: &str, notation: &str) -> (verdict: MoveVerdict)
    ensures
        verdict@ == judgement_of(fen@, notation@),
{
    match legal_successor(fen, notation) {
        None => MoveVerdict::Illegal,
        Some(next) => {
            let mate = is_checkmate(next.as_str());
            let stale = is_stalemate(next.as_str());
            verdict_from(Some(next), mate, stale)
        },
    }
}

} // verus!
