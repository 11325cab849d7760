//! A challenge: a game proposed by one player, open to anyone or directed at
//! one opponent, until it is accepted or cancelled.

use vstd::prelude::*;
use crate::error::ContractError;
use crate::game::CwChessColor;
use crate::merge::Keyed;

verus! {

pub struct Challenge {
    pub block_created: u64,
    pub block_limit: Option<u64>,
    pub challenge_id: u64,
    pub created_by: String,
    /// The one player who may accept; `None` where anyone may.
    pub opponent: Option<String>,
    /// The color that the creator asks for.
    pub play_as: Option<CwChessColor>,
}

impl Keyed for Challenge {
    open spec fn key_spec(&self) -> u64 {
        self.challenge_id
    }

    fn key(&self) -> (k: u64) {
        self.challenge_id
    }
}

/// The text of an optional identity.
pub open spec fn name_of(who: Option<String>) -> Option<Seq<char>> {
    match who {
        Some(s) => Some(s@),
        None => None,
    }
}

impl Challenge {
    /// Nobody challenges themselves.
    pub open spec fn wf(&self) -> bool {
        name_of(self.opponent) != Some(self.created_by@)
    }

    /// Why `player` may not accept this challenge, or `None` where they may:
    /// the creator cannot, and a directed challenge is for its opponent alone.
    pub open spec fn accept_error(&self, player: Seq<char>) -> Option<ContractError> {
        if self.created_by@ == player {
            Some(ContractError::CannotPlaySelf)
        } else if self.opponent.is_some() && name_of(self.opponent) != Some(player) {
            Some(ContractError::NotYourChallenge)
        } else {
            None
        }
    }

    /// Whether `player` is directed at: an open challenge is directed at nobody.
    pub fn is_for(&self, player: &String) -> (yes: bool)
        ensures
            yes == (name_of(self.opponent) == Some(player@)),
    {
        match &self.opponent {
            Some(o) => *o == *player,
            None => false,
        }
    }

    /// Decides whether `player` may accept this challenge.
    pub fn check_accept(&self, player: &String) -> (res: Result<(), ContractError>)
        ensures
            match self.accept_error(player@) {
                Some(e) => res == Err::<(), ContractError>(e),
                None => res.is_ok(),
            },
    {
        if self.created_by == *player {
            Err(ContractError::CannotPlaySelf)
        } else if self.opponent.is_some() && !self.is_for(player) {
            Err(ContractError::NotYourChallenge)
        } else {
            Ok(())
        }
    }

    /// Decides whether `player` may cancel this challenge: only its creator may.
    pub fn check_cancel(&self, player: &String) -> (res: Result<(), ContractError>)
        ensures
            self.created_by@ == player@ ==> res.is_ok(),
            self.created_by@ != player@ ==> res == Err::<(), ContractError>(
                ContractError::NotYourChallenge,
            ),
    {
        if self.created_by == *player {
            Ok(())
        } else {
            Err(ContractError::NotYourChallenge)
        }
    }

    /// A new challenge, unless the creator names themselves as opponent.
    pub fn create(
        challenge_id: u64,
        created_by: String,
        opponent: Option<String>,
        play_as: Option<CwChessColor>,
        block_limit: Option<u64>,
        block_created: u64,
    ) -> (res: Result<Challenge, ContractError>)
        ensures
            name_of(opponent) == Some(created_by@) ==> res == Err::<Challenge, ContractError>(
                ContractError::CannotPlaySelf,
            ),
            name_of(opponent) != Some(created_by@) ==> res == Ok::<Challenge, ContractError>(
                (Challenge {
                    block_created,
                    block_limit,
                    challenge_id,
                    created_by,
                    opponent,
                    play_as,
                }),
            ),
    {
        let own = match &opponent {
            Some(o) => *o == created_by,
            None => false,
        };
        if own {
            Err(ContractError::CannotPlaySelf)
        } else {
            Ok(Challenge { block_created, block_limit, challenge_id, created_by, opponent, play_as })
        }
    }
}

} // verus!
