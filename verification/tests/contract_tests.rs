use cosmos_chess::contract::{execute, instantiate, query, ExecuteMsg, Executed, QueryAnswer, QueryMsg};
use cosmos_chess::error::ContractError;
use cosmos_chess::game::{CwChessAction, CwChessColor, CwChessGameOver};
use cosmos_chess::ledger::Ledger;

fn s(text: &str) -> String {
    text.to_string()
}

fn create(ledger: &mut Ledger, who: &str, opponent: Option<&str>, limit: Option<u64>, now: u64) -> u64 {
    let msg = ExecuteMsg::CreateChallenge {
        block_limit: limit,
        opponent: opponent.map(s),
        play_as: Some(CwChessColor::White),
    };
    match execute(ledger, s(who), now, msg) {
        Ok(Executed::ChallengeCreated { challenge_id }) => challenge_id,
        other => panic!("not created: {:?}", other),
    }
}

fn turn(ledger: &mut Ledger, who: &str, now: u64, notation: &str) -> Result<Executed, ContractError> {
    execute(ledger, s(who), now, ExecuteMsg::Turn { action: CwChessAction::MakeMove(s(notation)), game_id: 1 })
}

#[test]
fn execute_carries_out_each_request() {
    let mut ledger = instantiate(s("owner"));
    assert_eq!(ledger.owner, "owner");
    assert_eq!(create(&mut ledger, "ann", None, Some(5), 10), 1);
    assert_eq!(create(&mut ledger, "ann", Some("bob"), None, 11), 2);
    assert_eq!(
        execute(&mut ledger, s("bob"), 12, ExecuteMsg::CancelChallenge { challenge_id: 2 }),
        Err(ContractError::NotYourChallenge)
    );
    assert_eq!(
        execute(&mut ledger, s("ann"), 12, ExecuteMsg::CancelChallenge { challenge_id: 2 }),
        Ok(Executed::ChallengeCancelled)
    );
    assert_eq!(
        execute(&mut ledger, s("ann"), 13, ExecuteMsg::AcceptChallenge { challenge_id: 1 }),
        Err(ContractError::CannotPlaySelf)
    );
    assert_eq!(
        execute(&mut ledger, s("bob"), 13, ExecuteMsg::AcceptChallenge { challenge_id: 1 }),
        Ok(Executed::ChallengeAccepted { game_id: 1 })
    );
    assert!(matches!(
        query(&ledger, &QueryMsg::GetChallenge { challenge_id: 1 }),
        Err(ContractError::ChallengeNotFound)
    ));
    assert_eq!(turn(&mut ledger, "ann", 14, "e2e4"), Ok(Executed::TurnTaken { status: None }));
    assert_eq!(turn(&mut ledger, "ann", 15, "d2d4"), Err(ContractError::NotYourTurn));
    assert_eq!(turn(&mut ledger, "bob", 15, "e7e4"), Err(ContractError::InvalidMove));
    assert_eq!(
        execute(&mut ledger, s("cat"), 19, ExecuteMsg::DeclareTimeout { game_id: 1 }),
        Err(ContractError::GameNotTimedOut)
    );
    assert_eq!(
        execute(&mut ledger, s("cat"), 20, ExecuteMsg::DeclareTimeout { game_id: 1 }),
        Ok(Executed::TimeoutDeclared { status: CwChessGameOver::BlackTimeout })
    );
    assert_eq!(turn(&mut ledger, "bob", 21, "e7e5"), Err(ContractError::GameAlreadyOver));
    assert_eq!(
        execute(&mut ledger, s("cat"), 99, ExecuteMsg::DeclareTimeout { game_id: 1 }),
        Err(ContractError::GameAlreadyOver)
    );
    assert_eq!(
        execute(&mut ledger, s("cat"), 99, ExecuteMsg::DeclareTimeout { game_id: 2 }),
        Err(ContractError::GameNotFound)
    );
}

#[test]
fn query_answers_each_request() {
    let mut ledger = instantiate(s("owner"));
    create(&mut ledger, "ann", None, None, 10);
    create(&mut ledger, "bob", Some("ann"), None, 10);
    create(&mut ledger, "cat", Some("bob"), None, 10);
    execute(&mut ledger, s("ann"), 11, ExecuteMsg::AcceptChallenge { challenge_id: 2 }).unwrap();
    match query(&ledger, &QueryMsg::GetChallenge { challenge_id: 3 }) {
        Ok(QueryAnswer::Challenge(c)) => assert_eq!(c.created_by, "cat"),
        _ => panic!("challenge 3 is there"),
    }
    match query(&ledger, &QueryMsg::GetChallenges { after: None, player: None }) {
        Ok(QueryAnswer::Challenges(page)) => {
            assert_eq!(page.iter().map(|c| c.challenge_id).collect::<Vec<_>>(), vec![1])
        }
        _ => panic!("a page of challenges is due"),
    }
    match query(&ledger, &QueryMsg::GetChallenges { after: None, player: Some(s("bob")) }) {
        Ok(QueryAnswer::Challenges(page)) => {
            assert_eq!(page.iter().map(|c| c.challenge_id).collect::<Vec<_>>(), vec![3])
        }
        _ => panic!("a page of challenges is due"),
    }
    match query(&ledger, &QueryMsg::GetGame { game_id: 1 }) {
        Ok(QueryAnswer::Game(g)) => assert_eq!((g.player1.as_str(), g.player2.as_str()), ("bob", "ann")),
        _ => panic!("game 1 is there"),
    }
    assert!(matches!(query(&ledger, &QueryMsg::GetGame { game_id: 2 }), Err(ContractError::GameNotFound)));
    match query(&ledger, &QueryMsg::GetGames { after: None, game_over: None, player: Some(s("ann")) }) {
        Ok(QueryAnswer::Games(page)) => assert_eq!(page.iter().map(|g| g.game_id).collect::<Vec<_>>(), vec![1]),
        _ => panic!("a page of games is due"),
    }
    match query(&ledger, &QueryMsg::GetGames { after: Some(1), game_over: Some(true), player: None }) {
        Ok(QueryAnswer::Games(page)) => assert!(page.is_empty()),
        _ => panic!("a page of games is due"),
    }
    match query(&ledger, &QueryMsg::GetRatings) {
        Ok(QueryAnswer::Ratings(all)) => {
            assert_eq!(all.iter().map(|r| r.addr.as_str()).collect::<Vec<_>>(), vec!["ann", "bob", "cat"])
        }
        _ => panic!("ratings are due"),
    }
    let valid = |game_id, player: &str, move_str: &str| {
        matches!(
            query(&ledger, &QueryMsg::ValidMove { game_id, player: s(player), move_str: s(move_str) }),
            Ok(QueryAnswer::ValidMove(true))
        )
    };
    assert!(valid(1, "bob", "e2e4"));
    assert!(!valid(1, "ann", "e2e4"));
    assert!(!valid(1, "bob", "e2e5"));
    assert!(!valid(2, "bob", "e2e4"));
    assert!(matches!(
        query(&ledger, &QueryMsg::GetTurn { game_id: 1, player: s("bob") }),
        Ok(QueryAnswer::Turn(true))
    ));
    assert!(matches!(
        query(&ledger, &QueryMsg::GetTurn { game_id: 1, player: s("ann") }),
        Ok(QueryAnswer::Turn(false))
    ));
    assert!(matches!(
        query(&ledger, &QueryMsg::GetTurn { game_id: 9, player: s("bob") }),
        Ok(QueryAnswer::Turn(false))
    ));
}
