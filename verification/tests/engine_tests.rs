use cosmos_chess::error::ContractError;
use cosmos_chess::game::{
    CwChessAction, CwChessColor, CwChessGame, CwChessGameOver, DEFAULT_FEN,
};
use cosmos_chess::rules::{judge_move, verdict_from, Ending, MoveVerdict};
use cosmos_chess::merge::{merge_page, next_cursor, start_after, PAGE_SIZE};
use cosmos_chess::rating::{elo, EloConfig, Outcomes, DEFAULT_RATING};

fn s(text: &str) -> String {
    text.to_string()
}

fn legal(fen: &str, ending: Ending) -> MoveVerdict {
    MoveVerdict::Legal { fen: s(fen), ending }
}

fn game(limit: Option<u64>, start: u64) -> CwChessGame {
    CwChessGame::new(7, s("white"), s("black"), limit, start)
}

fn keys(page: &Vec<&u64>) -> Vec<u64> {
    page.iter().map(|k| **k).collect()
}

#[test]
fn merge_takes_lesser_head_and_first_on_ties() {
    let a: Vec<u64> = vec![1, 3, 5];
    let b: Vec<u64> = vec![2, 3, 6];
    let ra: Vec<&u64> = a.iter().collect();
    let rb: Vec<&u64> = b.iter().collect();
    let page = merge_page(&ra, &rb, None, PAGE_SIZE);
    assert_eq!(keys(&page), vec![1, 2, 3, 3, 5, 6]);
    // on the tie the entry of the first source leads
    assert!(std::ptr::eq(page[2], &a[1]));
    assert!(std::ptr::eq(page[3], &b[1]));
}

#[test]
fn merge_page_of_two_after_cursor() {
    let a: Vec<u64> = vec![1, 3, 5];
    let b: Vec<u64> = vec![2, 3, 6];
    let ra: Vec<&u64> = a.iter().collect();
    let rb: Vec<&u64> = b.iter().collect();
    let page = merge_page(&ra, &rb, Some(2), 2);
    assert_eq!(keys(&page), vec![3, 3]);
    assert_eq!(next_cursor(&page), Some(3));
    let rest = merge_page(&ra, &rb, next_cursor(&page), 2);
    assert_eq!(keys(&rest), vec![5, 6]);
    let end = merge_page(&ra, &rb, Some(6), 2);
    assert!(end.is_empty());
    assert_eq!(next_cursor(&end), None);
}

#[test]
fn merge_with_empty_source_and_zero_limit() {
    let a: Vec<u64> = vec![4, 8];
    let ra: Vec<&u64> = a.iter().collect();
    let none: Vec<&u64> = Vec::new();
    assert_eq!(keys(&merge_page(&ra, &none, None, 25)), vec![4, 8]);
    assert_eq!(keys(&merge_page(&none, &ra, Some(4), 25)), vec![8]);
    assert!(merge_page(&ra, &ra, None, 0).is_empty());
    assert_eq!(start_after(&ra, Some(3)), 0);
    assert_eq!(start_after(&ra, Some(4)), 1);
    assert_eq!(start_after(&ra, Some(8)), 2);
    assert_eq!(start_after(&ra, None), 0);
}

#[test]
fn elo_between_equals() {
    let cfg = EloConfig::new();
    assert_eq!(elo(1200, 1200, Outcomes::Draw, &cfg), (1200, 1200));
    assert_eq!(elo(1200, 1200, Outcomes::Win, &cfg), (1216, 1184));
    assert_eq!(elo(1200, 1200, Outcomes::Loss, &cfg), (1184, 1216));
    assert_eq!(DEFAULT_RATING, 1200);
}

#[test]
fn elo_with_a_lead_of_half_the_scale() {
    let cfg = EloConfig::new();
    // 200 points are 8 sixteenths of the scale: the favourite expects 0.760
    assert_eq!(elo(1400, 1200, Outcomes::Win, &cfg), (1407, 1193));
    assert_eq!(elo(1400, 1200, Outcomes::Loss, &cfg), (1376, 1224));
    assert_eq!(elo(1400, 1200, Outcomes::Draw, &cfg), (1392, 1208));
    assert_eq!(elo(1200, 1400, Outcomes::Win, &cfg), (1224, 1376));
}

#[test]
fn elo_is_flat_from_two_scales_on_and_keeps_the_floor() {
    let cfg = EloConfig::new();
    assert_eq!(elo(2000, 1200, Outcomes::Win, &cfg), (2000, 1200));
    assert_eq!(elo(3000, 1200, Outcomes::Loss, &cfg), (2969, 1231));
    assert_eq!(elo(100, 100, Outcomes::Loss, &cfg), (100, 116));
    assert_eq!(elo(u64::MAX, u64::MAX, Outcomes::Win, &cfg), (u64::MAX, u64::MAX - 16));
}

#[test]
fn outcome_of_each_status() {
    assert_eq!(CwChessGameOver::WhiteCheckmates.outcome(), Outcomes::Win);
    assert_eq!(CwChessGameOver::BlackResigns.outcome(), Outcomes::Win);
    assert_eq!(CwChessGameOver::BlackTimeout.outcome(), Outcomes::Win);
    assert_eq!(CwChessGameOver::BlackCheckmates.outcome(), Outcomes::Loss);
    assert_eq!(CwChessGameOver::WhiteResigns.outcome(), Outcomes::Loss);
    assert_eq!(CwChessGameOver::WhiteTimeout.outcome(), Outcomes::Loss);
    assert_eq!(CwChessGameOver::DrawAccepted.outcome(), Outcomes::Draw);
    assert_eq!(CwChessGameOver::DrawDeclared.outcome(), Outcomes::Draw);
    assert_eq!(CwChessGameOver::Stalemate.outcome(), Outcomes::Draw);
}

#[test]
fn player_order_follows_the_color_asked_for() {
    let order = |play_as, now| CwChessGame::get_player_order(s("creator"), s("acceptor"), play_as, now);
    assert_eq!(order(Some(CwChessColor::White), 5), (s("creator"), s("acceptor")));
    assert_eq!(order(Some(CwChessColor::Black), 4), (s("acceptor"), s("creator")));
    assert_eq!(order(None, 10), (s("creator"), s("acceptor")));
    assert_eq!(order(None, 11), (s("acceptor"), s("creator")));
    assert_eq!(order(None, 11), order(None, 11));
}

#[test]
fn new_game_is_at_the_start() {
    let g = game(Some(10), 100);
    assert_eq!(g.fen, DEFAULT_FEN);
    assert_eq!(g.fen, "rnbqkbnr/pppppppp/8/8/8/8/PPPPPPPP/RNBQKBNR w KQkq - 0 1");
    assert!(g.moves.is_empty());
    assert_eq!(g.status, None);
    assert_eq!(g.turn_color(), CwChessColor::White);
    assert_eq!(g.color_of(&s("white")), Some(CwChessColor::White));
    assert_eq!(g.color_of(&s("black")), Some(CwChessColor::Black));
    assert_eq!(g.color_of(&s("other")), None);
    assert!(g.get_turn(&s("white")));
    assert!(!g.get_turn(&s("black")));
    assert_eq!(CwChessColor::White.other(), CwChessColor::Black);
}

#[test]
fn moves_alternate_and_are_logged() {
    let mut g = game(None, 100);
    let m = CwChessAction::MakeMove(s("e2e4"));
    assert_eq!(
        g.apply_turn(&s("black"), 101, m.clone(), legal("x", Ending::Continues)),
        Err(ContractError::NotYourTurn)
    );
    assert_eq!(
        g.apply_turn(&s("other"), 101, m.clone(), legal("x", Ending::Continues)),
        Err(ContractError::NotYourTurn)
    );
    assert_eq!(g.apply_turn(&s("white"), 101, m.clone(), MoveVerdict::Illegal), Err(ContractError::InvalidMove));
    assert_eq!(g.fen, DEFAULT_FEN);
    assert!(g.moves.is_empty());
    let after = "rnbqkbnr/pppppppp/8/8/4P3/8/PPPP1PPP/RNBQKBNR b KQkq - 0 1";
    assert_eq!(g.apply_turn(&s("white"), 101, m, legal(after, Ending::Continues)), Ok(()));
    assert_eq!(g.fen, after);
    assert_eq!(g.moves.len(), 1);
    assert_eq!(g.moves[0].0, 101);
    assert!(matches!(&g.moves[0].1, CwChessAction::MakeMove(n) if n == "e2e4"));
    assert_eq!(g.turn_color(), CwChessColor::Black);
    assert!(g.get_turn(&s("black")));
    assert!(g.valid_verdict(&s("black"), &legal("y", Ending::Continues)));
    assert!(!g.valid_verdict(&s("black"), &MoveVerdict::Illegal));
    assert!(!g.valid_verdict(&s("white"), &legal("y", Ending::Continues)));
}

#[test]
fn checkmate_and_stalemate_end_the_game() {
    let mut g = game(None, 0);
    assert_eq!(g.apply_turn(&s("white"), 1, CwChessAction::MakeMove(s("a")), legal("p", Ending::Checkmate)), Ok(()));
    assert_eq!(g.status, Some(CwChessGameOver::WhiteCheckmates));
    let mut g = game(None, 0);
    assert_eq!(g.apply_turn(&s("white"), 1, CwChessAction::MakeMove(s("a")), legal("p", Ending::Continues)), Ok(()));
    assert_eq!(g.apply_turn(&s("black"), 2, CwChessAction::MakeMove(s("b")), legal("q", Ending::Checkmate)), Ok(()));
    assert_eq!(g.status, Some(CwChessGameOver::BlackCheckmates));
    let mut g = game(None, 0);
    assert_eq!(g.apply_turn(&s("white"), 1, CwChessAction::MakeMove(s("a")), legal("p", Ending::Stalemate)), Ok(()));
    assert_eq!(g.status, Some(CwChessGameOver::Stalemate));
}

#[test]
fn finished_game_refuses_everything_and_keeps_its_board() {
    let mut g = game(Some(5), 0);
    assert_eq!(g.apply_turn(&s("white"), 1, CwChessAction::Resign, MoveVerdict::Illegal), Ok(()));
    assert_eq!(g.status, Some(CwChessGameOver::WhiteResigns));
    let fen = g.fen.clone();
    let logged = g.moves.len();
    for player in ["white", "black", "other"] {
        assert_eq!(
            g.apply_turn(&s(player), 2, CwChessAction::MakeMove(s("e2e4")), legal("z", Ending::Continues)),
            Err(ContractError::GameAlreadyOver)
        );
        assert_eq!(g.apply_turn(&s(player), 2, CwChessAction::Resign, MoveVerdict::Illegal), Err(ContractError::GameAlreadyOver));
        assert_eq!(g.apply_turn(&s(player), 2, CwChessAction::OfferDraw, MoveVerdict::Illegal), Err(ContractError::GameAlreadyOver));
        assert!(!g.get_turn(&s(player)));
        assert!(!g.valid_verdict(&s(player), &legal("z", Ending::Continues)));
    }
    assert_eq!(g.check_timeout(1000), Err(ContractError::GameAlreadyOver));
    assert_eq!(g.fen, fen);
    assert_eq!(g.moves.len(), logged);
    assert_eq!(g.status, Some(CwChessGameOver::WhiteResigns));
}

#[test]
fn black_resigns_on_blacks_turn() {
    let mut g = game(None, 0);
    assert_eq!(g.apply_turn(&s("black"), 1, CwChessAction::Resign, MoveVerdict::Illegal), Err(ContractError::NotYourTurn));
    assert_eq!(g.apply_turn(&s("white"), 1, CwChessAction::MakeMove(s("a")), legal("p", Ending::Continues)), Ok(()));
    assert_eq!(g.apply_turn(&s("black"), 2, CwChessAction::Resign, MoveVerdict::Illegal), Ok(()));
    assert_eq!(g.status, Some(CwChessGameOver::BlackResigns));
    assert_eq!(g.fen, "p");
}

#[test]
fn draw_offer_is_answered_by_the_other_color() {
    let mut g = game(None, 0);
    let none = || MoveVerdict::Illegal;
    assert_eq!(g.apply_turn(&s("black"), 1, CwChessAction::AcceptDraw, none()), Err(ContractError::InvalidMove));
    assert_eq!(g.apply_turn(&s("white"), 1, CwChessAction::DeclineDraw, none()), Err(ContractError::InvalidMove));
    assert_eq!(g.apply_turn(&s("black"), 1, CwChessAction::OfferDraw, none()), Err(ContractError::NotYourTurn));
    assert_eq!(g.apply_turn(&s("white"), 1, CwChessAction::OfferDraw, none()), Ok(()));
    assert_eq!(g.draw_offer, Some(CwChessColor::White));
    assert_eq!(g.apply_turn(&s("white"), 2, CwChessAction::OfferDraw, none()), Err(ContractError::InvalidMove));
    assert_eq!(g.apply_turn(&s("white"), 2, CwChessAction::AcceptDraw, none()), Err(ContractError::NotYourTurn));
    assert_eq!(g.apply_turn(&s("black"), 2, CwChessAction::DeclineDraw, none()), Ok(()));
    // declining takes no turn and ends nothing
    assert_eq!(g.draw_offer, None);
    assert_eq!(g.status, None);
    assert_eq!(g.turn_color(), CwChessColor::White);
    assert_eq!(g.moves.len(), 2);
    assert_eq!(g.apply_turn(&s("white"), 3, CwChessAction::OfferDraw, none()), Ok(()));
    assert_eq!(g.apply_turn(&s("black"), 4, CwChessAction::AcceptDraw, none()), Ok(()));
    assert_eq!(g.status, Some(CwChessGameOver::DrawAccepted));
    assert_eq!(g.fen, DEFAULT_FEN);
}

#[test]
fn a_move_drops_the_pending_offer() {
    let mut g = game(None, 0);
    assert_eq!(g.apply_turn(&s("white"), 1, CwChessAction::OfferDraw, MoveVerdict::Illegal), Ok(()));
    assert_eq!(g.apply_turn(&s("white"), 2, CwChessAction::MakeMove(s("a")), legal("p", Ending::Continues)), Ok(()));
    assert_eq!(g.draw_offer, None);
    assert_eq!(g.apply_turn(&s("black"), 3, CwChessAction::AcceptDraw, MoveVerdict::Illegal), Err(ContractError::InvalidMove));
}

#[test]
fn timeout_is_due_only_past_the_limit() {
    let mut g = game(Some(10), 100);
    assert!(!g.is_timed_out(110));
    assert_eq!(g.check_timeout(110), Ok(None));
    assert_eq!(g.check_timeout(99), Ok(None));
    assert_eq!(g.status, None);
    assert!(g.is_timed_out(111));
    assert_eq!(g.check_timeout(111), Ok(Some(CwChessGameOver::WhiteTimeout)));
    assert_eq!(g.status, Some(CwChessGameOver::WhiteTimeout));
    assert_eq!(g.fen, DEFAULT_FEN);
}

#[test]
fn timeout_runs_from_the_last_action() {
    let mut g = game(Some(10), 100);
    assert_eq!(g.apply_turn(&s("white"), 105, CwChessAction::MakeMove(s("a")), legal("p", Ending::Continues)), Ok(()));
    assert_eq!(g.check_timeout(115), Ok(None));
    assert_eq!(g.check_timeout(116), Ok(Some(CwChessGameOver::BlackTimeout)));
}

#[test]
fn no_limit_no_timeout() {
    let mut g = game(None, 0);
    assert_eq!(g.check_timeout(u64::MAX), Ok(None));
    assert_eq!(g.status, None);
    let mut g = game(Some(0), 7);
    assert_eq!(g.check_timeout(7), Ok(None));
    assert_eq!(g.check_timeout(8), Ok(Some(CwChessGameOver::WhiteTimeout)));
}

fn play(g: &mut CwChessGame, who: &str, tick: u64, notation: &str) -> Result<(), ContractError> {
    g.make_move(&s(who), (tick, CwChessAction::MakeMove(s(notation))))
}

#[test]
fn judged_move_gives_the_next_position() {
    let after = "rnbqkbnr/pppppppp/8/8/4P3/8/PPPP1PPP/RNBQKBNR b KQkq - 0 1";
    match judge_move(DEFAULT_FEN, "e2e4") {
        MoveVerdict::Legal { fen, ending } => {
            assert_eq!(fen, after);
            assert_eq!(ending, Ending::Continues);
        }
        MoveVerdict::Illegal => panic!("e2e4 is legal at the start"),
    }
    assert!(matches!(judge_move(DEFAULT_FEN, "e2e5"), MoveVerdict::Illegal));
    assert!(matches!(judge_move(DEFAULT_FEN, "e7e5"), MoveVerdict::Illegal));
    assert!(matches!(judge_move(DEFAULT_FEN, "nonsense"), MoveVerdict::Illegal));
    assert!(matches!(judge_move("no board", "e2e4"), MoveVerdict::Illegal));
    assert!(matches!(judge_move(DEFAULT_FEN, ""), MoveVerdict::Illegal));
}

#[test]
fn judged_move_sees_mate_and_stalemate() {
    let before_mate = "rnbqkbnr/pppp1ppp/8/4p3/6P1/5P2/PPPPP2P/RNBQKBNR b KQkq - 0 2";
    assert!(matches!(
        judge_move(before_mate, "d8h4"),
        MoveVerdict::Legal { ending: Ending::Checkmate, .. }
    ));
    assert!(matches!(
        judge_move(before_mate, "d8g5"),
        MoveVerdict::Legal { ending: Ending::Continues, .. }
    ));
    assert!(matches!(
        judge_move("7k/8/6K1/5Q2/8/8/8/8 w - - 0 1", "f5f7"),
        MoveVerdict::Legal { ending: Ending::Stalemate, .. }
    ));
}

#[test]
fn judged_move_knows_the_special_moves() {
    // castling, by the king's two steps
    assert!(matches!(
        judge_move("r3k2r/8/8/8/8/8/8/R3K2R w KQkq - 0 1", "e1g1"),
        MoveVerdict::Legal { .. }
    ));
    // no castling through check
    assert!(matches!(judge_move("r3k2r/8/8/8/8/8/5r2/R3K2R w KQ - 0 1", "e1g1"), MoveVerdict::Illegal));
    // en passant
    match judge_move("4k3/8/8/3pP3/8/8/8/4K3 w - d6 0 2", "e5d6") {
        MoveVerdict::Legal { fen, .. } => assert_eq!(fen, "4k3/8/3P4/8/8/8/8/4K3 b - - 0 2"),
        MoveVerdict::Illegal => panic!("en passant is legal here"),
    }
    // promotion names the piece
    match judge_move("8/P7/8/8/8/8/8/k1K5 w - - 0 1", "a7a8q") {
        MoveVerdict::Legal { fen, .. } => assert_eq!(fen, "Q7/8/8/8/8/8/8/k1K5 b - - 0 1"),
        MoveVerdict::Illegal => panic!("promotion is legal here"),
    }
    assert!(matches!(judge_move("8/P7/8/8/8/8/8/k1K5 w - - 0 1", "a7a8"), MoveVerdict::Illegal));
    // a pinned piece stays
    assert!(matches!(judge_move("4r1k1/8/8/8/8/8/4N3/4K3 w - - 0 1", "e2c3"), MoveVerdict::Illegal));
}

#[test]
fn verdict_is_put_together_from_the_three_answers() {
    assert!(matches!(verdict_from(None, Some(true), Some(true)), MoveVerdict::Illegal));
    let ending = |mate, stale| match verdict_from(Some(s("p")), mate, stale) {
        MoveVerdict::Legal { fen, ending } => {
            assert_eq!(fen, "p");
            ending
        }
        MoveVerdict::Illegal => panic!("a successor is a legal move"),
    };
    assert_eq!(ending(Some(true), Some(false)), Ending::Checkmate);
    assert_eq!(ending(Some(true), Some(true)), Ending::Checkmate);
    assert_eq!(ending(Some(false), Some(true)), Ending::Stalemate);
    assert_eq!(ending(None, Some(true)), Ending::Stalemate);
    assert_eq!(ending(Some(false), Some(false)), Ending::Continues);
    assert_eq!(ending(None, None), Ending::Continues);
}

#[test]
fn game_plays_real_moves() {
    let mut g = game(None, 0);
    assert_eq!(play(&mut g, "white", 1, "e2e5"), Err(ContractError::InvalidMove));
    assert_eq!(play(&mut g, "black", 1, "e7e5"), Err(ContractError::NotYourTurn));
    assert_eq!(g.fen, DEFAULT_FEN);
    assert!(g.valid_move(&s("white"), &s("g1f3")));
    assert!(!g.valid_move(&s("white"), &s("g1g3")));
    assert!(!g.valid_move(&s("black"), &s("g1f3")));
    assert_eq!(play(&mut g, "white", 1, "f2f3"), Ok(()));
    assert_eq!(g.fen, "rnbqkbnr/pppppppp/8/8/8/5P2/PPPPP1PP/RNBQKBNR b KQkq - 0 1");
    assert_eq!(play(&mut g, "black", 2, "e7e5"), Ok(()));
    assert_eq!(play(&mut g, "white", 3, "g2g4"), Ok(()));
    assert_eq!(g.status, None);
    assert_eq!(play(&mut g, "black", 4, "d8h4"), Ok(()));
    assert_eq!(g.status, Some(CwChessGameOver::BlackCheckmates));
    assert_eq!(g.fen, "rnb1kbnr/pppp1ppp/8/4p3/6Pq/5P2/PPPPP2P/RNBQKBNR w KQkq - 1 3");
    assert_eq!(g.moves.len(), 4);
    assert_eq!(play(&mut g, "white", 5, "e2e4"), Err(ContractError::GameAlreadyOver));
    assert_eq!(g.make_move(&s("white"), (5, CwChessAction::Resign)), Err(ContractError::GameAlreadyOver));
}

#[test]
fn game_ends_in_stalemate() {
    let mut g = game(None, 0);
    g.fen = s("7k/8/6K1/5Q2/8/8/8/8 w - - 0 1");
    assert_eq!(play(&mut g, "white", 1, "f5f7"), Ok(()));
    assert_eq!(g.status, Some(CwChessGameOver::Stalemate));
    assert_eq!(g.fen, "7k/5Q2/6K1/8/8/8/8/8 b - - 1 1");
}

#[test]
fn actions_that_are_no_moves_need_no_judgement() {
    let mut g = game(None, 0);
    assert_eq!(g.make_move(&s("white"), (1, CwChessAction::OfferDraw)), Ok(()));
    assert_eq!(g.make_move(&s("black"), (2, CwChessAction::DeclineDraw)), Ok(()));
    assert_eq!(g.make_move(&s("white"), (3, CwChessAction::Resign)), Ok(()));
    assert_eq!(g.status, Some(CwChessGameOver::WhiteResigns));
    assert_eq!(g.fen, DEFAULT_FEN);
    assert!(matches!(g.judge(&CwChessAction::Resign), MoveVerdict::Illegal));
}
