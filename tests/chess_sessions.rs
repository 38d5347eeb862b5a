use woofer::chess::{ChessState, MoveKind, Verdict};
use woofer::rules::GameEnd;
use woofer::store::ChessGame;
use shakmaty::Position;

const START_URL: &str = "https://chess.dllu.net/rnbqkbnr/pppppppp/8/8/8/8/PPPPPPPP/RNBQKBNR.png";

#[test]
fn first_moves_alternate_between_actors() {
    let mut game = ChessGame::new();
    let r = game.chess("c1", "A", "Alice", "e4");
    assert_eq!(r.kind, MoveKind::Accepted);
    assert_eq!(r.status, "");
    assert_eq!(r.pgn, "1. e4");
    assert_eq!(r.url, "https://chess.dllu.net/rnbqkbnr/pppppppp/8/8/4P3/8/PPPP1PPP/RNBQKBNR.png");

    let r = game.chess("c1", "A", "Alice", "e5");
    assert_eq!(r.kind, MoveKind::OutOfTurn);
    assert_eq!(
        r.status,
        "Someone else has to make a move first!!!!! The last player to make a move is Alice."
    );
    assert_eq!(r.pgn, "1. e4");

    let r = game.chess("c1", "B", "Bob", "e5");
    assert_eq!(r.kind, MoveKind::Accepted);
    assert_eq!(r.status, "");
    assert_eq!(r.pgn, "1. e4 e5");
}

#[test]
fn fools_mate_ends_the_game_and_resets() {
    let mut game = ChessGame::new();
    assert_eq!(game.chess("c1", "A", "A", "f3").kind, MoveKind::Accepted);
    assert_eq!(game.chess("c1", "B", "B", "e5").kind, MoveKind::Accepted);
    assert_eq!(game.chess("c1", "A", "A", "g4").kind, MoveKind::Accepted);
    let r = game.chess("c1", "B", "B", "Qh4#");
    assert_eq!(r.kind, MoveKind::GameOver);
    assert!(r.status.contains("0-1"));
    assert_eq!(r.status, "Black wins! 1. f3 e5 2. g4 Qh4# 0-1");
    assert_eq!(r.pgn, "1. f3 e5 2. g4 Qh4#");

    // The session is new again: the last mover may start, from the start.
    let r = game.chess("c1", "B", "B", "e4");
    assert_eq!(r.kind, MoveKind::Accepted);
    assert_eq!(r.pgn, "1. e4");
}

#[test]
fn illegal_move_lists_legal_moves_and_changes_nothing() {
    let mut game = ChessGame::new();
    let first = game.chess("c1", "A", "A", "e5");
    assert_eq!(first.kind, MoveKind::Illegal);
    assert!(first.status.starts_with("Illegal move!!!!! The valid moves are "));
    assert!(first.status.contains("e4, "));
    assert!(first.status.contains("Nf3"));
    assert!(first.status.ends_with('.'));
    assert_eq!(first.pgn, "");
    assert_eq!(first.url, START_URL);

    let second = game.chess("c1", "A", "A", "e5");
    assert_eq!(second.kind, MoveKind::Illegal);
    assert_eq!(second.status, first.status);
    assert_eq!(second.url, first.url);
    assert_eq!(second.pgn, first.pgn);

    let r = game.chess("c1", "A", "A", "e4");
    assert_eq!(r.kind, MoveKind::Accepted);
    assert_eq!(r.pgn, "1. e4");
}

#[test]
fn unparsable_text_is_reported_before_the_turn_order() {
    let mut game = ChessGame::new();
    assert_eq!(game.chess("c1", "A", "A", "e4").kind, MoveKind::Accepted);
    let r = game.chess("c1", "A", "A", "not a move");
    assert_eq!(r.kind, MoveKind::Unparsable);
    assert!(r.status.starts_with("Illegal move!!!!! The valid moves are "));
    assert_eq!(r.pgn, "1. e4");
}

#[test]
fn out_of_turn_is_checked_before_legality() {
    let mut game = ChessGame::new();
    assert_eq!(game.chess("c1", "A", "A", "e4").kind, MoveKind::Accepted);
    let r = game.chess("c1", "A", "A", "Ke7");
    assert_eq!(r.kind, MoveKind::OutOfTurn);
    assert_eq!(r.pgn, "1. e4");
}

#[test]
fn channels_are_independent() {
    let mut game = ChessGame::new();
    assert_eq!(game.chess("c1", "A", "A", "e4").kind, MoveKind::Accepted);
    let r = game.chess("c2", "A", "A", "d4");
    assert_eq!(r.kind, MoveKind::Accepted);
    assert_eq!(r.pgn, "1. d4");
    let r = game.chess("c1", "B", "B", "e5");
    assert_eq!(r.pgn, "1. e4 e5");
}

#[test]
fn illegal_move_reply_for_an_unseen_channel() {
    let mut game = ChessGame::new();
    let r = game.chess_illegal_move("fresh");
    assert_eq!(r.kind, MoveKind::Illegal);
    assert_eq!(r.pgn, "");
    assert_eq!(r.url, START_URL);
    assert!(r.status.contains("Nh3"));
}

#[test]
fn two_actors_may_share_a_side() {
    let mut game = ChessGame::new();
    assert_eq!(game.chess("c1", "A", "A", "e4").kind, MoveKind::Accepted);
    assert_eq!(game.chess("c1", "B", "B", "e5").kind, MoveKind::Accepted);
    assert_eq!(game.chess("c1", "C", "C", "Nf3").kind, MoveKind::Accepted);
    let r = game.chess("c1", "A", "A", "Nc6");
    assert_eq!(r.kind, MoveKind::Accepted);
    assert_eq!(r.pgn, "1. e4 e5 2. Nf3 Nc6");
}

#[test]
fn settle_with_scripted_verdicts() {
    let start = shakmaty::Chess::default();
    let mut state = ChessState::fresh(&start);
    let r = state.settle(&start, "A", "A", "e4", Verdict::Played(start.clone(), GameEnd::Ongoing));
    assert_eq!(r.kind, MoveKind::Accepted);
    assert_eq!(r.pgn, "1. e4");
    assert_eq!(r.url, START_URL);

    let r = state.settle(&start, "B", "B", "e5", Verdict::Illegal);
    assert_eq!(r.kind, MoveKind::Illegal);
    assert_eq!(r.pgn, "1. e4");

    let r = state.settle(&start, "B", "B", "Qxf7", Verdict::Played(start.clone(), GameEnd::WhiteWins));
    assert_eq!(r.kind, MoveKind::GameOver);
    assert_eq!(r.status, "White wins! 1. e4 Qxf7 1-0");

    let r = state.settle(&start, "B", "B", "d4", Verdict::Played(start.clone(), GameEnd::Draw));
    assert_eq!(r.kind, MoveKind::GameOver);
    assert_eq!(r.status, "Draw! 1. d4 1/2-1/2");
    assert_eq!(r.pgn, "1. d4");

    let r = state.settle(&start, "B", "B", "zz", Verdict::Unparsable);
    assert_eq!(r.kind, MoveKind::Unparsable);
    assert_eq!(r.pgn, "");
}

#[test]
fn new_state_starts_empty() {
    let mut state = ChessState::new();
    let start = shakmaty::Chess::default();
    let r = state.attempt(&start, "A", "A", "Nf3");
    assert_eq!(r.kind, MoveKind::Accepted);
    assert_eq!(r.pgn, "1. Nf3");
}

#[test]
fn illegal_move_lists_exactly_the_legal_moves() {
    let start = shakmaty::Chess::default();
    let names: Vec<String> = start
        .legal_moves()
        .iter()
        .map(|m| shakmaty::san::San::from_move(&start, m).to_string())
        .collect();
    assert_eq!(names.len(), 20);
    let mut game = ChessGame::new();
    let r = game.chess("c9", "A", "A", "Ke2");
    assert_eq!(r.kind, MoveKind::Illegal);
    assert_eq!(r.status, format!("Illegal move!!!!! The valid moves are {}.", names.join(", ")));
    assert_eq!(r.url, START_URL);
}
