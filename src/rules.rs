//! The chess rules engine, shakmaty, as the session logic sees it.

use vstd::prelude::*;
use shakmaty::Position;

verus! {

#[verifier::external_type_specification]
#[verifier::external_body]
pub struct ExChess(shakmaty::Chess);

#[verifier::external_type_specification]
#[verifier::external_body]
pub struct ExSan(shakmaty::san::San);

#[verifier::external_type_specification]
#[verifier::external_body]
pub struct ExMove(shakmaty::Move);

/// Relies on the derived `Clone` of `shakmaty::Chess`: the copy is the same
/// position.
pub assume_specification[ <shakmaty::Chess as Clone>::clone ](pos: &shakmaty::Chess) -> (r: shakmaty::Chess)
    ensures
        r == *pos,
;

/// How a position stands after a move.
#[derive(Clone, Copy, Debug, PartialEq, Eq, Structural)]
pub enum GameEnd {
    Ongoing,
    WhiteWins,
    BlackWins,
    Draw,
}

/// Whether a text is a move in standard algebraic notation.
pub uninterp spec fn san_parses(text: Seq<char>) -> bool;

/// The notation that a text parses to.
pub uninterp spec fn san_of(text: Seq<char>) -> shakmaty::san::San;

/// The one legal move of a position that a notation names, if there is
/// exactly one.
pub uninterp spec fn move_of(san: shakmaty::san::San, pos: shakmaty::Chess) -> Option<shakmaty::Move>;

/// The position after a move, if the move is legal.
pub uninterp spec fn played_of(pos: shakmaty::Chess, m: shakmaty::Move) -> Option<shakmaty::Chess>;

/// How the game stands in a position.
pub uninterp spec fn end_of(pos: shakmaty::Chess) -> GameEnd;

/// The legal moves of a position, in the engine's order.
pub uninterp spec fn legal_moves_of(pos: shakmaty::Chess) -> Seq<shakmaty::Move>;

/// A move of a position written in standard algebraic notation.
pub uninterp spec fn san_name_of(pos: shakmaty::Chess, m: shakmaty::Move) -> Seq<char>;

/// A position written as an EPD record.
pub uninterp spec fn epd_of(pos: shakmaty::Chess) -> Seq<char>;

/// Relies on `Chess::default`: the standard starting position, white to move
/// with all castling rights and no en passant square.
#[verifier::external_body]
pub(crate) fn starting_position() -> (r: shakmaty::Chess)
    ensures
        epd_of(r) == "rnbqkbnr/pppppppp/8/8/8/8/PPPPPPPP/RNBQKBNR w KQkq -"@,
{
    shakmaty::Chess::default()
}

/// Relies on `San`'s `FromStr`: whether the text parses depends on the text
/// alone.
#[verifier::external_body]
pub(crate) fn parse_san(text: &str) -> (r: Option<shakmaty::san::San>)
    ensures
        r.is_some() == san_parses(text@),
        r.is_some() ==> r == Some(san_of(text@)),
{
    text.parse::<shakmaty::san::San>().ok()
}

/// Relies on `San::to_move`: the one legal move of the position that the
/// notation names, if there is exactly one.
#[verifier::external_body]
pub(crate) fn san_to_move(san: &shakmaty::san::San, pos: &shakmaty::Chess) -> (r: Option<shakmaty::Move>)
    ensures
        r == move_of(*san, *pos),
{
    san.to_move(pos).ok()
}

/// Relies on `Position::play`: the position after a legal move, none after an
/// illegal one.
#[verifier::external_body]
pub(crate) fn play_move(pos: &shakmaty::Chess, m: &shakmaty::Move) -> (r: Option<shakmaty::Chess>)
    ensures
        r == played_of(*pos, *m),
{
    pos.clone().play(m).ok()
}

/// Relies on `Position::outcome`: checkmate, stalemate or insufficient
/// material, or none while the game goes on.
#[verifier::external_body]
pub(crate) fn game_end(pos: &shakmaty::Chess) -> (r: GameEnd)
    ensures
        r == end_of(*pos),
{
    match pos.outcome() {
        None => GameEnd::Ongoing,
        Some(shakmaty::Outcome::Decisive { winner: shakmaty::Color::White }) => GameEnd::WhiteWins,
        Some(shakmaty::Outcome::Decisive { winner: shakmaty::Color::Black }) => GameEnd::BlackWins,
        Some(shakmaty::Outcome::Draw) => GameEnd::Draw,
    }
}

/// Relies on `Position::legal_moves`: every legal move of the position.
#[verifier::external_body]
pub(crate) fn legal_moves(pos: &shakmaty::Chess) -> (r: Vec<shakmaty::Move>)
    ensures
        r@ == legal_moves_of(*pos),
{
    pos.legal_moves().into_iter().collect()
}

/// Relies on `San::from_move` and its `Display`: the move written in standard
/// algebraic notation.
#[verifier::external_body]
pub(crate) fn san_text(pos: &shakmaty::Chess, m: &shakmaty::Move) -> (r: String)
    ensures
        r@ == san_name_of(*pos, *m),
{
    shakmaty::san::San::from_move(pos, m).to_string()
}

/// Relies on `Epd::from_position` and its `Display`: the position written as
/// EPD, placement first.
#[verifier::external_body]
pub(crate) fn epd_text(pos: &shakmaty::Chess) -> (r: String)
    ensures
        r@ == epd_of(*pos),
{
    shakmaty::fen::Epd::from_position(pos.clone(), shakmaty::EnPassantMode::Legal).to_string()
}

} // verus!
