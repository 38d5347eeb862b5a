//! Turn-based chess sessions, one per channel.
//!
//! A session holds the current position, who moved last and the moves so
//! far. A move attempt is parsed, checked against the turn order, handed to
//! the rules engine, and then either committed, or ends the game and resets
//! the session, or leaves the session as it was.

use vstd::prelude::*;
use vstd::string::*;
use crate::board::{board_url_text, fen_url, join, joined, legal_move_names, legal_names_of};
use crate::rules::{
    end_of, epd_of, game_end, move_of, parse_san, play_move, played_of, san_of, san_parses, san_to_move, starting_position,
    GameEnd,
};
use crate::text::opt_text;
use crate::transcript::{format_pgn, transcript};

verus! {

/// What came of one move attempt.
#[derive(Clone, Copy, Debug, PartialEq, Eq, Structural)]
pub enum MoveKind {
    /// The move was committed and the game goes on.
    Accepted,
    /// The move ended the game; the session starts over.
    GameOver,
    /// The actor made the last move and must wait for someone else.
    OutOfTurn,
    /// The move is not legal in the current position.
    Illegal,
    /// The text is not a move in algebraic notation.
    Unparsable,
}

/// The rules engine's answer to a move attempt.
pub enum Verdict {
    /// The text does not parse as a move.
    Unparsable,
    /// The move parses but cannot be played in the position.
    Illegal,
    /// The move was played: the position after it, and how the game stands.
    Played(shakmaty::Chess, GameEnd),
}

/// What a caller shows after a move attempt.
pub struct ChessOutput {
    pub kind: MoveKind,
    /// Empty after an ordinary move; the result, or what went wrong, otherwise.
    pub status: String,
    /// Link to the image of the board to show.
    pub url: String,
    /// The moves of the game in numbered pairs.
    pub pgn: String,
}

/// The state of one session.
pub ghost struct Session {
    pub pos: shakmaty::Chess,
    pub last_mover: Option<Seq<char>>,
    pub last_mover_name: Option<Seq<char>>,
    pub history: Seq<Seq<char>>,
}

impl Session {
    /// Someone has moved exactly when there are moves, and a mover always
    /// comes with a name.
    pub open spec fn wf(self) -> bool {
        &&& (self.last_mover is None <==> self.history.len() == 0)
        &&& (self.last_mover is None <==> self.last_mover_name is None)
    }
}

/// A session that has just begun.
pub open spec fn fresh(start: shakmaty::Chess) -> Session {
    Session { pos: start, last_mover: None, last_mover_name: None, history: seq![] }
}

/// What a move attempt by `actor` comes to, given the engine's verdict. A
/// text that does not parse is reported first; then the turn order; then
/// legality.
pub open spec fn step_kind(s: Session, actor: Seq<char>, v: Verdict) -> MoveKind {
    match v {
        Verdict::Unparsable => MoveKind::Unparsable,
        Verdict::Illegal => if s.last_mover == Some(actor) { MoveKind::OutOfTurn } else { MoveKind::Illegal },
        Verdict::Played(_, end) => if s.last_mover == Some(actor) {
            MoveKind::OutOfTurn
        } else if end == GameEnd::Ongoing {
            MoveKind::Accepted
        } else {
            MoveKind::GameOver
        },
    }
}

/// The session after the attempt: a committed move, a reset after the last
/// move of a game, or no change.
pub open spec fn step(s: Session, start: shakmaty::Chess, actor: Seq<char>, name: Seq<char>, text: Seq<char>, v: Verdict) -> Session {
    match step_kind(s, actor, v) {
        MoveKind::Accepted => match v {
            Verdict::Played(next, _) => Session {
                pos: next,
                last_mover: Some(actor),
                last_mover_name: Some(name),
                history: s.history.push(text),
            },
            _ => s,
        },
        MoveKind::GameOver => fresh(start),
        _ => s,
    }
}

/// The moves that the reply to an attempt lists: with the attempted move when
/// it was played.
pub open spec fn shown_history(s: Session, kind: MoveKind, text: Seq<char>) -> Seq<Seq<char>> {
    if kind == MoveKind::Accepted || kind == MoveKind::GameOver {
        s.history.push(text)
    } else {
        s.history
    }
}

/// The announcement of a finished game.
pub open spec fn result_text(end: GameEnd, pgn: Seq<char>) -> Seq<char> {
    match end {
        GameEnd::WhiteWins => "White wins! "@ + pgn + " 1-0"@,
        GameEnd::BlackWins => "Black wins! "@ + pgn + " 0-1"@,
        _ => "Draw! "@ + pgn + " 1/2-1/2"@,
    }
}

/// The reply to someone who moved last and tries again.
pub open spec fn out_of_turn_text(last_name: Seq<char>) -> Seq<char> {
    "Someone else has to make a move first!!!!! The last player to make a move is "@ + last_name + "."@
}

/// The reply to a move that cannot be played, with the moves that can.
pub open spec fn illegal_text(legal: Seq<Seq<char>>) -> Seq<char> {
    "Illegal move!!!!! The valid moves are "@ + joined(legal, ", "@) + "."@
}

/// The position whose board the reply to an attempt shows: the one after the
/// move when it was played, the current one otherwise.
pub open spec fn shown_position(s: Session, kind: MoveKind, v: Verdict) -> shakmaty::Chess {
    match v {
        Verdict::Played(next, _) => if kind == MoveKind::Accepted || kind == MoveKind::GameOver { next } else { s.pos },
        _ => s.pos,
    }
}

/// The reply to an attempt, given the session before it and the verdict.
pub open spec fn output_fits(r: ChessOutput, s: Session, actor: Seq<char>, text: Seq<char>, v: Verdict) -> bool {
    let kind = step_kind(s, actor, v);
    let pgn = transcript(shown_history(s, kind, text));
    &&& r.kind == kind
    &&& r.pgn@ == pgn
    &&& match kind {
        MoveKind::Accepted => r.status@ == Seq::<char>::empty(),
        MoveKind::GameOver => match v {
            Verdict::Played(_, end) => r.status@ == result_text(end, pgn),
            _ => false,
        },
        MoveKind::OutOfTurn => r.status@ == out_of_turn_text(s.last_mover_name.unwrap()),
        _ => r.status@ == illegal_text(legal_names_of(s.pos)),
    }
    &&& r.url@ == board_url_text(epd_of(shown_position(s, kind, v)))
}

/// The rules engine's verdict on a text in a position: the text parses, names
/// one legal move, and the move is played; how the game then stands.
pub open spec fn verdict_of(pos: shakmaty::Chess, text: Seq<char>) -> Verdict {
    if !san_parses(text) {
        Verdict::Unparsable
    } else {
        match move_of(san_of(text), pos) {
            None => Verdict::Illegal,
            Some(m) => match played_of(pos, m) {
                None => Verdict::Illegal,
                Some(next) => Verdict::Played(next, end_of(next)),
            },
        }
    }
}

/// One move attempt, for reasoning about runs of them.
pub ghost struct Attempt {
    pub actor: Seq<char>,
    pub name: Seq<char>,
    pub text: Seq<char>,
}

/// The engine played the move and the game goes on.
pub open spec fn keeps_going(v: Verdict) -> bool {
    match v {
        Verdict::Played(_, end) => end == GameEnd::Ongoing,
        _ => false,
    }
}

/// The session after a run of attempts, one after another, each judged by
/// the rules engine in the position that the ones before it left.
pub open spec fn run(s: Session, start: shakmaty::Chess, attempts: Seq<Attempt>) -> Session
    decreases attempts.len(),
{
    if attempts.len() == 0 {
        s
    } else {
        let before = run(s, start, attempts.drop_last());
        let a = attempts.last();
        step(before, start, a.actor, a.name, a.text, verdict_of(before.pos, a.text))
    }
}

/// A fresh session is well formed, and every attempt keeps a session well
/// formed: the last mover is absent exactly when there are no moves.
pub proof fn lemma_step_keeps_wf(s: Session, start: shakmaty::Chess, actor: Seq<char>, name: Seq<char>, text: Seq<char>, v: Verdict)
    requires
        s.wf(),
    ensures
        fresh(start).wf(),
        step(s, start, actor, name, text, v).wf(),
        step(s, start, actor, name, text, v).last_mover is None <==> step(s, start, actor, name, text, v).history.len() == 0,
{
}

/// When each move is played by someone other than the one who moved before,
/// and each is legal and does not end the game in the position that the
/// moves before it left, every move is committed, in order, and the last one
/// is the last mover's.
pub proof fn lemma_alternating_moves_committed(s: Session, start: shakmaty::Chess, attempts: Seq<Attempt>)
    requires
        s.wf(),
        forall|i: int| 0 <= i < attempts.len() ==>
            keeps_going(verdict_of(#[trigger] run(s, start, attempts.take(i)).pos, attempts[i].text)),
        forall|i: int| 0 < i < attempts.len() ==> #[trigger] attempts[i].actor != attempts[i - 1].actor,
        attempts.len() > 0 ==> s.last_mover != Some(attempts[0].actor),
    ensures
        run(s, start, attempts).history == s.history + attempts.map_values(|a: Attempt| a.text),
        attempts.len() > 0 ==> run(s, start, attempts).last_mover == Some(attempts.last().actor),
    decreases attempts.len(),
{
    if attempts.len() > 0 {
        let prefix = attempts.drop_last();
        let n = attempts.len() - 1;
        assert forall|i: int| 0 <= i < prefix.len() implies
            keeps_going(verdict_of(#[trigger] run(s, start, prefix.take(i)).pos, prefix[i].text)) by {
            assert(prefix.take(i) =~= attempts.take(i));
            assert(keeps_going(verdict_of(run(s, start, attempts.take(i)).pos, attempts[i].text)));
        }
        assert forall|i: int| 0 < i < prefix.len() implies #[trigger] prefix[i].actor != prefix[i - 1].actor by {
            assert(attempts[i].actor != attempts[i - 1].actor);
        }
        lemma_alternating_moves_committed(s, start, prefix);
        assert(attempts.take(n) =~= prefix);
        assert(keeps_going(verdict_of(run(s, start, attempts.take(n)).pos, attempts[n].text)));
        if n > 0 {
            assert(prefix.last() == attempts[n - 1]);
            assert(attempts[n].actor != attempts[n - 1].actor);
        }
        assert(prefix.map_values(|a: Attempt| a.text).push(attempts[n].text) =~= attempts.map_values(|a: Attempt| a.text));
    } else {
        assert(s.history + attempts.map_values(|a: Attempt| a.text) =~= s.history);
    }
}

/// An illegal move changes nothing, so trying the same move again is judged
/// the same way against the same session and gets the same reply.
pub proof fn lemma_illegal_move_repeats(
    s: Session,
    start: shakmaty::Chess,
    actor: Seq<char>,
    name: Seq<char>,
    text: Seq<char>,
    first: ChessOutput,
    second: ChessOutput,
)
    requires
        step_kind(s, actor, verdict_of(s.pos, text)) == MoveKind::Illegal,
    ensures
        step(s, start, actor, name, text, verdict_of(s.pos, text)) == s,
        ({
            let s2 = step(s, start, actor, name, text, verdict_of(s.pos, text));
            &&& step_kind(s2, actor, verdict_of(s2.pos, text)) == MoveKind::Illegal
            &&& step(s2, start, actor, name, text, verdict_of(s2.pos, text)).history.len() == s.history.len()
            &&& output_fits(first, s, actor, text, verdict_of(s.pos, text))
                && output_fits(second, s2, actor, text, verdict_of(s2.pos, text))
                ==> first.kind == second.kind && first.status@ == second.status@ && first.url@ == second.url@
                    && first.pgn@ == second.pgn@
        }),
{
}

/// Right after a committed move that keeps the game going, the same actor's
/// next attempt at a move that parses, legal or not, is turned away and
/// changes nothing.
pub proof fn lemma_turn_enforced(
    s: Session,
    start: shakmaty::Chess,
    actor: Seq<char>,
    name: Seq<char>,
    text: Seq<char>,
    name2: Seq<char>,
    text2: Seq<char>,
)
    requires
        step_kind(s, actor, verdict_of(s.pos, text)) == MoveKind::Accepted,
        san_parses(text2),
    ensures
        ({
            let s1 = step(s, start, actor, name, text, verdict_of(s.pos, text));
            &&& step_kind(s1, actor, verdict_of(s1.pos, text2)) == MoveKind::OutOfTurn
            &&& step(s1, start, actor, name2, text2, verdict_of(s1.pos, text2)) == s1
        }),
{
}

/// A move that ends the game leaves the session exactly as a new one, so the
/// next attempt is treated as in a new session.
pub proof fn lemma_game_over_resets(
    s: Session,
    start: shakmaty::Chess,
    actor: Seq<char>,
    name: Seq<char>,
    text: Seq<char>,
    actor2: Seq<char>,
    name2: Seq<char>,
    text2: Seq<char>,
)
    requires
        step_kind(s, actor, verdict_of(s.pos, text)) == MoveKind::GameOver,
    ensures
        ({
            let s1 = step(s, start, actor, name, text, verdict_of(s.pos, text));
            &&& s1 == fresh(start)
            &&& step(s1, start, actor2, name2, text2, verdict_of(s1.pos, text2))
                == step(fresh(start), start, actor2, name2, text2, verdict_of(start, text2))
            &&& step_kind(s1, actor2, verdict_of(s1.pos, text2)) == step_kind(fresh(start), actor2, verdict_of(start, text2))
        }),
{
}

/// One session: the position, the last mover and the moves so far.
pub struct ChessState {
    pos: shakmaty::Chess,
    user_id: Option<String>,
    user_name: Option<String>,
    moves: Vec<String>,
}

impl View for ChessState {
    type V = Session;

    closed spec fn view(&self) -> Session {
        Session {
            pos: self.pos,
            last_mover: opt_text(self.user_id),
            last_mover_name: opt_text(self.user_name),
            history: self.moves@.map_values(|m: String| m@),
        }
    }
}

fn copy_text(s: &str) -> (r: String)
    ensures
        r@ == s@,
{
    String::from_str(s)
}

fn copy_moves(moves: &Vec<String>) -> (r: Vec<String>)
    ensures
        r@.map_values(|m: String| m@) == moves@.map_values(|m: String| m@),
{
    let mut out: Vec<String> = Vec::new();
    let mut i: usize = 0;
    while i < moves.len()
        invariant
            i <= moves.len(),
            out@.len() == i,
            forall|j: int| 0 <= j < i ==> out@[j]@ == moves@[j]@,
        decreases moves.len() - i,
    {
        out.push(moves[i].clone());
        i = i + 1;
    }
    assert(out@.map_values(|m: String| m@) =~= moves@.map_values(|m: String| m@));
    out
}

impl ChessState {
    #[verifier::type_invariant]
    closed spec fn inv(&self) -> bool {
        self@.wf()
    }

    /// A session at the standard starting position.
    pub fn new() -> (r: ChessState)
        ensures
            r@.last_mover is None,
            r@.last_mover_name is None,
            r@.history.len() == 0,
            epd_of(r@.pos) == "rnbqkbnr/pppppppp/8/8/8/8/PPPPPPPP/RNBQKBNR w KQkq -"@,
    {
        ChessState::fresh(&starting_position())
    }

    /// A session at the given starting position.
    pub fn fresh(start: &shakmaty::Chess) -> (r: ChessState)
        ensures
            r@ == fresh(*start),
    {
        let r = ChessState { pos: start.clone(), user_id: None, user_name: None, moves: Vec::new() };
        assert(r@.history =~= Seq::<Seq<char>>::empty());
        r
    }

    fn last_mover_is(&self, actor: &String) -> (r: bool)
        ensures
            r == (self@.last_mover == Some(actor@)),
    {
        match &self.user_id {
            Some(prev) => prev.eq(actor),
            None => false,
        }
    }

    /// The reply to a move that cannot be played here: the legal moves, the
    /// board as it is and the moves so far.
    pub fn illegal_output(&self, kind: MoveKind) -> (r: ChessOutput)
        ensures
            r.kind == kind,
            r.pgn@ == transcript(self@.history),
            r.status@ == illegal_text(legal_names_of(self@.pos)),
            r.url@ == board_url_text(epd_of(self@.pos)),
    {
        let names = legal_move_names(&self.pos);
        let mut status = String::from_str("Illegal move!!!!! The valid moves are ");
        let listed = join(&names, ", ");
        status.append(listed.as_str());
        status.append(".");
        ChessOutput { kind, status, url: fen_url(&self.pos), pgn: format_pgn(&self.moves) }
    }

    fn out_of_turn_output(&self) -> (r: ChessOutput)
        requires
            self@.last_mover is Some,
        ensures
            r.kind == MoveKind::OutOfTurn,
            r.pgn@ == transcript(self@.history),
            r.status@ == out_of_turn_text(self@.last_mover_name.unwrap()),
            r.url@ == board_url_text(epd_of(self@.pos)),
    {
        proof {
            use_type_invariant(self);
        }
        let mut status = String::from_str("Someone else has to make a move first!!!!! The last player to make a move is ");
        match &self.user_name {
            Some(name) => status.append(name.as_str()),
            None => {},
        }
        status.append(".");
        ChessOutput { kind: MoveKind::OutOfTurn, status, url: fen_url(&self.pos), pgn: format_pgn(&self.moves) }
    }

    /// Applies the engine's verdict on `text`, played by `actor` (shown as
    /// `name`): commits a move that keeps the game going, resets the session
    /// to `start` after a move that ends it, and changes nothing otherwise.
    pub fn settle(&mut self, start: &shakmaty::Chess, actor: &str, name: &str, text: &str, verdict: Verdict) -> (r: ChessOutput)
        ensures
            old(self)@.wf(),
            final(self)@.wf(),
            final(self)@ == step(old(self)@, *start, actor@, name@, text@, verdict),
            output_fits(r, old(self)@, actor@, text@, verdict),
    {
        proof {
            use_type_invariant(&*self);
        }
        if matches!(verdict, Verdict::Unparsable) {
            return self.illegal_output(MoveKind::Unparsable);
        }
        let actor = copy_text(actor);
        if self.last_mover_is(&actor) {
            return self.out_of_turn_output();
        }
        match verdict {
            Verdict::Played(next, end) => {
                let mut moves = copy_moves(&self.moves);
                moves.push(copy_text(text));
                assert(moves@.map_values(|m: String| m@) =~= old(self)@.history.push(text@));
                let pgn = format_pgn(&moves);
                let url = fen_url(&next);
                match end {
                    GameEnd::Ongoing => {
                        *self = ChessState { pos: next, user_id: Some(actor), user_name: Some(copy_text(name)), moves };
                        ChessOutput { kind: MoveKind::Accepted, status: String::new(), url, pgn }
                    },
                    _ => {
                        let status = result_status(end, &pgn);
                        *self = ChessState::fresh(start);
                        ChessOutput { kind: MoveKind::GameOver, status, url, pgn }
                    },
                }
            },
            _ => self.illegal_output(MoveKind::Illegal),
        }
    }

    /// Asks the rules engine about `text` and applies its verdict, as
    /// `settle` does.
    pub fn attempt(&mut self, start: &shakmaty::Chess, actor: &str, name: &str, text: &str) -> (r: ChessOutput)
        ensures
            old(self)@.wf(),
            final(self)@.wf(),
            final(self)@ == step(old(self)@, *start, actor@, name@, text@, verdict_of(old(self)@.pos, text@)),
            output_fits(r, old(self)@, actor@, text@, verdict_of(old(self)@.pos, text@)),
    {
        proof {
            use_type_invariant(&*self);
        }
        let verdict = self.judge(text);
        self.settle(start, actor, name, text, verdict)
    }

    /// The rules engine's verdict on `text` in the current position.
    pub fn judge(&self, text: &str) -> (r: Verdict)
        ensures
            r == verdict_of(self@.pos, text@),
    {
        match parse_san(text) {
            None => Verdict::Unparsable,
            Some(san) => match san_to_move(&san, &self.pos) {
                None => Verdict::Illegal,
                Some(m) => match play_move(&self.pos, &m) {
                    None => Verdict::Illegal,
                    Some(next) => {
                        let end = game_end(&next);
                        Verdict::Played(next, end)
                    },
                },
            },
        }
    }
}

fn result_status(end: GameEnd, pgn: &String) -> (r: String)
    ensures
        r@ == result_text(end, pgn@),
{
    let (head, tail) = match end {
        GameEnd::WhiteWins => ("White wins! ", " 1-0"),
        GameEnd::BlackWins => ("Black wins! ", " 0-1"),
        _ => ("Draw! ", " 1/2-1/2"),
    };
    let mut s = String::from_str(head);
    s.append(pgn.as_str());
    s.append(tail);
    s
}

} // verus!
