//! The session store: one chess session per channel, created on first use.

use vstd::prelude::*;
use vstd::string::*;
use crate::board::{board_url_text, legal_names_of};
use crate::chess::{fresh, illegal_text, output_fits, step, verdict_of, ChessOutput, ChessState, MoveKind, Session};
use crate::rules::{epd_of, starting_position};
use crate::transcript::transcript;

verus! {

/// Every channel's chess session. Sessions are created on first use at the
/// standard starting position and live as long as the store.
pub struct ChessGame {
    start: shakmaty::Chess,
    entries: Vec<(String, ChessState)>,
}

impl ChessGame {
    /// The position that every session starts from.
    pub closed spec fn start(&self) -> shakmaty::Chess {
        self.start
    }

    spec fn holds_at(&self, key: Seq<char>, i: int) -> bool {
        &&& 0 <= i < self.entries@.len()
        &&& self.entries@[i].0@ == key
        &&& forall|j: int| 0 <= j < i ==> self.entries@[j].0@ != key
    }

    /// The session of a channel; a channel never used is at the start.
    pub closed spec fn session(&self, key: Seq<char>) -> Session {
        if exists|i: int| self.holds_at(key, i) {
            self.entries@[choose|i: int| self.holds_at(key, i)].1@
        } else {
            fresh(self.start)
        }
    }

    proof fn lemma_holds_at(&self, key: Seq<char>, i: int)
        requires
            self.holds_at(key, i),
        ensures
            self.session(key) == self.entries@[i].1@,
    {
        let j = choose|j: int| self.holds_at(key, j);
        assert(self.holds_at(key, j));
        if j < i {
            assert(self.entries@[j].0@ != key);
        } else if i < j {
            assert(self.entries@[i].0@ != key);
        }
    }

    /// A store in which every channel is at the standard starting position.
    pub fn new() -> (r: ChessGame)
        ensures
            epd_of(r.start()) == "rnbqkbnr/pppppppp/8/8/8/8/PPPPPPPP/RNBQKBNR w KQkq -"@,
            forall|k: Seq<char>| #[trigger] r.session(k) == fresh(r.start()),
    {
        ChessGame { start: starting_position(), entries: Vec::new() }
    }

    /// The index of the channel's entry, made if there was none.
    fn entry_index(&mut self, key: &str) -> (i: usize)
        ensures
            final(self).start == old(self).start,
            final(self).holds_at(key@, i as int),
            forall|k: Seq<char>| #[trigger] final(self).session(k) == old(self).session(k),
    {
        let wanted = String::from_str(key);
        let mut i: usize = 0;
        while i < self.entries.len()
            invariant
                i <= self.entries@.len(),
                wanted@ == key@,
                *self == *old(self),
                forall|j: int| 0 <= j < i ==> self.entries@[j].0@ != key@,
            decreases self.entries.len() - i,
        {
            if self.entries[i].0.eq(&wanted) {
                proof {
                    self.lemma_holds_at(key@, i as int);
                }
                return i;
            }
            i = i + 1;
        }
        let ghost before = *self;
        self.entries.push((wanted, ChessState::fresh(&self.start)));
        proof {
            assert(self.entries@[i as int].0@ == key@);
            assert forall|j: int| 0 <= j < i implies self.entries@[j] == before.entries@[j] by {}
            assert forall|k: Seq<char>| #[trigger] self.session(k) == before.session(k) by {
                if k == key@ {
                    self.lemma_holds_at(k, i as int);
                    assert(!exists|j: int| before.holds_at(k, j));
                } else if exists|j: int| before.holds_at(k, j) {
                    let j = choose|j: int| before.holds_at(k, j);
                    before.lemma_holds_at(k, j);
                    assert(self.holds_at(k, j));
                    self.lemma_holds_at(k, j);
                } else {
                    assert(!exists|j: int| self.holds_at(k, j)) by {
                        if exists|j: int| self.holds_at(k, j) {
                            let j = choose|j: int| self.holds_at(k, j);
                            assert(before.holds_at(k, j));
                        }
                    }
                }
            }
        }
        i
    }

    /// One move attempt on a channel's session: the whole check, engine call
    /// and commit happen under the one exclusive borrow of the store. Other
    /// channels are not touched.
    pub fn chess(&mut self, key: &str, actor: &str, name: &str, text: &str) -> (r: ChessOutput)
        ensures
            final(self).start() == old(self).start(),
            final(self).session(key@).wf(),
            forall|k: Seq<char>| k != key@ ==> #[trigger] final(self).session(k) == old(self).session(k),
            final(self).session(key@) == step(
                old(self).session(key@),
                old(self).start(),
                actor@,
                name@,
                text@,
                verdict_of(old(self).session(key@).pos, text@),
            ),
            output_fits(r, old(self).session(key@), actor@, text@, verdict_of(old(self).session(key@).pos, text@)),
    {
        let i = self.entry_index(key);
        proof {
            self.lemma_holds_at(key@, i as int);
        }
        let ghost mid = *self;
        let start = self.start.clone();
        let r = self.entries[i].1.attempt(&start, actor, name, text);
        proof {
            assert(self.entries@.len() == mid.entries@.len());
            assert forall|j: int| 0 <= j < self.entries@.len() implies #[trigger] self.entries@[j].0 == mid.entries@[j].0
                && (j != i ==> self.entries@[j] == mid.entries@[j]) by {}
            assert(self.holds_at(key@, i as int));
            self.lemma_holds_at(key@, i as int);
            assert forall|k: Seq<char>| k != key@ implies #[trigger] self.session(k) == mid.session(k) by {
                if exists|j: int| mid.holds_at(k, j) {
                    let j = choose|j: int| mid.holds_at(k, j);
                    mid.lemma_holds_at(k, j);
                    assert(self.holds_at(k, j));
                    self.lemma_holds_at(k, j);
                } else {
                    assert(!exists|j: int| self.holds_at(k, j)) by {
                        if exists|j: int| self.holds_at(k, j) {
                            let j = choose|j: int| self.holds_at(k, j);
                            assert forall|jj: int| 0 <= jj < j implies mid.entries@[jj].0@ != k by {
                                assert(self.entries@[jj].0 == mid.entries@[jj].0);
                            }
                            assert(self.entries@[j].0 == mid.entries@[j].0);
                            assert(mid.holds_at(k, j));
                        }
                    }
                }
            }
        }
        r
    }

    /// The reply to a move that cannot be played on a channel: its legal
    /// moves, its board and its moves so far.
    pub fn chess_illegal_move(&mut self, key: &str) -> (r: ChessOutput)
        ensures
            final(self).start() == old(self).start(),
            forall|k: Seq<char>| #[trigger] final(self).session(k) == old(self).session(k),
            r.kind == MoveKind::Illegal,
            r.pgn@ == transcript(old(self).session(key@).history),
            r.status@ == illegal_text(legal_names_of(old(self).session(key@).pos)),
            r.url@ == board_url_text(epd_of(old(self).session(key@).pos)),
    {
        let i = self.entry_index(key);
        proof {
            self.lemma_holds_at(key@, i as int);
        }
        self.entries[i].1.illegal_output(MoveKind::Illegal)
    }
}

} // verus!
