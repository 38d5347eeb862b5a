//! Text that the session logic builds around the rules engine's answers:
//! board image links and lists of moves.

use vstd::prelude::*;
use vstd::string::*;
use crate::rules::{epd_of, epd_text, legal_moves, legal_moves_of, san_name_of, san_text};

verus! {

/// The placement field of an EPD record: everything before the first space.
pub open spec fn placement(epd: Seq<char>) -> Seq<char>
    decreases epd.len(),
{
    if epd.len() == 0 {
        seq![]
    } else if epd[0] == ' ' {
        seq![]
    } else {
        seq![epd[0]] + placement(epd.drop_first())
    }
}

/// The link to the rendered image of the board that an EPD record describes.
pub open spec fn board_url_text(epd: Seq<char>) -> Seq<char> {
    "https://chess.dllu.net/"@ + placement(epd) + ".png"@
}

/// Items joined with a separator between each two.
pub open spec fn joined(items: Seq<Seq<char>>, sep: Seq<char>) -> Seq<char>
    decreases items.len(),
{
    if items.len() == 0 {
        seq![]
    } else if items.len() == 1 {
        items[0]
    } else {
        joined(items.drop_last(), sep) + sep + items.last()
    }
}

proof fn lemma_placement_prefix(epd: Seq<char>, i: int)
    requires
        0 <= i <= epd.len(),
        forall|j: int| 0 <= j < i ==> epd[j] != ' ',
    ensures
        placement(epd) == epd.subrange(0, i) + placement(epd.subrange(i, epd.len() as int)),
    decreases i,
{
    if i > 0 {
        lemma_placement_prefix(epd.drop_first(), i - 1);
        assert(epd.drop_first().subrange(0, i - 1) =~= epd.subrange(1, i));
        assert(epd.drop_first().subrange(i - 1, epd.len() - 1) =~= epd.subrange(i, epd.len() as int));
        assert(seq![epd[0]] + epd.subrange(1, i) =~= epd.subrange(0, i));
    } else {
        assert(epd.subrange(0, 0) =~= Seq::<char>::empty());
        assert(epd.subrange(0, epd.len() as int) =~= epd);
    }
}

/// The link to the board image for an EPD record.
pub fn board_url(epd: &str) -> (r: String)
    ensures
        r@ == board_url_text(epd@),
{
    let n = epd.unicode_len();
    let mut i: usize = 0;
    while i < n && epd.get_char(i) != ' '
        invariant
            n == epd@.len(),
            i <= n,
            forall|j: int| 0 <= j < i ==> epd@[j] != ' ',
        decreases n - i,
    {
        i = i + 1;
    }
    proof {
        lemma_placement_prefix(epd@, i as int);
        let rest = epd@.subrange(i as int, epd@.len() as int);
        if i < n {
            assert(rest[0] == ' ');
        } else {
            assert(rest.len() == 0);
        }
        assert(placement(rest) == Seq::<char>::empty());
        assert(placement(epd@) =~= epd@.subrange(0, i as int));
    }
    let mut url = String::from_str("https://chess.dllu.net/");
    url.append(epd.substring_char(0, i));
    url.append(".png");
    url
}

/// The link to the image of a position's board.
pub fn fen_url(pos: &shakmaty::Chess) -> (r: String)
    ensures
        r@ == board_url_text(epd_of(*pos)),
{
    let epd = epd_text(pos);
    board_url(epd.as_str())
}

/// Joins items with a separator.
pub fn join(items: &Vec<String>, sep: &str) -> (r: String)
    ensures
        r@ == joined(items@.map_values(|s: String| s@), sep@),
{
    let ghost views = items@.map_values(|s: String| s@);
    let mut out = String::new();
    let mut i: usize = 0;
    while i < items.len()
        invariant
            i <= items.len(),
            views == items@.map_values(|s: String| s@),
            out@ == joined(views.take(i as int), sep@),
        decreases items.len() - i,
    {
        proof {
            assert(views.take(i + 1).drop_last() =~= views.take(i as int));
        }
        if i > 0 {
            out.append(sep);
        }
        out.append(items[i].as_str());
        proof {
            if i == 0 {
                assert(out@ =~= joined(views.take(1), sep@));
            }
        }
        i = i + 1;
    }
    assert(views.take(items.len() as int) =~= views);
    out
}

/// The legal moves of a position in standard algebraic notation, in the
/// engine's order.
pub open spec fn legal_names_of(pos: shakmaty::Chess) -> Seq<Seq<char>> {
    legal_moves_of(pos).map_values(|m: shakmaty::Move| san_name_of(pos, m))
}

/// Every legal move of a position in standard algebraic notation, in the
/// engine's order.
pub fn legal_move_names(pos: &shakmaty::Chess) -> (r: Vec<String>)
    ensures
        r@.map_values(|s: String| s@) == legal_names_of(*pos),
{
    let moves = legal_moves(pos);
    let mut names: Vec<String> = Vec::new();
    let mut i: usize = 0;
    while i < moves.len()
        invariant
            i <= moves.len(),
            moves@ == legal_moves_of(*pos),
            names@.len() == i,
            forall|j: int| 0 <= j < i ==> names@[j]@ == san_name_of(*pos, moves@[j]),
        decreases moves.len() - i,
    {
        names.push(san_text(pos, &moves[i]));
        i = i + 1;
    }
    assert(names@.map_values(|s: String| s@) =~= legal_names_of(*pos));
    names
}

} // verus!
