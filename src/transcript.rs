//! Move transcripts in the conventional numbered-pair layout.

use vstd::prelude::*;
use vstd::string::*;

verus! {

/// The character of a decimal digit.
pub open spec fn digit_char(d: nat) -> char {
    if d == 0 { '0' }
    else if d == 1 { '1' }
    else if d == 2 { '2' }
    else if d == 3 { '3' }
    else if d == 4 { '4' }
    else if d == 5 { '5' }
    else if d == 6 { '6' }
    else if d == 7 { '7' }
    else if d == 8 { '8' }
    else { '9' }
}

/// Decimal notation of a natural number, without leading zeros.
pub open spec fn decimal(n: nat) -> Seq<char>
    decreases n,
{
    if n < 10 {
        seq![digit_char(n)]
    } else {
        decimal(n / 10).push(digit_char(n % 10))
    }
}

/// What the move at ply index `i` adds to the transcript: a separating space
/// unless it is the first ply, the pair number before a white move, then the
/// move itself.
pub open spec fn ply_text(i: nat, mv: Seq<char>) -> Seq<char> {
    let sep: Seq<char> = if i == 0 { seq![] } else { seq![' '] };
    let number: Seq<char> = if i % 2 == 0 { decimal(i / 2 + 1) + seq!['.', ' '] } else { seq![] };
    sep + number + mv
}

/// The transcript of a sequence of moves: `1. e4 e5 2. Nf3`.
pub open spec fn transcript(moves: Seq<Seq<char>>) -> Seq<char>
    decreases moves.len(),
{
    if moves.len() == 0 {
        seq![]
    } else {
        transcript(moves.drop_last()) + ply_text((moves.len() - 1) as nat, moves.last())
    }
}

fn digit_str(d: usize) -> (r: &'static str)
    requires
        d < 10,
    ensures
        r@ == seq![digit_char(d as nat)],
{
    proof {
        reveal_strlit("0");
        reveal_strlit("1");
        reveal_strlit("2");
        reveal_strlit("3");
        reveal_strlit("4");
        reveal_strlit("5");
        reveal_strlit("6");
        reveal_strlit("7");
        reveal_strlit("8");
        reveal_strlit("9");
    }
    let r = if d == 0 { "0" }
    else if d == 1 { "1" }
    else if d == 2 { "2" }
    else if d == 3 { "3" }
    else if d == 4 { "4" }
    else if d == 5 { "5" }
    else if d == 6 { "6" }
    else if d == 7 { "7" }
    else if d == 8 { "8" }
    else { "9" };
    assert(r@ =~= seq![digit_char(d as nat)]);
    r
}

/// Writes `n` in decimal.
pub fn decimal_string(n: usize) -> (r: String)
    ensures
        r@ == decimal(n as nat),
    decreases n,
{
    if n < 10 {
        String::from_str(digit_str(n))
    } else {
        let mut s = decimal_string(n / 10);
        s.append(digit_str(n % 10));
        s
    }
}

/// Formats moves as a numbered transcript: the white move of pair `n` is
/// written `n. <move>`, the black move follows after a space.
pub fn format_pgn(moves: &Vec<String>) -> (r: String)
    ensures
        r@ == transcript(moves@.map_values(|m: String| m@)),
{
    let ghost views = moves@.map_values(|m: String| m@);
    let mut pgn = String::new();
    let mut i: usize = 0;
    while i < moves.len()
        invariant
            i <= moves.len(),
            views == moves@.map_values(|m: String| m@),
            pgn@ == transcript(views.take(i as int)),
        decreases moves.len() - i,
    {
        proof {
            reveal_strlit(" ");
            reveal_strlit(". ");
            assert(views.take(i + 1).drop_last() =~= views.take(i as int));
        }
        if i > 0 {
            pgn.append(" ");
        }
        if i % 2 == 0 {
            let number = decimal_string(i / 2 + 1);
            pgn.append(number.as_str());
            pgn.append(". ");
        }
        pgn.append(moves[i].as_str());
        proof {
            let sep: Seq<char> = if i == 0 { seq![] } else { seq![' '] };
            let number: Seq<char> = if i % 2 == 0 { decimal((i / 2 + 1) as nat) + seq!['.', ' '] } else { seq![] };
            assert(pgn@ =~= transcript(views.take(i as int)) + (sep + number + views[i as int]));
        }
        i = i + 1;
    }
    assert(views.take(moves.len() as int) =~= views);
    pgn
}

} // verus!
