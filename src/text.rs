//! Message text: long replies cut into pieces that a chat message can hold,
//! and the name shown for a message's author.

use vstd::prelude::*;
use vstd::string::*;

verus! {

/// The most bytes of UTF-8 that one chat message may hold.
pub const MAX_LENGTH: usize = 2000;

/// Whether a character is white space: Unicode's White_Space property.
pub open spec fn unicode_space(c: char) -> bool {
    let u = c as u32;
    ||| 0x9 <= u <= 0xd
    ||| u == 0x20
    ||| u == 0x85
    ||| u == 0xa0
    ||| u == 0x1680
    ||| 0x2000 <= u <= 0x200a
    ||| u == 0x2028
    ||| u == 0x2029
    ||| u == 0x202f
    ||| u == 0x205f
    ||| u == 0x3000
}

/// Whether a character is white space, as `char::is_whitespace` decides.
pub fn is_whitespace(c: char) -> (r: bool)
    ensures
        r == unicode_space(c),
{
    let u = c as u32;
    (0x9 <= u && u <= 0xd) || u == 0x20 || u == 0x85 || u == 0xa0 || u == 0x1680 || (0x2000 <= u && u <= 0x200a)
        || u == 0x2028 || u == 0x2029 || u == 0x202f || u == 0x205f || u == 0x3000
}

/// The last index before `k` at which a blank line (`\n\n`) starts, or -1.
pub open spec fn rfind_blank_line(p: Seq<char>, k: int) -> int
    decreases k,
{
    if k <= 0 {
        -1
    } else if k < p.len() && p[k - 1] == '\n' && p[k] == '\n' {
        k - 1
    } else {
        rfind_blank_line(p, k - 1)
    }
}

/// The last index before `k` that holds a newline, or -1.
pub open spec fn rfind_newline(p: Seq<char>, k: int) -> int
    decreases k,
{
    if k <= 0 {
        -1
    } else if p[k - 1] == '\n' {
        k - 1
    } else {
        rfind_newline(p, k - 1)
    }
}

/// The last index before `k` that holds white space, or -1.
pub open spec fn rfind_space(p: Seq<char>, k: int) -> int
    decreases k,
{
    if k <= 0 {
        -1
    } else if unicode_space(p[k - 1]) {
        k - 1
    } else {
        rfind_space(p, k - 1)
    }
}

/// How many bytes a character takes in UTF-8.
pub open spec fn utf8_len(c: char) -> nat {
    let u = c as u32;
    if u < 0x80 {
        1
    } else if u < 0x800 {
        2
    } else if u < 0x10000 {
        3
    } else {
        4
    }
}

/// How many bytes a text takes in UTF-8.
pub open spec fn byte_len(s: Seq<char>) -> nat
    decreases s.len(),
{
    if s.len() == 0 {
        0
    } else {
        utf8_len(s[0]) + byte_len(s.drop_first())
    }
}

/// How far the characters from `i` on fit, when `used` bytes are already
/// taken, in a message of `MAX_LENGTH` bytes.
pub open spec fn fit_end(s: Seq<char>, i: int, used: nat) -> int
    decreases s.len() - i,
{
    if 0 <= i < s.len() && used + utf8_len(s[i]) <= MAX_LENGTH {
        fit_end(s, i + 1, used + utf8_len(s[i]))
    } else {
        i
    }
}

/// Where the piece that starts at `start` ends: within the `MAX_LENGTH`
/// bytes that follow, just after the first newline of the last blank line,
/// else after the last newline, else after the last white space; the whole
/// window when it holds none, or reaches the end.
pub open spec fn cut_end(s: Seq<char>, start: int) -> int {
    let end = fit_end(s, start, 0);
    if end == s.len() {
        end
    } else {
        let piece = s.subrange(start, end);
        let a = rfind_blank_line(piece, piece.len() as int);
        let b = rfind_newline(piece, piece.len() as int);
        let c = rfind_space(piece, piece.len() as int);
        if a >= 0 {
            start + a + 1
        } else if b >= 0 {
            start + b + 1
        } else if c >= 0 {
            start + c + 1
        } else {
            end
        }
    }
}

proof fn lemma_rfind_bounds(p: Seq<char>, k: int)
    requires
        0 <= k <= p.len(),
    ensures
        -1 <= rfind_blank_line(p, k) < k,
        -1 <= rfind_newline(p, k) < k,
        -1 <= rfind_space(p, k) < k,
        rfind_blank_line(p, k) >= 0 ==> p[rfind_blank_line(p, k)] == '\n' && p[rfind_blank_line(p, k) + 1] == '\n',
        rfind_newline(p, k) >= 0 ==> p[rfind_newline(p, k)] == '\n',
    decreases k,
{
    if k > 0 {
        lemma_rfind_bounds(p, k - 1);
    }
}

proof fn lemma_fit_end(s: Seq<char>, i: int, used: nat)
    requires
        0 <= i <= s.len(),
        used <= MAX_LENGTH,
    ensures
        i <= fit_end(s, i, used) <= s.len(),
        fit_end(s, i, used) - i <= MAX_LENGTH - used,
        used + byte_len(s.subrange(i, fit_end(s, i, used))) <= MAX_LENGTH,
        i < s.len() && used + utf8_len(s[i]) <= MAX_LENGTH ==> fit_end(s, i, used) > i,
    decreases s.len() - i,
{
    if i < s.len() && used + utf8_len(s[i]) <= MAX_LENGTH {
        let next = used + utf8_len(s[i]);
        lemma_fit_end(s, i + 1, next);
        let e = fit_end(s, i, used);
        assert(s.subrange(i, e).drop_first() =~= s.subrange(i + 1, e));
    } else {
        assert(s.subrange(i, i).len() == 0);
    }
}

proof fn lemma_prefix_bytes(t: Seq<char>, k: int)
    requires
        0 <= k <= t.len(),
    ensures
        byte_len(t.take(k)) <= byte_len(t),
    decreases t.len(),
{
    if k > 0 {
        lemma_prefix_bytes(t.drop_first(), k - 1);
        assert(t.take(k).drop_first() =~= t.drop_first().take(k - 1));
    } else {
        assert(t.take(0).len() == 0);
    }
}

proof fn lemma_cut_end_advances(s: Seq<char>, start: int)
    requires
        0 <= start < s.len(),
    ensures
        start < cut_end(s, start) <= s.len(),
        cut_end(s, start) - start <= MAX_LENGTH,
        byte_len(s.subrange(start, cut_end(s, start))) <= MAX_LENGTH,
{
    lemma_fit_end(s, start, 0);
    let end = fit_end(s, start, 0);
    let cut = cut_end(s, start);
    if end != s.len() {
        lemma_rfind_bounds(s.subrange(start, end), end - start);
    }
    lemma_prefix_bytes(s.subrange(start, end), cut - start);
    assert(s.subrange(start, end).take(cut - start) =~= s.subrange(start, cut));
}

/// The pieces of `s` from `start` on.
pub open spec fn pieces_from(s: Seq<char>, start: int) -> Seq<Seq<char>>
    decreases s.len() - start,
{
    if start < 0 || start >= s.len() {
        seq![]
    } else {
        let end = cut_end(s, start);
        if end <= start || end > s.len() {
            seq![]
        } else {
            seq![s.subrange(start, end)] + pieces_from(s, end)
        }
    }
}

/// A text cut into pieces for chat messages: the text itself when it fits.
pub open spec fn pieces(s: Seq<char>) -> Seq<Seq<char>> {
    if fit_end(s, 0, 0) == s.len() {
        seq![s]
    } else {
        pieces_from(s, 0)
    }
}

/// Relies on `str::chars`: the characters of the text, in order.
#[verifier::external_body]
pub(crate) fn to_chars(s: &str) -> (r: Vec<char>)
    ensures
        r@ == s@,
{
    s.chars().collect()
}

fn rfind_blank_line_in(chars: &Vec<char>, start: usize, end: usize) -> (r: i64)
    requires
        start <= end <= chars@.len(),
        end - start <= MAX_LENGTH,
    ensures
        r == rfind_blank_line(chars@.subrange(start as int, end as int), end - start),
{
    let ghost p = chars@.subrange(start as int, end as int);
    let mut k: usize = end - start;
    while k > 0
        invariant
            start <= end,
            end - start <= MAX_LENGTH,
            k <= end - start,
            p == chars@.subrange(start as int, end as int),
            end <= chars@.len(),
            rfind_blank_line(p, (end - start) as int) == rfind_blank_line(p, k as int),
        decreases k,
    {
        if k < end - start && chars[start + k - 1] == '\n' && chars[start + k] == '\n' {
            return (k - 1) as i64;
        }
        k = k - 1;
    }
    -1
}

fn rfind_newline_in(chars: &Vec<char>, start: usize, end: usize) -> (r: i64)
    requires
        start <= end <= chars@.len(),
        end - start <= MAX_LENGTH,
    ensures
        r == rfind_newline(chars@.subrange(start as int, end as int), end - start),
{
    let ghost p = chars@.subrange(start as int, end as int);
    let mut k: usize = end - start;
    while k > 0
        invariant
            start <= end,
            end - start <= MAX_LENGTH,
            k <= end - start,
            p == chars@.subrange(start as int, end as int),
            end <= chars@.len(),
            rfind_newline(p, (end - start) as int) == rfind_newline(p, k as int),
        decreases k,
    {
        if chars[start + k - 1] == '\n' {
            return (k - 1) as i64;
        }
        k = k - 1;
    }
    -1
}

fn rfind_space_in(chars: &Vec<char>, start: usize, end: usize) -> (r: i64)
    requires
        start <= end <= chars@.len(),
        end - start <= MAX_LENGTH,
    ensures
        r == rfind_space(chars@.subrange(start as int, end as int), end - start),
{
    let ghost p = chars@.subrange(start as int, end as int);
    let mut k: usize = end - start;
    while k > 0
        invariant
            start <= end,
            end - start <= MAX_LENGTH,
            k <= end - start,
            p == chars@.subrange(start as int, end as int),
            end <= chars@.len(),
            rfind_space(p, (end - start) as int) == rfind_space(p, k as int),
        decreases k,
    {
        if is_whitespace(chars[start + k - 1]) {
            return (k - 1) as i64;
        }
        k = k - 1;
    }
    -1
}

fn char_bytes(c: char) -> (r: usize)
    ensures
        r == utf8_len(c),
{
    let u = c as u32;
    if u < 0x80 {
        1
    } else if u < 0x800 {
        2
    } else if u < 0x10000 {
        3
    } else {
        4
    }
}

fn window_end(chars: &Vec<char>, start: usize) -> (r: usize)
    requires
        start <= chars@.len(),
    ensures
        r == fit_end(chars@, start as int, 0),
{
    let n = chars.len();
    let mut i: usize = start;
    let mut used: usize = 0;
    while i < n && used + char_bytes(chars[i]) <= MAX_LENGTH
        invariant
            n == chars@.len(),
            start <= i <= n,
            used <= MAX_LENGTH,
            fit_end(chars@, i as int, used as nat) == fit_end(chars@, start as int, 0),
        decreases n - i,
    {
        used = used + char_bytes(chars[i]);
        i = i + 1;
    }
    i
}

fn next_cut(chars: &Vec<char>, start: usize) -> (r: usize)
    requires
        start < chars@.len(),
    ensures
        r == cut_end(chars@, start as int),
{
    let n = chars.len();
    let end = window_end(chars, start);
    if end == n {
        return n;
    }
    proof {
        lemma_fit_end(chars@, start as int, 0);
        lemma_rfind_bounds(chars@.subrange(start as int, end as int), (end - start) as int);
    }
    let a = rfind_blank_line_in(chars, start, end);
    if a >= 0 {
        return start + a as usize + 1;
    }
    let b = rfind_newline_in(chars, start, end);
    if b >= 0 {
        return start + b as usize + 1;
    }
    let c = rfind_space_in(chars, start, end);
    if c >= 0 {
        return start + c as usize + 1;
    }
    end
}

/// Cuts a long reply into pieces of at most `MAX_LENGTH` bytes, preferring
/// to cut after a blank line, then after a line, then after a word, and
/// never inside a character. A reply that fits is one piece.
pub fn split_string(input: &str) -> (r: Vec<String>)
    ensures
        r@.map_values(|s: String| s@) == pieces(input@),
        r@.len() >= 1,
        forall|i: int| 0 <= i < r@.len() ==> byte_len(#[trigger] r@[i]@) <= MAX_LENGTH,
        byte_len(input@) > MAX_LENGTH ==> forall|i: int| 0 <= i < r@.len() ==> (#[trigger] r@[i]@).len() > 0,
{
    let n = input.unicode_len();
    let chars = to_chars(input);
    let mut result: Vec<String> = Vec::new();
    proof {
        lemma_fit_end(input@, 0, 0);
    }
    if window_end(&chars, 0) == n {
        result.push(String::from_str(input));
        proof {
            assert(input@.subrange(0, n as int) =~= input@);
        }
        assert(result@.map_values(|s: String| s@) =~= pieces(input@));
        return result;
    }
    proof {
        assert(input@.subrange(0, fit_end(input@, 0, 0)) =~= input@.take(fit_end(input@, 0, 0)));
    }
    let mut start: usize = 0;
    assert(result@.map_values(|s: String| s@) + pieces_from(input@, 0) =~= pieces_from(input@, 0));
    while start < n
        invariant
            n == input@.len(),
            chars@ == input@,
            start <= n,
            fit_end(input@, 0, 0) != n,
            start < n || result@.len() > 0,
            result@.map_values(|s: String| s@) + pieces_from(input@, start as int) == pieces_from(input@, 0),
            forall|i: int| 0 <= i < result@.len() ==> byte_len(#[trigger] result@[i]@) <= MAX_LENGTH,
            forall|i: int| 0 <= i < result@.len() ==> (#[trigger] result@[i]@).len() > 0,
        decreases n - start,
    {
        let end = next_cut(&chars, start);
        proof {
            lemma_cut_end_advances(input@, start as int);
        }
        let ghost old_views = result@.map_values(|s: String| s@);
        let piece = String::from_str(input.substring_char(start, end));
        result.push(piece);
        assert(result@.map_values(|s: String| s@) =~= old_views.push(input@.subrange(start as int, end as int)));
        assert(pieces_from(input@, start as int) =~= seq![input@.subrange(start as int, end as int)] + pieces_from(input@, end as int));
        assert(result@.map_values(|s: String| s@) + pieces_from(input@, end as int) =~= pieces_from(input@, 0));
        start = end;
    }
    assert(result@.map_values(|s: String| s@) =~= pieces_from(input@, 0));
    proof {
        if byte_len(input@) <= MAX_LENGTH {
            assert(input@.subrange(0, input@.len() as int) =~= input@);
            lemma_fits_whole(input@, 0, 0);
        }
    }
    result
}

proof fn lemma_fits_whole(s: Seq<char>, i: int, used: nat)
    requires
        0 <= i <= s.len(),
        used + byte_len(s.subrange(i, s.len() as int)) <= MAX_LENGTH,
    ensures
        fit_end(s, i, used) == s.len(),
    decreases s.len() - i,
{
    if i < s.len() {
        assert(s.subrange(i, s.len() as int).drop_first() =~= s.subrange(i + 1, s.len() as int));
        lemma_fits_whole(s, i + 1, used + utf8_len(s[i]));
    }
}

/// The name shown for an author: the server nickname, else the global
/// display name, else the account name; anyone but the real account showing
/// the owner's name is shown as an impostor.
pub open spec fn author_name_text(global_name: Option<Seq<char>>, name: Seq<char>, nick: Option<Seq<char>>) -> Seq<char> {
    let shown = match nick {
        Some(n) => n,
        None => match global_name {
            Some(g) => g,
            None => name,
        },
    };
    if shown == "Purple Puppy"@ && name != "purplepuppy"@ {
        "Fake Deformed Purple Puppy"@
    } else {
        shown
    }
}

/// The text of an optional string.
pub open spec fn opt_text(v: Option<String>) -> Option<Seq<char>> {
    match v {
        Some(s) => Some(s@),
        None => None,
    }
}

/// The name to show for a message's author, from the author's global display
/// name, account name and server nickname.
pub fn author_name_from_msg(global_name: &Option<String>, name: &String, nick: &Option<String>) -> (r: String)
    ensures
        r@ == author_name_text(opt_text(*global_name), name@, opt_text(*nick)),
{
    let shown = match nick {
        Some(n) => n.clone(),
        None => match global_name {
            Some(g) => g.clone(),
            None => name.clone(),
        },
    };
    if shown.eq(&String::from_str("Purple Puppy")) && !name.eq(&String::from_str("purplepuppy")) {
        String::from_str("Fake Deformed Purple Puppy")
    } else {
        shown
    }
}

} // verus!
