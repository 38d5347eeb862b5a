//! Pieces of the language-model chat: the custom emojis the model may use,
//! and the speaker label it sometimes puts before its answer.

use vstd::prelude::*;
use vstd::string::*;
use crate::board::{join, joined};
use crate::text::{is_whitespace, opt_text, unicode_space};

verus! {

/// The server's custom emoji for a `:name:` code, if it has one.
pub open spec fn custom_emoji(name: Seq<char>) -> Option<Seq<char>> {
    if name == "woof"@ {
        Some("<:woof:441843756040323092>"@)
    } else if name == "awoo"@ {
        Some("<:awoo:984697374402289705>"@)
    } else if name == "puphooray"@ {
        Some("<:puphooray:672916714589126663>"@)
    } else if name == "pupsplit"@ {
        Some("<:pupsplit:948732828886118410>"@)
    } else if name == "petpup"@ {
        Some("<a:petpup:915489497490292757>"@)
    } else {
        None
    }
}

fn same(a: &String, b: &str) -> (r: bool)
    ensures
        r == (a@ == b@),
{
    a.eq(&String::from_str(b))
}

/// The custom emoji that a `:name:` code stands for.
pub fn custom_emoji_code(name: &str) -> (r: Option<String>)
    ensures
        opt_text(r) == custom_emoji(name@),
{
    let name = String::from_str(name);
    if same(&name, "woof") {
        Some(String::from_str("<:woof:441843756040323092>"))
    } else if same(&name, "awoo") {
        Some(String::from_str("<:awoo:984697374402289705>"))
    } else if same(&name, "puphooray") {
        Some(String::from_str("<:puphooray:672916714589126663>"))
    } else if same(&name, "pupsplit") {
        Some(String::from_str("<:pupsplit:948732828886118410>"))
    } else if same(&name, "petpup") {
        Some(String::from_str("<a:petpup:915489497490292757>"))
    } else {
        None
    }
}

/// The answer without a leading `woofer: ` or `Woofer: ` label.
pub open spec fn without_speaker(s: Seq<char>) -> Seq<char> {
    if s.len() >= 8 && (s.take(8) == "woofer: "@ || s.take(8) == "Woofer: "@) {
        s.skip(8)
    } else {
        s
    }
}

fn starts_with(s: &str, prefix: &str) -> (r: bool)
    ensures
        r == (s@.len() >= prefix@.len() && s@.take(prefix@.len() as int) == prefix@),
{
    let n = s.unicode_len();
    let m = prefix.unicode_len();
    if n < m {
        return false;
    }
    let mut i: usize = 0;
    while i < m
        invariant
            m == prefix@.len(),
            n == s@.len(),
            m <= n,
            i <= m,
            forall|j: int| 0 <= j < i ==> s@[j] == prefix@[j],
        decreases m - i,
    {
        if s.get_char(i) != prefix.get_char(i) {
            assert(s@.take(m as int)[i as int] != prefix@[i as int]);
            return false;
        }
        i = i + 1;
    }
    assert(s@.take(m as int) =~= prefix@);
    true
}

/// Drops the speaker label that the model sometimes writes before its answer.
pub fn strip_speaker(output: &str) -> (r: String)
    ensures
        r@ == without_speaker(output@),
{
    proof {
        reveal_strlit("woofer: ");
        reveal_strlit("Woofer: ");
    }
    if starts_with(output, "woofer: ") || starts_with(output, "Woofer: ") {
        String::from_str(output.substring_char(8, output.unicode_len()))
    } else {
        String::from_str(output)
    }
}

/// The names without repeats, each where it first occurs.
pub open spec fn first_occurrences(names: Seq<Seq<char>>) -> Seq<Seq<char>>
    decreases names.len(),
{
    if names.len() == 0 {
        seq![]
    } else {
        let earlier = first_occurrences(names.drop_last());
        if names.drop_last().contains(names.last()) {
            earlier
        } else {
            earlier.push(names.last())
        }
    }
}

proof fn lemma_first_occurrences_contains(names: Seq<Seq<char>>, x: Seq<char>)
    ensures
        first_occurrences(names).contains(x) == names.contains(x),
    decreases names.len(),
{
    if names.len() > 0 {
        let init = names.drop_last();
        lemma_first_occurrences_contains(init, x);
        assert(names =~= init.push(names.last()));
        if names.contains(x) && !init.contains(x) {
            assert(x == names.last()) by {
                let i = choose|i: int| 0 <= i < names.len() && names[i] == x;
                if i < names.len() - 1 {
                    assert(init[i] == x);
                }
            }
        }
        if init.contains(x) {
            let i = choose|i: int| 0 <= i < init.len() && init[i] == x;
            assert(names[i] == x);
        }
        let earlier = first_occurrences(init);
        if !init.contains(names.last()) && x == names.last() {
            assert(earlier.push(names.last())[earlier.len() as int] == x);
        }
        if earlier.contains(x) && !init.contains(names.last()) {
            let i = choose|i: int| 0 <= i < earlier.len() && earlier[i] == x;
            assert(earlier.push(names.last())[i] == x);
        }
        if first_occurrences(names).contains(x) && !init.contains(names.last()) {
            let i = choose|i: int| 0 <= i < earlier.len() + 1 && earlier.push(names.last())[i] == x;
            if i < earlier.len() {
                assert(earlier[i] == x);
            }
        }
    }
}

fn holds(list: &Vec<String>, name: &String) -> (r: bool)
    ensures
        r == list@.map_values(|s: String| s@).contains(name@),
{
    let ghost views = list@.map_values(|s: String| s@);
    let mut i: usize = 0;
    while i < list.len()
        invariant
            i <= list@.len(),
            views == list@.map_values(|s: String| s@),
            forall|j: int| 0 <= j < i ==> views[j] != name@,
        decreases list.len() - i,
    {
        if list[i].eq(name) {
            assert(views[i as int] == name@);
            return true;
        }
        i = i + 1;
    }
    false
}

/// The people in a conversation, each named once in order of first
/// appearance, separated by commas.
pub fn participants(names: &Vec<String>) -> (r: String)
    ensures
        r@ == joined(first_occurrences(names@.map_values(|s: String| s@)), ", "@),
{
    let ghost views = names@.map_values(|s: String| s@);
    let mut seen: Vec<String> = Vec::new();
    let mut i: usize = 0;
    while i < names.len()
        invariant
            i <= names@.len(),
            views == names@.map_values(|s: String| s@),
            seen@.map_values(|s: String| s@) == first_occurrences(views.take(i as int)),
        decreases names.len() - i,
    {
        let ghost before = seen@.map_values(|s: String| s@);
        proof {
            assert(views.take(i + 1).drop_last() =~= views.take(i as int));
            lemma_first_occurrences_contains(views.take(i as int), views[i as int]);
        }
        if !holds(&seen, &names[i]) {
            seen.push(names[i].clone());
            assert(seen@.map_values(|s: String| s@) =~= before.push(views[i as int]));
        }
        i = i + 1;
    }
    assert(views.take(names.len() as int) =~= views);
    join(&seen, ", ")
}

/// A text without white space at either end, white space as Unicode defines it.
pub open spec fn trimmed(s: Seq<char>) -> Seq<char> {
    let start = leading_space(s, 0);
    let end = trailing_end(s, s.len() as int, start);
    s.subrange(start, end)
}

/// The first index at or after `i` that is not white space, or the length.
pub open spec fn leading_space(s: Seq<char>, i: int) -> int
    decreases s.len() - i,
{
    if i < 0 || i >= s.len() {
        s.len() as int
    } else if unicode_space(s[i]) {
        leading_space(s, i + 1)
    } else {
        i
    }
}

/// The end after dropping white space before `end`, not going below `start`.
pub open spec fn trailing_end(s: Seq<char>, end: int, start: int) -> int
    decreases end - start,
{
    if end <= start {
        start
    } else if unicode_space(s[end - 1]) {
        trailing_end(s, end - 1, start)
    } else {
        end
    }
}

/// Drops white space at both ends, as `str::trim` does.
pub fn trim(s: &str) -> (r: String)
    ensures
        r@ == trimmed(s@),
{
    let chars = crate::text::to_chars(s);
    let n = chars.len();
    let mut start: usize = 0;
    while start < n && is_whitespace(chars[start])
        invariant
            chars@ == s@,
            n == s@.len(),
            start <= n,
            leading_space(s@, start as int) == leading_space(s@, 0),
        decreases n - start,
    {
        start = start + 1;
    }
    let mut end: usize = n;
    while end > start && is_whitespace(chars[end - 1])
        invariant
            chars@ == s@,
            n == s@.len(),
            start <= end <= n,
            start == leading_space(s@, 0),
            trailing_end(s@, end as int, start as int) == trailing_end(s@, n as int, start as int),
        decreases end - start,
    {
        end = end - 1;
    }
    String::from_str(s.substring_char(start, end))
}

/// What the assistant said earlier, without the reply prefix, trimmed.
pub open spec fn own_message_text(content: Seq<char>) -> Seq<char> {
    let prefix = "<:pupgpt:1121198908593426462>"@;
    if content.len() >= prefix.len() && content.take(prefix.len() as int) == prefix {
        trimmed(content.skip(prefix.len() as int))
    } else {
        trimmed(content)
    }
}

/// The text of the assistant's own earlier reply, as the model should see it.
pub fn own_message(content: &str) -> (r: String)
    ensures
        r@ == own_message_text(content@),
{
    let prefix = "<:pupgpt:1121198908593426462>";
    if starts_with(content, prefix) {
        let rest = content.substring_char(prefix.unicode_len(), content.unicode_len());
        trim(rest)
    } else {
        trim(content)
    }
}

/// The lower-case form of a text, as Unicode defines it.
pub uninterp spec fn lower_of(s: Seq<char>) -> Seq<char>;

/// Relies on `str::to_lowercase`: the result depends on the text alone.
#[verifier::external_body]
fn lowercase(s: &str) -> (r: String)
    ensures
        r@ == lower_of(s@),
{
    s.to_lowercase()
}

/// A user's message without the command that addressed the assistant.
pub open spec fn user_message_text(content: Seq<char>) -> Seq<char> {
    let lower = lower_of(content);
    if lower.len() >= 10 && lower.take(10) == "puppy gpt "@ && content.len() >= 10 {
        content.skip(10)
    } else {
        content
    }
}

/// A user's message as the model should see it.
pub fn user_message(content: &str) -> (r: String)
    ensures
        r@ == user_message_text(content@),
{
    proof {
        reveal_strlit("puppy gpt ");
    }
    let lower = lowercase(content);
    let n = content.unicode_len();
    if starts_with(lower.as_str(), "puppy gpt ") && n >= 10 {
        String::from_str(content.substring_char(10, n))
    } else {
        String::from_str(content)
    }
}

} // verus!
