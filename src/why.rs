//! Random answers to "why?", drawn from a small weighted grammar.
//!
//! Every generator returns a text of its grammar category; the `is_*` spec
//! functions describe each category as a language. Self-nesting categories
//! (noun phrases, adjective phrases) take a nesting budget so that generation
//! always ends.

use vstd::prelude::*;
use vstd::string::*;

verus! {

/// How deeply noun phrases and adjective phrases may nest in one answer.
pub const MAX_NESTING: u32 = 4;

/// A stock answer.
pub open spec fn special_words() -> Seq<Seq<char>> {
    seq![
        "why not?"@,
        "woof woof!"@,
        "why indeed?"@,
        "THERE IS AS YET INSUFFICIENT DATA FOR A MEANINGFUL ANSWER"@,
        "life is full of mysteries"@,
        "I'm not telling you"@,
        "you know why"@,
    ]
}

/// A preposition.
pub open spec fn preposition_words() -> Seq<Seq<char>> {
    seq![
        "of"@,
        "from"@,
    ]
}

/// A name.
pub open spec fn proper_noun_words() -> Seq<Seq<char>> {
    seq![
        "Purple Puppy"@,
        "Donald Trump"@,
        "Woofer"@,
        "Purple Puppies' Porpoise"@,
        "Blue Puppy"@,
        "Red Puppy"@,
        "Green Puppy"@,
        "Yellow Puppy"@,
    ]
}

/// A noun.
pub open spec fn noun_words() -> Seq<Seq<char>> {
    seq![
        "puppy"@,
        "cat"@,
        "kitten"@,
        "dog"@,
        "stalker"@,
        "siege tank"@,
        "marine"@,
        "marauder"@,
        "zealot"@,
        "zergling"@,
        "baneling"@,
        "roach"@,
        "queen"@,
        "hydralisk"@,
        "ultralisk"@,
        "adept"@,
        "immortal"@,
        "sentry"@,
        "high templar"@,
        "dark templar"@,
        "archon"@,
        "liberator"@,
        "raven"@,
        "banshee"@,
        "viking"@,
        "battlecruiser"@,
        "phoenix"@,
        "void ray"@,
        "carrier"@,
        "tempest"@,
        "oracle"@,
        "mutalisk"@,
        "viper"@,
        "corruptor"@,
        "brood lord"@,
        "overlord"@,
        "overseer"@,
        "pupper"@,
        "pawn"@,
        "knight"@,
        "rook"@,
        "king"@,
    ]
}

/// A pronoun as subject.
pub open spec fn nominative_pronoun_words() -> Seq<Seq<char>> {
    seq![
        "I"@,
        "you"@,
        "he"@,
        "she"@,
        "they"@,
        "we"@,
    ]
}

/// A pronoun as object.
pub open spec fn accusative_pronoun_words() -> Seq<Seq<char>> {
    seq![
        "me"@,
        "everyone"@,
        "her"@,
        "him"@,
        "them"@,
        "us"@,
    ]
}

/// A noun made from a verb of feeling.
pub open spec fn nouned_verb_words() -> Seq<Seq<char>> {
    seq![
        "affection"@,
        "approval"@,
        "embrace"@,
        "honour"@,
        "love"@,
        "respect"@,
        "satisfaction"@,
    ]
}

/// An adverb of degree.
pub open spec fn pos_intensifier_words() -> Seq<Seq<char>> {
    seq![
        "arbitrarily"@,
        "mildly"@,
        "moderately"@,
        "quite"@,
        "really"@,
        "somewhat"@,
        "very"@,
    ]
}

/// An adjective.
pub open spec fn adjective_words() -> Seq<Seq<char>> {
    seq![
        "purple"@,
        "green"@,
        "orange"@,
        "red"@,
        "blue"@,
        "yellow"@,
        "pink"@,
        "ultraviolet"@,
        "infrared"@,
        "spotted"@,
        "fluffy"@,
        "adorable"@,
        "terrified"@,
        "excited"@,
        "acceptable"@,
        "catlike"@,
        "doglike"@,
        "playful"@,
        "friendly"@,
        "spiky"@,
        "pointy"@,
        "aerodynamic"@,
        "checkered"@,
        "mottled"@,
        "two-dimensional"@,
        "tetrahedral"@,
        "triangular"@,
        "aggressive"@,
        "spherical"@,
        "cute"@,
        "differentiable"@,
        "open-source"@,
        "agreeable"@,
        "disagreeable"@,
        "tubular"@,
        "toroidal"@,
        "speckled"@,
        "simply connected"@,
    ]
}

/// An article.
pub open spec fn article_words() -> Seq<Seq<char>> {
    seq![
        "the"@,
        "some"@,
        "a"@,
    ]
}

/// A verb in the present tense.
pub open spec fn present_verb_words() -> Seq<Seq<char>> {
    seq![
        "bless"@,
        "contradict"@,
        "counter"@,
        "defeat"@,
        "discover"@,
        "encourage"@,
        "enlighten"@,
        "excite"@,
        "fascinate"@,
        "fool"@,
        "impress"@,
        "intimidate"@,
        "neutralise"@,
        "outwit"@,
        "please"@,
        "satisfy"@,
        "uplift"@,
        "vanquish"@,
        "vapoorise"@,
    ]
}

/// A transitive verb in the past tense.
pub open spec fn transitive_verb_words() -> Seq<Seq<char>> {
    seq![
        "advanced upon"@,
        "asked"@,
        "argued with"@,
        "attacked"@,
        "begged"@,
        "betrayed"@,
        "bothered"@,
        "captured"@,
        "chastised"@,
        "commanded"@,
        "confessed to"@,
        "deceived"@,
        "entertained"@,
        "excommunicated"@,
        "fought"@,
        "helped"@,
        "hugged"@,
        "promoted"@,
        "obeyed"@,
        "threatened"@,
        "told"@,
    ]
}

/// An intransitive verb phrase in the past tense.
pub open spec fn intransitive_verb_words() -> Seq<Seq<char>> {
    seq![
        "demanded it be this way"@,
        "evaporated"@,
        "had a good feeling about it"@,
        "insisted on it"@,
        "knew it was a good idea"@,
        "sublimated"@,
        "suggested it"@,
        "told me to"@,
        "wanted it"@,
        "exploded"@,
    ]
}

/// Relies on rand's `WeightedIndex::new` and its `sample` with `thread_rng`:
/// an index drawn with probability proportional to its weight. With every
/// weight positive and at most 100, and at most 1000 of them, the weights are
/// accepted and their sum fits.
#[verifier::external_body]
fn pick(weights: &Vec<u32>) -> (r: usize)
    requires
        0 < weights@.len() <= 1000,
        forall|i: int| 0 <= i < weights@.len() ==> 1 <= #[trigger] weights@[i] <= 100,
    ensures
        r < weights@.len(),
{
    let index = rand::distributions::WeightedIndex::new(weights).unwrap();
    rand::distributions::Distribution::sample(&index, &mut rand::thread_rng())
}

fn pick_word(words: &Vec<&'static str>, weights: &Vec<u32>) -> (r: String)
    requires
        words@.len() == weights@.len(),
        0 < weights@.len() <= 1000,
        forall|i: int| 0 <= i < weights@.len() ==> 1 <= #[trigger] weights@[i] <= 100,
    ensures
        words@.map_values(|w: &str| w@).contains(r@),
{
    let i = pick(weights);
    let r = String::from_str(words[i]);
    assert(words@.map_values(|w: &str| w@)[i as int] == r@);
    r
}

/// A stock answer.
pub fn special() -> (r: String)
    ensures
        special_words().contains(r@),
{
    let words: Vec<&'static str> = vec![
        "why not?",
        "woof woof!",
        "why indeed?",
        "THERE IS AS YET INSUFFICIENT DATA FOR A MEANINGFUL ANSWER",
        "life is full of mysteries",
        "I'm not telling you",
        "you know why",
    ];
    let weights: Vec<u32> = vec![1, 1, 1, 1, 1, 1, 1];
    assert(words@.map_values(|w: &str| w@) =~= special_words());
    pick_word(&words, &weights)
}

/// A preposition.
pub fn preposition() -> (r: String)
    ensures
        preposition_words().contains(r@),
{
    let words: Vec<&'static str> = vec![
        "of",
        "from",
    ];
    let weights: Vec<u32> = vec![1, 1];
    assert(words@.map_values(|w: &str| w@) =~= preposition_words());
    pick_word(&words, &weights)
}

/// A name.
pub fn proper_noun() -> (r: String)
    ensures
        proper_noun_words().contains(r@),
{
    let words: Vec<&'static str> = vec![
        "Purple Puppy",
        "Donald Trump",
        "Woofer",
        "Purple Puppies' Porpoise",
        "Blue Puppy",
        "Red Puppy",
        "Green Puppy",
        "Yellow Puppy",
    ];
    let weights: Vec<u32> = vec![10, 3, 5, 2, 1, 1, 1, 1];
    assert(words@.map_values(|w: &str| w@) =~= proper_noun_words());
    pick_word(&words, &weights)
}

/// A noun.
pub fn noun() -> (r: String)
    ensures
        noun_words().contains(r@),
{
    let words: Vec<&'static str> = vec![
        "puppy",
        "cat",
        "kitten",
        "dog",
        "stalker",
        "siege tank",
        "marine",
        "marauder",
        "zealot",
        "zergling",
        "baneling",
        "roach",
        "queen",
        "hydralisk",
        "ultralisk",
        "adept",
        "immortal",
        "sentry",
        "high templar",
        "dark templar",
        "archon",
        "liberator",
        "raven",
        "banshee",
        "viking",
        "battlecruiser",
        "phoenix",
        "void ray",
        "carrier",
        "tempest",
        "oracle",
        "mutalisk",
        "viper",
        "corruptor",
        "brood lord",
        "overlord",
        "overseer",
        "pupper",
        "pawn",
        "knight",
        "rook",
        "king",
    ];
    let weights: Vec<u32> = vec![1, 1, 1, 1, 1, 1, 1, 1, 1, 1, 1, 1, 1, 1, 1, 1, 1, 1, 1, 1, 1, 1, 1, 1, 1, 1, 1, 1, 1, 1, 1, 1, 1, 1, 1, 1, 1, 1, 1, 1, 1, 1];
    assert(words@.map_values(|w: &str| w@) =~= noun_words());
    pick_word(&words, &weights)
}

/// A pronoun as subject.
pub fn nominative_pronoun() -> (r: String)
    ensures
        nominative_pronoun_words().contains(r@),
{
    let words: Vec<&'static str> = vec![
        "I",
        "you",
        "he",
        "she",
        "they",
        "we",
    ];
    let weights: Vec<u32> = vec![1, 1, 1, 1, 1, 1];
    assert(words@.map_values(|w: &str| w@) =~= nominative_pronoun_words());
    pick_word(&words, &weights)
}

/// A pronoun as object.
pub fn accusative_pronoun() -> (r: String)
    ensures
        accusative_pronoun_words().contains(r@),
{
    let words: Vec<&'static str> = vec![
        "me",
        "everyone",
        "her",
        "him",
        "them",
        "us",
    ];
    let weights: Vec<u32> = vec![1, 1, 1, 1, 1, 1];
    assert(words@.map_values(|w: &str| w@) =~= accusative_pronoun_words());
    pick_word(&words, &weights)
}

/// A noun made from a verb of feeling.
pub fn nouned_verb() -> (r: String)
    ensures
        nouned_verb_words().contains(r@),
{
    let words: Vec<&'static str> = vec![
        "affection",
        "approval",
        "embrace",
        "honour",
        "love",
        "respect",
        "satisfaction",
    ];
    let weights: Vec<u32> = vec![1, 1, 1, 1, 1, 1, 1];
    assert(words@.map_values(|w: &str| w@) =~= nouned_verb_words());
    pick_word(&words, &weights)
}

/// An adverb of degree.
pub fn pos_intensifier() -> (r: String)
    ensures
        pos_intensifier_words().contains(r@),
{
    let words: Vec<&'static str> = vec![
        "arbitrarily",
        "mildly",
        "moderately",
        "quite",
        "really",
        "somewhat",
        "very",
    ];
    let weights: Vec<u32> = vec![1, 1, 1, 1, 1, 1, 1];
    assert(words@.map_values(|w: &str| w@) =~= pos_intensifier_words());
    pick_word(&words, &weights)
}

/// An adjective.
pub fn adjective() -> (r: String)
    ensures
        adjective_words().contains(r@),
{
    let words: Vec<&'static str> = vec![
        "purple",
        "green",
        "orange",
        "red",
        "blue",
        "yellow",
        "pink",
        "ultraviolet",
        "infrared",
        "spotted",
        "fluffy",
        "adorable",
        "terrified",
        "excited",
        "acceptable",
        "catlike",
        "doglike",
        "playful",
        "friendly",
        "spiky",
        "pointy",
        "aerodynamic",
        "checkered",
        "mottled",
        "two-dimensional",
        "tetrahedral",
        "triangular",
        "aggressive",
        "spherical",
        "cute",
        "differentiable",
        "open-source",
        "agreeable",
        "disagreeable",
        "tubular",
        "toroidal",
        "speckled",
        "simply connected",
    ];
    let weights: Vec<u32> = vec![1, 1, 1, 1, 1, 1, 1, 1, 1, 1, 1, 1, 1, 1, 1, 1, 1, 1, 1, 1, 1, 1, 1, 1, 1, 1, 1, 1, 1, 1, 1, 1, 1, 1, 1, 1, 1, 1];
    assert(words@.map_values(|w: &str| w@) =~= adjective_words());
    pick_word(&words, &weights)
}

/// An article.
pub fn article() -> (r: String)
    ensures
        article_words().contains(r@),
{
    let words: Vec<&'static str> = vec![
        "the",
        "some",
        "a",
    ];
    let weights: Vec<u32> = vec![1, 1, 1];
    assert(words@.map_values(|w: &str| w@) =~= article_words());
    pick_word(&words, &weights)
}

/// A verb in the present tense.
pub fn present_verb() -> (r: String)
    ensures
        present_verb_words().contains(r@),
{
    let words: Vec<&'static str> = vec![
        "bless",
        "contradict",
        "counter",
        "defeat",
        "discover",
        "encourage",
        "enlighten",
        "excite",
        "fascinate",
        "fool",
        "impress",
        "intimidate",
        "neutralise",
        "outwit",
        "please",
        "satisfy",
        "uplift",
        "vanquish",
        "vapoorise",
    ];
    let weights: Vec<u32> = vec![1, 1, 1, 1, 1, 1, 1, 1, 1, 1, 1, 1, 1, 1, 1, 1, 1, 1, 1];
    assert(words@.map_values(|w: &str| w@) =~= present_verb_words());
    pick_word(&words, &weights)
}

/// A transitive verb in the past tense.
pub fn transitive_verb() -> (r: String)
    ensures
        transitive_verb_words().contains(r@),
{
    let words: Vec<&'static str> = vec![
        "advanced upon",
        "asked",
        "argued with",
        "attacked",
        "begged",
        "betrayed",
        "bothered",
        "captured",
        "chastised",
        "commanded",
        "confessed to",
        "deceived",
        "entertained",
        "excommunicated",
        "fought",
        "helped",
        "hugged",
        "promoted",
        "obeyed",
        "threatened",
        "told",
    ];
    let weights: Vec<u32> = vec![1, 1, 1, 1, 1, 1, 1, 1, 1, 1, 1, 1, 1, 1, 1, 1, 1, 1, 1, 1, 1];
    assert(words@.map_values(|w: &str| w@) =~= transitive_verb_words());
    pick_word(&words, &weights)
}

/// An intransitive verb phrase in the past tense.
pub fn intransitive_verb() -> (r: String)
    ensures
        intransitive_verb_words().contains(r@),
{
    let words: Vec<&'static str> = vec![
        "demanded it be this way",
        "evaporated",
        "had a good feeling about it",
        "insisted on it",
        "knew it was a good idea",
        "sublimated",
        "suggested it",
        "told me to",
        "wanted it",
        "exploded",
    ];
    let weights: Vec<u32> = vec![1, 1, 1, 1, 1, 1, 1, 1, 1, 2];
    assert(words@.map_values(|w: &str| w@) =~= intransitive_verb_words());
    pick_word(&words, &weights)
}

fn join2(a: String, sep: &str, b: String) -> (r: String)
    ensures
        r@ == a@ + sep@ + b@,
{
    let mut r = a;
    r.append(sep);
    r.append(b.as_str());
    r
}

fn prefixed(head: &str, a: String) -> (r: String)
    ensures
        r@ == head@ + a@,
{
    let mut r = String::from_str(head);
    r.append(a.as_str());
    r
}

/// `s` is `x`, then `sep`, then `y`.
pub open spec fn parts(s: Seq<char>, x: Seq<char>, sep: Seq<char>, y: Seq<char>) -> bool {
    s == x + sep + y
}

/// `not` before an adverb of degree, or the adverb alone.
pub open spec fn is_intensifier(s: Seq<char>) -> bool {
    ||| pos_intensifier_words().contains(s)
    ||| exists|p: Seq<char>| #[trigger] pos_intensifier_words().contains(p) && s == "not "@ + p
}

/// An adjective, an adjective after an intensifier, or (with nesting to
/// spare) two adjective phrases joined by `and`.
pub open spec fn is_adjective_phrase(s: Seq<char>, depth: nat) -> bool
    decreases depth,
{
    ||| adjective_words().contains(s)
    ||| exists|i: Seq<char>, a: Seq<char>|
        #[trigger] is_intensifier(i) && #[trigger] adjective_words().contains(a) && s == i + " "@ + a
    ||| depth > 0 && exists|x: Seq<char>, y: Seq<char>|
        #[trigger] parts(s, x, " and "@, y) && is_adjective_phrase(x, (depth - 1) as nat) && is_adjective_phrase(y, (depth - 1) as nat)
}

/// A noun, or (with nesting to spare) an adjective phrase before a noun
/// phrase, or two noun phrases joined by `and`.
pub open spec fn is_noun_phrase(s: Seq<char>, depth: nat) -> bool
    decreases depth,
{
    ||| noun_words().contains(s)
    ||| depth > 0 && exists|a: Seq<char>, n: Seq<char>|
        #[trigger] parts(s, a, " "@, n) && is_adjective_phrase(a, (depth - 1) as nat) && is_noun_phrase(n, (depth - 1) as nat)
    ||| depth > 0 && exists|x: Seq<char>, y: Seq<char>|
        #[trigger] parts(s, x, " and "@, y) && is_noun_phrase(x, (depth - 1) as nat) && is_noun_phrase(y, (depth - 1) as nat)
}

pub open spec fn is_vowel(c: char) -> bool {
    c == 'a' || c == 'e' || c == 'i' || c == 'o' || c == 'u'
}

/// An article before a noun phrase; `a` becomes `an` before a vowel.
pub open spec fn object_text(a: Seq<char>, n: Seq<char>) -> Seq<char> {
    if a == "a"@ && n.len() > 0 && is_vowel(n[0]) {
        "an "@ + n
    } else {
        a + " "@ + n
    }
}

/// A pronoun, or a noun phrase with its article.
pub open spec fn is_object(s: Seq<char>) -> bool {
    ||| accusative_pronoun_words().contains(s)
    ||| exists|a: Seq<char>, n: Seq<char>|
        #[trigger] article_words().contains(a) && #[trigger] is_noun_phrase(n, MAX_NESTING as nat) && s == object_text(a, n)
}

/// A name, a pronoun, or a noun phrase with its article.
pub open spec fn is_subject(s: Seq<char>) -> bool {
    ||| proper_noun_words().contains(s)
    ||| nominative_pronoun_words().contains(s)
    ||| exists|a: Seq<char>, n: Seq<char>|
        #[trigger] article_words().contains(a) && #[trigger] is_noun_phrase(n, MAX_NESTING as nat) && s == a + " "@ + n
}

/// A transitive verb with its object, or an intransitive verb phrase.
pub open spec fn is_predicate(s: Seq<char>) -> bool {
    ||| exists|v: Seq<char>, o: Seq<char>|
        #[trigger] transitive_verb_words().contains(v) && #[trigger] is_object(o) && s == v + " "@ + o
    ||| intransitive_verb_words().contains(s)
}

/// A subject and a predicate.
pub open spec fn is_sentence(s: Seq<char>) -> bool {
    exists|x: Seq<char>, y: Seq<char>| #[trigger] is_subject(x) && #[trigger] is_predicate(y) && s == x + " "@ + y
}

/// A present-tense verb, or `obtain <object> from`.
pub open spec fn is_present_verb_phrase(s: Seq<char>) -> bool {
    ||| present_verb_words().contains(s)
    ||| exists|o: Seq<char>| #[trigger] is_object(o) && s == "obtain "@ + o + " from"@
}

/// A preposition before a noun phrase with its article, a name or a pronoun.
pub open spec fn is_prepositional_phrase(s: Seq<char>) -> bool {
    ||| exists|p: Seq<char>, a: Seq<char>, n: Seq<char>|
        #[trigger] preposition_words().contains(p) && #[trigger] article_words().contains(a)
            && #[trigger] is_noun_phrase(n, MAX_NESTING as nat) && s == p + " "@ + (a + " "@ + n)
    ||| exists|p: Seq<char>, q: Seq<char>|
        #[trigger] preposition_words().contains(p) && #[trigger] proper_noun_words().contains(q) && s == p + " "@ + q
    ||| exists|p: Seq<char>, q: Seq<char>|
        #[trigger] preposition_words().contains(p) && #[trigger] accusative_pronoun_words().contains(q) && s == p + " "@ + q
}

/// A reason: for the sake of something, because of a sentence, or a purpose.
pub open spec fn is_phrase(s: Seq<char>) -> bool {
    ||| exists|v: Seq<char>, p: Seq<char>|
        #[trigger] nouned_verb_words().contains(v) && #[trigger] is_prepositional_phrase(p) && s == "for the "@ + (v + " "@ + p)
    ||| exists|x: Seq<char>| #[trigger] is_sentence(x) && s == "because "@ + x
    ||| exists|v: Seq<char>, o: Seq<char>|
        #[trigger] is_present_verb_phrase(v) && #[trigger] is_object(o) && s == "so as to "@ + (v + " "@ + o)
    ||| exists|v: Seq<char>, o: Seq<char>|
        #[trigger] is_present_verb_phrase(v) && #[trigger] is_object(o) && s == "to "@ + (v + " "@ + o)
}

/// Any answer to "why?": a stock answer, a reason, or a sentence.
pub open spec fn is_why(s: Seq<char>) -> bool {
    special_words().contains(s) || is_phrase(s) || is_sentence(s)
}

/// An intensifier.
pub fn intensifier() -> (r: String)
    ensures
        is_intensifier(r@),
{
    let k = pick(&vec![2, 1]);
    if k == 0 {
        pos_intensifier()
    } else {
        let p = pos_intensifier();
        prefixed("not ", p)
    }
}

/// An adjective phrase nested at most `depth` deep.
pub fn adjective_phrase(depth: u32) -> (r: String)
    ensures
        is_adjective_phrase(r@, depth as nat),
    decreases depth,
{
    let k = pick(&vec![5, 1, 3]);
    if k == 1 && depth > 0 {
        let x = adjective_phrase(depth - 1);
        let y = adjective_phrase(depth - 1);
        let ghost (xv, yv) = (x@, y@);
        let r = join2(x, " and ", y);
        let ghost d = (depth as nat - 1) as nat;
        assert(parts(r@, xv, " and "@, yv) && is_adjective_phrase(xv, d) && is_adjective_phrase(yv, d));
        r
    } else if k == 2 {
        let i = intensifier();
        let a = adjective();
        let ghost (iv, av) = (i@, a@);
        let r = join2(i, " ", a);
        assert(is_intensifier(iv) && adjective_words().contains(av) && r@ == iv + " "@ + av);
        r
    } else {
        adjective()
    }
}

/// A noun phrase nested at most `depth` deep.
pub fn noun_phrase(depth: u32) -> (r: String)
    ensures
        is_noun_phrase(r@, depth as nat),
    decreases depth,
{
    let k = pick(&vec![3, 3, 1]);
    if k == 1 && depth > 0 {
        let a = adjective_phrase(depth - 1);
        let n = noun_phrase(depth - 1);
        let ghost (av, nv) = (a@, n@);
        let r = join2(a, " ", n);
        let ghost d = (depth as nat - 1) as nat;
        assert(parts(r@, av, " "@, nv) && is_adjective_phrase(av, d) && is_noun_phrase(nv, d));
        r
    } else if k == 2 && depth > 0 {
        let x = noun_phrase(depth - 1);
        let y = noun_phrase(depth - 1);
        let ghost (xv, yv) = (x@, y@);
        let r = join2(x, " and ", y);
        let ghost d = (depth as nat - 1) as nat;
        assert(parts(r@, xv, " and "@, yv) && is_noun_phrase(xv, d) && is_noun_phrase(yv, d));
        r
    } else {
        noun()
    }
}

/// An object: a pronoun, or a noun phrase with its article.
pub fn object() -> (r: String)
    ensures
        is_object(r@),
{
    let k = pick(&vec![1, 1]);
    if k == 0 {
        accusative_pronoun()
    } else {
        let n = noun_phrase(MAX_NESTING);
        let a = article();
        let ghost (av, nv) = (a@, n@);
        let is_a = a.eq(&String::from_str("a"));
        let starts_with_vowel = if n.as_str().unicode_len() > 0 {
            let c = n.as_str().get_char(0);
            c == 'a' || c == 'e' || c == 'i' || c == 'o' || c == 'u'
        } else {
            false
        };
        let r = if is_a && starts_with_vowel {
            prefixed("an ", n)
        } else {
            join2(a, " ", n)
        };
        assert(article_words().contains(av) && is_noun_phrase(nv, MAX_NESTING as nat) && r@ == object_text(av, nv));
        r
    }
}

/// A subject.
pub fn subject() -> (r: String)
    ensures
        is_subject(r@),
{
    let k = pick(&vec![1, 1, 1]);
    if k == 0 {
        proper_noun()
    } else if k == 1 {
        nominative_pronoun()
    } else {
        let a = article();
        let n = noun_phrase(MAX_NESTING);
        let ghost (av, nv) = (a@, n@);
        let r = join2(a, " ", n);
        assert(article_words().contains(av) && is_noun_phrase(nv, MAX_NESTING as nat) && r@ == av + " "@ + nv);
        r
    }
}

/// A predicate.
pub fn predicate() -> (r: String)
    ensures
        is_predicate(r@),
{
    let k = pick(&vec![1, 1]);
    if k == 0 {
        let v = transitive_verb();
        let o = object();
        let ghost (vv, ov) = (v@, o@);
        let r = join2(v, " ", o);
        assert(transitive_verb_words().contains(vv) && is_object(ov) && r@ == vv + " "@ + ov);
        r
    } else {
        intransitive_verb()
    }
}

/// A sentence.
pub fn sentence() -> (r: String)
    ensures
        is_sentence(r@),
{
    let x = subject();
    let y = predicate();
    let ghost (xv, yv) = (x@, y@);
    let r = join2(x, " ", y);
    assert(is_subject(xv) && is_predicate(yv) && r@ == xv + " "@ + yv);
    r
}

/// A present-tense verb phrase.
pub fn present_verb_phrase() -> (r: String)
    ensures
        is_present_verb_phrase(r@),
{
    let k = pick(&vec![7, 1]);
    if k == 0 {
        present_verb()
    } else {
        let o = object();
        let ghost ov = o@;
        let mut r = prefixed("obtain ", o);
        r.append(" from");
        assert(is_object(ov) && r@ == "obtain "@ + ov + " from"@);
        r
    }
}

/// A prepositional phrase.
pub fn prepositional_phrase() -> (r: String)
    ensures
        is_prepositional_phrase(r@),
{
    let k = pick(&vec![1, 1, 1]);
    let p = preposition();
    let ghost pv = p@;
    if k == 0 {
        let a = article();
        let n = noun_phrase(MAX_NESTING);
        let ghost (av, nv) = (a@, n@);
        let r = join2(p, " ", join2(a, " ", n));
        assert(preposition_words().contains(pv) && article_words().contains(av) && is_noun_phrase(nv, MAX_NESTING as nat)
            && r@ == pv + " "@ + (av + " "@ + nv));
        r
    } else if k == 1 {
        let q = proper_noun();
        let ghost qv = q@;
        let r = join2(p, " ", q);
        assert(preposition_words().contains(pv) && proper_noun_words().contains(qv) && r@ == pv + " "@ + qv);
        r
    } else {
        let q = accusative_pronoun();
        let ghost qv = q@;
        let r = join2(p, " ", q);
        assert(preposition_words().contains(pv) && accusative_pronoun_words().contains(qv) && r@ == pv + " "@ + qv);
        r
    }
}

/// A reason.
pub fn phrase() -> (r: String)
    ensures
        is_phrase(r@),
{
    let k = pick(&vec![1, 1, 1, 1]);
    if k == 0 {
        let v = nouned_verb();
        let p = prepositional_phrase();
        let ghost (vv, pv) = (v@, p@);
        let r = prefixed("for the ", join2(v, " ", p));
        assert(nouned_verb_words().contains(vv) && is_prepositional_phrase(pv) && r@ == "for the "@ + (vv + " "@ + pv));
        r
    } else if k == 1 {
        let x = sentence();
        let ghost xv = x@;
        let r = prefixed("because ", x);
        assert(is_sentence(xv) && r@ == "because "@ + xv);
        r
    } else {
        let v = present_verb_phrase();
        let o = object();
        let ghost (vv, ov) = (v@, o@);
        if k == 2 {
            let r = prefixed("so as to ", join2(v, " ", o));
            assert(is_present_verb_phrase(vv) && is_object(ov) && r@ == "so as to "@ + (vv + " "@ + ov));
            r
        } else {
            let r = prefixed("to ", join2(v, " ", o));
            assert(is_present_verb_phrase(vv) && is_object(ov) && r@ == "to "@ + (vv + " "@ + ov));
            r
        }
    }
}

/// A random answer to "why?".
pub fn why() -> (r: String)
    ensures
        is_why(r@),
{
    let k = pick(&vec![1, 4, 6]);
    if k == 0 {
        special()
    } else if k == 1 {
        phrase()
    } else {
        sentence()
    }
}

} // verus!
