//! The `Authorization` header: its reading as text and the token in it.

use vstd::prelude::*;
use vstd::string::*;

verus! {

/// A byte that may stand in a header read as text: a printable ASCII
/// character, the space among them, or a tab.
pub open spec fn is_visible_ascii(b: u8) -> bool {
    32 <= b < 127 || b == 9
}

/// A header value read as text: the characters of its bytes where each of
/// them is visible ASCII, and nothing where one is not.
pub open spec fn header_text(value: Seq<u8>) -> Option<Seq<char>> {
    if forall|i: int| 0 <= i < value.len() ==> is_visible_ascii(#[trigger] value[i]) {
        Some(Seq::new(value.len(), |i: int| value[i] as char))
    } else {
        None
    }
}

/// `http::HeaderValue::from_bytes` and then `HeaderValue::to_str` on what it
/// gives. The first takes the bytes from 32 on but for 127, and the tab; the
/// second yields text only where every byte is visible ASCII (32 to 126, or
/// the tab), which is the narrower of the two. The text has the bytes as
/// its characters.
#[verifier::external_body]
pub(crate) fn header_to_str(value: &[u8]) -> (text: Option<String>)
    ensures
        match text {
            Some(t) => header_text(value@) == Some(t@),
            None => header_text(value@) is None,
        },
{
    let header = axum::http::HeaderValue::from_bytes(value).ok()?;
    header.to_str().ok().map(|text| text.to_owned())
}

/// White space: the characters with the Unicode property `White_Space`.
pub open spec fn is_white(c: char) -> bool {
    let u = c as u32;
    ||| 0x09 <= u <= 0x0D
    ||| u == 0x20
    ||| u == 0x85
    ||| u == 0xA0
    ||| u == 0x1680
    ||| 0x2000 <= u <= 0x200A
    ||| u == 0x2028
    ||| u == 0x2029
    ||| u == 0x202F
    ||| u == 0x205F
    ||| u == 0x3000
}

/// Whether a character is white space.
pub fn is_whitespace(c: char) -> (white: bool)
    ensures
        white == is_white(c),
{
    let u: u32 = c as u32;
    (0x09 <= u && u <= 0x0D) || u == 0x20 || u == 0x85 || u == 0xA0 || u == 0x1680 || (0x2000 <= u
        && u <= 0x200A) || u == 0x2028 || u == 0x2029 || u == 0x202F || u == 0x205F || u == 0x3000
}

/// The first place from `from` on that holds no white space, or the end.
pub open spec fn word_start(text: Seq<char>, from: int) -> int
    decreases text.len() - from,
{
    if 0 <= from < text.len() && is_white(text[from]) {
        word_start(text, from + 1)
    } else {
        from
    }
}

/// Where the run of characters that are no white space ends which begins at
/// `from`: at the first white space from there on, or at the end.
pub open spec fn word_end(text: Seq<char>, from: int) -> int
    decreases text.len() - from,
{
    if 0 <= from < text.len() && !is_white(text[from]) {
        word_end(text, from + 1)
    } else {
        from
    }
}

/// The words of a text from `from` on: the longest runs of characters that
/// are no white space, in their order.
pub open spec fn words_from(text: Seq<char>, from: int) -> Seq<Seq<char>>
    decreases text.len() - from,
{
    if from < 0 || from >= text.len() {
        Seq::empty()
    } else if is_white(text[from]) {
        words_from(text, from + 1)
    } else {
        proof {
            lemma_word_end(text, from + 1);
        }
        seq![text.subrange(from, word_end(text, from))] + words_from(text, word_end(text, from))
    }
}

/// The words of a text: what is left of it when it is split at white space
/// of any length.
pub open spec fn words(text: Seq<char>) -> Seq<Seq<char>> {
    words_from(text, 0)
}

/// The token of a header of the form `Scheme Token`: its second word. What
/// the scheme is does not matter, only that it is there.
pub open spec fn second_word(text: Seq<char>) -> Option<Seq<char>> {
    if words(text).len() >= 2 {
        Some(words(text)[1])
    } else {
        None
    }
}

/// White space runs from a place to the next beginning of a word.
pub proof fn lemma_word_start(text: Seq<char>, from: int)
    requires
        0 <= from <= text.len(),
    ensures
        from <= word_start(text, from) <= text.len(),
        forall|k: int| from <= k < word_start(text, from) ==> is_white(#[trigger] text[k]),
        word_start(text, from) < text.len() ==> !is_white(text[word_start(text, from)]),
        words_from(text, from) == words_from(text, word_start(text, from)),
    decreases text.len() - from,
{
    if from < text.len() && is_white(text[from]) {
        lemma_word_start(text, from + 1);
    }
}

/// A word ends at or after its beginning and within the text, holds no
/// white space, and is followed by white space or by the end.
pub proof fn lemma_word_end(text: Seq<char>, from: int)
    requires
        0 <= from <= text.len(),
    ensures
        from <= word_end(text, from) <= text.len(),
        forall|k: int| from <= k < word_end(text, from) ==> !is_white(#[trigger] text[k]),
        word_end(text, from) < text.len() ==> is_white(text[word_end(text, from)]),
        from < text.len() && !is_white(text[from]) ==> from < word_end(text, from),
    decreases text.len() - from,
{
    if from < text.len() && !is_white(text[from]) {
        lemma_word_end(text, from + 1);
    }
}

/// Where the second word of a text stands: after the white space that
/// follows the first word, up to the next white space or the end.
pub open spec fn second_word_at(text: Seq<char>) -> (int, int) {
    let first = word_start(text, 0);
    let second = word_start(text, word_end(text, first));
    (second, word_end(text, second))
}

/// The second word of a text is what stands at its place, where that place
/// is not empty, and there is none where it is.
pub proof fn lemma_second_word(text: Seq<char>)
    ensures
        ({
            let (from, to) = second_word_at(text);
            &&& 0 <= from <= to <= text.len()
            &&& second_word(text) == if from < to {
                Some(text.subrange(from, to))
            } else {
                None
            }
        }),
{
    let a = word_start(text, 0);
    lemma_word_start(text, 0);
    lemma_word_end(text, a);
    let b = word_end(text, a);
    lemma_word_start(text, b);
    let c = word_start(text, b);
    lemma_word_end(text, c);
    let d = word_end(text, c);
    if a < text.len() {
        assert(words(text) == seq![text.subrange(a, b)] + words_from(text, c));
        if c < text.len() {
            assert(words_from(text, c) == seq![text.subrange(c, d)] + words_from(text, d));
            assert(words(text)[1] == text.subrange(c, d));
        }
    }
}

/// A token is a word of the header: it is not empty and holds no white
/// space, white space stands before it, and white space or the end of the
/// text after it.
pub proof fn token_is_a_word(text: Seq<char>)
    ensures
        second_word(text) matches Some(token) ==> {
            &&& token.len() > 0
            &&& forall|k: int| 0 <= k < token.len() ==> !is_white(#[trigger] token[k])
            &&& exists|from: int|
                {
                    &&& 0 < from <= text.len() - token.len()
                    &&& #[trigger] text.subrange(from, from + token.len()) == token
                    &&& is_white(text[from - 1])
                    &&& from + token.len() < text.len() ==> is_white(text[from + token.len()])
                }
        },
{
    lemma_second_word(text);
    if second_word(text) is Some {
        let a = word_start(text, 0);
        lemma_word_start(text, 0);
        lemma_word_end(text, a);
        let b = word_end(text, a);
        lemma_word_start(text, b);
        let (c, d) = second_word_at(text);
        lemma_word_end(text, c);
        let token = text.subrange(c, d);
        assert(b < c) by {
            if b == c {
                assert(is_white(text[b]));
            }
        }
        assert(text.subrange(c, c + token.len()) == token);
    }
}

/// The characters of a text.
fn chars_of(text: &str) -> (chars: Vec<char>)
    ensures
        chars@ == text@,
{
    broadcast use vstd::string::group_string_axioms;

    let mut chars: Vec<char> = Vec::new();
    for c in it: text.chars()
        invariant
            it.seq() == text@,
            chars@ == text@.take(it.index()),
    {
        chars.push(c);
    }
    chars
}

/// The next beginning of a word from `from` on.
fn skip_white(chars: &Vec<char>, from: usize) -> (to: usize)
    requires
        from <= chars@.len(),
    ensures
        to == word_start(chars@, from as int),
        from <= to <= chars@.len(),
{
    let mut to = from;
    while to < chars.len() && is_whitespace(chars[to])
        invariant
            from <= to <= chars@.len(),
            word_start(chars@, from as int) == word_start(chars@, to as int),
        decreases chars@.len() - to,
    {
        to += 1;
    }
    to
}

/// The end of the word that begins at `from`.
fn skip_word(chars: &Vec<char>, from: usize) -> (to: usize)
    requires
        from <= chars@.len(),
    ensures
        to == word_end(chars@, from as int),
        from <= to <= chars@.len(),
{
    let mut to = from;
    while to < chars.len() && !is_whitespace(chars[to])
        invariant
            from <= to <= chars@.len(),
            word_end(chars@, from as int) == word_end(chars@, to as int),
        decreases chars@.len() - to,
    {
        to += 1;
    }
    to
}

/// Takes the token out of the text of a header: the second of its words.
/// A text of fewer than two words holds no token.
pub fn bearer_token(text: &str) -> (token: Option<String>)
    ensures
        match token {
            Some(t) => second_word(text@) == Some(t@),
            None => second_word(text@) is None,
        },
{
    let chars = chars_of(text);
    let first = skip_white(&chars, 0);
    let after = skip_word(&chars, first);
    let from = skip_white(&chars, after);
    let to = skip_word(&chars, from);
    proof {
        lemma_second_word(text@);
    }
    if from < to {
        Some(text.substring_char(from, to).to_owned())
    } else {
        None
    }
}

} // verus!
