//! Characters and the few string operations the rest of the library needs.

use vstd::prelude::*;

verus! {

/// Whether `c` has the Unicode property `White_Space`.
pub open spec fn is_space(c: char) -> bool {
    let n = c as u32;
    ||| 0x09 <= n <= 0x0D
    ||| n == 0x20
    ||| n == 0x85
    ||| n == 0xA0
    ||| n == 0x1680
    ||| 0x2000 <= n <= 0x200A
    ||| n == 0x2028
    ||| n == 0x2029
    ||| n == 0x202F
    ||| n == 0x205F
    ||| n == 0x3000
}

/// Decides `is_space`.
pub fn char_is_space(c: char) -> (r: bool)
    ensures
        r == is_space(c),
{
    let n: u32 = c as u32;
    (0x09 <= n && n <= 0x0D) || n == 0x20 || n == 0x85 || n == 0xA0 || n == 0x1680 || (0x2000 <= n
        && n <= 0x200A) || n == 0x2028 || n == 0x2029 || n == 0x202F || n == 0x205F || n == 0x3000
}

/// The characters of `s`, in order.
pub fn chars_of(s: &str) -> (r: Vec<char>)
    ensures
        r@ == s@,
{
    let mut out: Vec<char> = Vec::new();
    for c in it: s.chars()
        invariant
            out@ == it.seq().take(it.index() as int),
    {
        out.push(c);
    }
    out
}

/// Where the run of white space that begins at `from` ends.
pub open spec fn spaces_end(s: Seq<char>, from: int) -> int
    decreases s.len() - from,
{
    if 0 <= from < s.len() && is_space(s[from]) {
        spaces_end(s, from + 1)
    } else {
        from
    }
}

/// Where the run of characters other than white space that begins at `from` ends.
pub open spec fn word_end(s: Seq<char>, from: int) -> int
    decreases s.len() - from,
{
    if 0 <= from < s.len() && !is_space(s[from]) {
        word_end(s, from + 1)
    } else {
        from
    }
}

/// Where the run of white space that ends just before `to` begins.
pub open spec fn spaces_start(s: Seq<char>, to: int) -> int
    decreases to,
{
    if 0 < to <= s.len() && is_space(s[to - 1]) {
        spaces_start(s, to - 1)
    } else {
        to
    }
}

/// The first run of characters of `s` that holds no white space, if `s` has
/// any character other than white space.
pub open spec fn first_token(s: Seq<char>) -> Option<Seq<char>> {
    let start = spaces_end(s, 0);
    if start < s.len() {
        Some(s.subrange(start, word_end(s, start)))
    } else {
        None
    }
}

/// `s` without the white space at its two ends.
pub open spec fn trimmed(s: Seq<char>) -> Seq<char> {
    let start = spaces_end(s, 0);
    if start < s.len() {
        s.subrange(start, spaces_start(s, s.len() as int))
    } else {
        Seq::empty()
    }
}

/// Whether an answer to a yes-or-no question says yes: a single `y` or `Y`,
/// white space around it aside.
pub open spec fn affirmative(s: Seq<char>) -> bool {
    trimmed(s) == seq!['y'] || trimmed(s) == seq!['Y']
}

/// A run of white space ends within the text, holds white space only, and
/// ends at the end of the text or before another character.
pub proof fn lemma_spaces_end(s: Seq<char>, from: int)
    requires
        0 <= from <= s.len(),
    ensures
        from <= spaces_end(s, from) <= s.len(),
        forall|i: int| from <= i < spaces_end(s, from) ==> is_space(s[i]),
        spaces_end(s, from) < s.len() ==> !is_space(s[spaces_end(s, from)]),
    decreases s.len() - from,
{
    if from < s.len() && is_space(s[from]) {
        lemma_spaces_end(s, from + 1);
    }
}

/// A run of other characters ends within the text, holds no white space,
/// and ends at the end of the text or before white space.
pub proof fn lemma_word_end(s: Seq<char>, from: int)
    requires
        0 <= from <= s.len(),
    ensures
        from <= word_end(s, from) <= s.len(),
        forall|i: int| from <= i < word_end(s, from) ==> !is_space(s[i]),
        word_end(s, from) < s.len() ==> is_space(s[word_end(s, from)]),
    decreases s.len() - from,
{
    if from < s.len() && !is_space(s[from]) {
        lemma_word_end(s, from + 1);
    }
}

/// A run of white space that ends at `to` begins within the text, holds
/// white space only, and begins at the beginning of the text or after
/// another character.
pub proof fn lemma_spaces_start(s: Seq<char>, to: int)
    requires
        0 <= to <= s.len(),
    ensures
        0 <= spaces_start(s, to) <= to,
        forall|i: int| spaces_start(s, to) <= i < to ==> is_space(s[i]),
        spaces_start(s, to) > 0 ==> !is_space(s[spaces_start(s, to) - 1]),
    decreases to,
{
    if 0 < to && is_space(s[to - 1]) {
        lemma_spaces_start(s, to - 1);
    }
}

/// The first token of a text is not empty and holds no white space; before
/// it the text holds white space only, and after it the text ends or white
/// space follows. A text has no first token where it holds white space only.
pub proof fn law_first_token(s: Seq<char>)
    ensures
        match first_token(s) {
            Some(token) => {
                let start = spaces_end(s, 0);
                let end = start + token.len();
                &&& token.len() > 0
                &&& end <= s.len()
                &&& token == s.subrange(start, end)
                &&& forall|i: int| 0 <= i < start ==> is_space(s[i])
                &&& forall|i: int| 0 <= i < token.len() ==> !is_space(token[i])
                &&& end < s.len() ==> is_space(s[end])
            },
            None => forall|i: int| 0 <= i < s.len() ==> is_space(s[i]),
        },
{
    lemma_spaces_end(s, 0);
    let start = spaces_end(s, 0);
    if start < s.len() {
        lemma_word_end(s, start);
    }
}

/// Computes `spaces_end`.
fn skip_spaces(v: &Vec<char>, from: usize) -> (r: usize)
    requires
        from <= v.len(),
    ensures
        r == spaces_end(v@, from as int),
        from <= r <= v.len(),
{
    let mut i: usize = from;
    while i < v.len() && char_is_space(v[i])
        invariant
            from <= i <= v.len(),
            spaces_end(v@, from as int) == spaces_end(v@, i as int),
        decreases v.len() - i,
    {
        i += 1;
    }
    i
}

/// Computes `word_end`.
fn skip_word(v: &Vec<char>, from: usize) -> (r: usize)
    requires
        from <= v.len(),
    ensures
        r == word_end(v@, from as int),
        from <= r <= v.len(),
{
    let mut i: usize = from;
    while i < v.len() && !char_is_space(v[i])
        invariant
            from <= i <= v.len(),
            word_end(v@, from as int) == word_end(v@, i as int),
        decreases v.len() - i,
    {
        i += 1;
    }
    i
}

/// Computes `spaces_start`.
fn skip_spaces_back(v: &Vec<char>, to: usize) -> (r: usize)
    requires
        to <= v.len(),
    ensures
        r == spaces_start(v@, to as int),
        r <= to,
{
    let mut i: usize = to;
    while i > 0 && char_is_space(v[i - 1])
        invariant
            i <= to <= v.len(),
            spaces_start(v@, to as int) == spaces_start(v@, i as int),
        decreases i,
    {
        i -= 1;
    }
    i
}

/// The first white-space-delimited token of `text`.
pub fn first_word(text: &str) -> (r: Option<String>)
    ensures
        match r {
            Some(word) => first_token(text@) == Some(word@),
            None => first_token(text@) is None,
        },
{
    let v = chars_of(text);
    let start = skip_spaces(&v, 0);
    if start < v.len() {
        let end = skip_word(&v, start);
        let word = text.substring_char(start, end);
        Some(word.to_owned())
    } else {
        None
    }
}

/// Whether `answer` says yes.
pub fn is_affirmative(answer: &str) -> (r: bool)
    ensures
        r == affirmative(answer@),
{
    let v = chars_of(answer);
    let start = skip_spaces(&v, 0);
    if start < v.len() {
        let end = skip_spaces_back(&v, v.len());
        proof {
            lemma_spaces_end(v@, 0);
            lemma_spaces_start(v@, v@.len() as int);
        }
        if end == start + 1 {
            let c = v[start];
            assert(trimmed(v@) =~= seq![c]);
            assert(seq!['y'][0] == 'y' && seq!['Y'][0] == 'Y');
            c == 'y' || c == 'Y'
        } else {
            assert(trimmed(v@).len() != 1);
            false
        }
    } else {
        assert(seq!['y'].len() == 1 && seq!['Y'].len() == 1);
        false
    }
}

} // verus!
