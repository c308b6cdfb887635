//! Text primitives shared by the parser and the formatters: white space,
//! tokens, joining, trimming, case folding and decimal numerals, each as a
//! function on sequences of characters with an executable counterpart.

use vstd::prelude::*;
use vstd::utf8::encode_utf8_decode_utf8;

verus! {

/// ASCII white space: space, tab, line feed, form feed and carriage return.
pub open spec fn is_space(c: char) -> bool {
    c == ' ' || c == '\t' || c == '\n' || c == '\x0C' || c == '\r'
}

/// Where the word that holds position `i` ends: the first position at or after
/// `i` that holds white space, or the length of `s` if there is none.
pub open spec fn word_end(s: Seq<char>, i: int) -> int
    decreases s.len() - i,
{
    if 0 <= i < s.len() && !is_space(s[i]) {
        word_end(s, i + 1)
    } else {
        i
    }
}

/// The maximal runs of characters other than white space that start at or
/// after position `i`, in order.
pub open spec fn tokens_from(s: Seq<char>, i: int) -> Seq<Seq<char>>
    decreases s.len() - i,
{
    if i < 0 || i >= s.len() {
        Seq::empty()
    } else if is_space(s[i]) {
        tokens_from(s, i + 1)
    } else {
        proof {
            lemma_word_end_bounds(s, i);
        }
        seq![s.subrange(i, word_end(s, i))] + tokens_from(s, word_end(s, i))
    }
}

/// A line split on runs of white space.
pub open spec fn tokens(s: Seq<char>) -> Seq<Seq<char>> {
    tokens_from(s, 0)
}

/// The parts with `sep` between each two neighbours.
pub open spec fn join(parts: Seq<Seq<char>>, sep: Seq<char>) -> Seq<char>
    decreases parts.len(),
{
    if parts.len() == 0 {
        Seq::empty()
    } else if parts.len() == 1 {
        parts[0]
    } else {
        join(parts.drop_last(), sep) + sep + parts.last()
    }
}

/// The ASCII upper-case form of a character; other characters are unchanged.
pub open spec fn upper(c: char) -> char {
    if 'a' <= c <= 'z' {
        ((c as u8) - 32) as char
    } else {
        c
    }
}

/// A text with each ASCII lower-case letter replaced by its upper-case form.
pub open spec fn to_upper(s: Seq<char>) -> Seq<char> {
    s.map_values(|c: char| upper(c))
}

/// `s` without its first character where that is `c`; `s` itself where it
/// is not.
pub open spec fn strip_one(s: Seq<char>, c: char) -> Seq<char> {
    if s.len() > 0 && s[0] == c {
        s.drop_first()
    } else {
        s
    }
}

/// `s` without its leading white space.
pub open spec fn trim_start(s: Seq<char>) -> Seq<char>
    decreases s.len(),
{
    if s.len() > 0 && is_space(s[0]) {
        trim_start(s.drop_first())
    } else {
        s
    }
}

/// `s` without its trailing white space.
pub open spec fn trim_end(s: Seq<char>) -> Seq<char>
    decreases s.len(),
{
    if s.len() > 0 && is_space(s.last()) {
        trim_end(s.drop_last())
    } else {
        s
    }
}

/// `s` without white space at either end.
pub open spec fn trim(s: Seq<char>) -> Seq<char> {
    trim_end(trim_start(s))
}

/// The character of a decimal digit.
pub open spec fn digit(d: int) -> char {
    (48 + d) as char
}

/// The decimal numeral of `n`, without leading zeros.
pub open spec fn decimal(n: nat) -> Seq<char>
    decreases n,
{
    if n < 10 {
        seq![digit(n as int)]
    } else {
        decimal(n / 10).push(digit((n % 10) as int))
    }
}

/// The numeral of `n` in exactly three digits, padded with zeros.
pub open spec fn three_digits(n: nat) -> Seq<char> {
    seq![digit((n / 100) as int), digit(((n / 10) % 10) as int), digit((n % 10) as int)]
}

/// The text of an optional string.
pub open spec fn opt_text(o: Option<String>) -> Option<Seq<char>> {
    match o {
        Some(s) => Some(s@),
        None => None,
    }
}

/// A word ends at or after the place it is asked from, within the text, on
/// white space or at the end, and holds no white space.
pub proof fn lemma_word_end_bounds(s: Seq<char>, i: int)
    requires
        0 <= i <= s.len(),
    ensures
        i <= word_end(s, i) <= s.len(),
        i < s.len() && !is_space(s[i]) ==> i < word_end(s, i),
        word_end(s, i) < s.len() ==> is_space(s[word_end(s, i)]),
        forall|j: int| i <= j < word_end(s, i) ==> !is_space(#[trigger] s[j]),
    decreases s.len() - i,
{
    if i < s.len() && !is_space(s[i]) {
        lemma_word_end_bounds(s, i + 1);
    }
}

/// A word: at least one character, none of them white space.
pub open spec fn is_word(t: Seq<char>) -> bool {
    t.len() > 0 && forall|j: int| 0 <= j < t.len() ==> !is_space(#[trigger] t[j])
}

/// Every token is a word.
pub proof fn lemma_tokens_are_words(s: Seq<char>, i: int)
    requires
        0 <= i <= s.len(),
    ensures
        forall|k: int|
            0 <= k < tokens_from(s, i).len() ==> is_word(#[trigger] tokens_from(s, i)[k]),
    decreases s.len() - i,
{
    if i < s.len() {
        if is_space(s[i]) {
            lemma_tokens_are_words(s, i + 1);
            assert(tokens_from(s, i) == tokens_from(s, i + 1));
        } else {
            lemma_word_end_bounds(s, i);
            lemma_tokens_are_words(s, word_end(s, i));
            let head = s.subrange(i, word_end(s, i));
            let rest = tokens_from(s, word_end(s, i));
            assert forall|k: int| 0 <= k < tokens_from(s, i).len() implies is_word(
                #[trigger] tokens_from(s, i)[k],
            ) by {
                if k == 0 {
                    assert(tokens_from(s, i)[k] == head);
                } else {
                    assert(tokens_from(s, i)[k] == rest[k - 1]);
                }
            }
        }
    }
}

/// Whether a character is ASCII white space.
pub fn is_space_char(c: char) -> (r: bool)
    ensures
        r == is_space(c),
{
    c == ' ' || c == '\t' || c == '\n' || c == '\x0C' || c == '\r'
}

/// The ASCII upper-case form of a character.
pub fn upper_char(c: char) -> (r: char)
    ensures
        r == upper(c),
{
    if c >= 'a' && c <= 'z' {
        let b: u8 = c as u8;
        (b - 32) as char
    } else {
        c
    }
}

/// The characters of a string slice, as a vector.
pub fn chars_of(s: &str) -> (v: Vec<char>)
    ensures
        v@ == s@,
{
    let mut v: Vec<char> = Vec::new();
    for c in it: s.chars()
        invariant
            v@ == it.seq().take(it.index() as int),
            it.seq() == s@,
    {
        v.push(c);
    }
    v
}

/// Whether two string slices hold the same characters.
pub fn same_text(a: &str, b: &str) -> (r: bool)
    ensures
        r == (a@ == b@),
{
    let x = a.as_bytes();
    let y = b.as_bytes();
    proof {
        encode_utf8_decode_utf8(a@);
        encode_utf8_decode_utf8(b@);
    }
    if x.len() != y.len() {
        return false;
    }
    let n = x.len();
    let mut i: usize = 0;
    while i < n
        invariant
            n == x@.len(),
            n == y@.len(),
            i <= n,
            x@ == vstd::utf8::encode_utf8(a@),
            y@ == vstd::utf8::encode_utf8(b@),
            forall|j: int| 0 <= j < i ==> x@[j] == y@[j],
        decreases n - i,
    {
        if x[i] != y[i] {
            return false;
        }
        i = i + 1;
    }
    assert(x@ =~= y@);
    true
}

/// Whether a text starts with the character `c`.
pub fn starts_with(s: &str, c: char) -> (r: bool)
    ensures
        r == (s@.len() > 0 && s@[0] == c),
{
    if s.is_empty() {
        false
    } else {
        s.get_char(0) == c
    }
}

/// Whether `word`, folded to upper case, reads `verb`.
pub fn upper_is(word: &str, verb: &str) -> (r: bool)
    ensures
        r == (to_upper(word@) == verb@),
{
    let w = chars_of(word);
    let v = chars_of(verb);
    if w.len() != v.len() {
        return false;
    }
    let n = w.len();
    let mut i: usize = 0;
    while i < n
        invariant
            w@ == word@,
            v@ == verb@,
            n == w.len(),
            n == v.len(),
            i <= n,
            forall|j: int| 0 <= j < i ==> upper(w@[j]) == v@[j],
        decreases n - i,
    {
        if upper_char(w[i]) != v[i] {
            return false;
        }
        i = i + 1;
    }
    assert(to_upper(word@) =~= verb@);
    true
}

/// A line split on runs of ASCII white space. Every token is a word: it has
/// at least one character, and none of them is white space.
pub fn split_tokens(input: &str) -> (out: Vec<String>)
    ensures
        out.deep_view() == tokens(input@),
        forall|k: int| 0 <= k < out.len() ==> is_word(#[trigger] out.deep_view()[k]),
{
    proof {
        lemma_tokens_are_words(input@, 0);
    }
    let chars = chars_of(input);
    let n = chars.len();
    let mut out: Vec<String> = Vec::new();
    let mut i: usize = 0;
    while i < n
        invariant
            chars@ == input@,
            n == chars.len(),
            i <= n,
            out.deep_view() + tokens_from(input@, i as int) == tokens(input@),
        decreases n - i,
    {
        if is_space_char(chars[i]) {
            i = i + 1;
        } else {
            let start = i;
            while i < n && !is_space_char(chars[i])
                invariant
                    chars@ == input@,
                    n == chars.len(),
                    start <= i <= n,
                    word_end(input@, i as int) == word_end(input@, start as int),
                decreases n - i,
            {
                i = i + 1;
            }
            let word = input.substring_char(start, i).to_owned();
            out.push(word);
        }
    }
    out
}

/// The parts from index `from` on, with `sep` between each two neighbours.
pub fn join_from(parts: &Vec<String>, from: usize, sep: &str) -> (out: String)
    requires
        from <= parts.len(),
    ensures
        out@ == join(parts.deep_view().skip(from as int), sep@),
{
    let mut out = String::new();
    let n = parts.len();
    let mut i: usize = from;
    let ghost all = parts.deep_view();
    while i < n
        invariant
            all == parts.deep_view(),
            n == parts.len(),
            from <= i <= n,
            out@ == join(all.subrange(from as int, i as int), sep@),
        decreases n - i,
    {
        if i > from {
            out.append(sep);
        }
        out.append(parts[i].as_str());
        proof {
            let next = all.subrange(from as int, i + 1);
            assert(next.drop_last() =~= all.subrange(from as int, i as int));
        }
        i = i + 1;
    }
    out
}

/// Copies of the parts from index `from` on.
pub fn words_from(parts: &Vec<String>, from: usize) -> (out: Vec<String>)
    requires
        from <= parts.len(),
    ensures
        out.deep_view() == parts.deep_view().skip(from as int),
{
    let mut out: Vec<String> = Vec::new();
    let n = parts.len();
    let mut i: usize = from;
    while i < n
        invariant
            n == parts.len(),
            from <= i <= n,
            out.deep_view() =~= parts.deep_view().subrange(from as int, i as int),
        decreases n - i,
    {
        let ghost before = out.deep_view();
        let word = parts[i].clone();
        out.push(word);
        assert(out.deep_view() =~= before.push(word@));
        i = i + 1;
    }
    out
}

/// A text without one leading colon and, after that, without white space at
/// either end.
pub fn strip_colon_and_trim(text: &str) -> (out: String)
    ensures
        out@ == trim(strip_one(text@, ':')),
{
    let chars = chars_of(text);
    let n = chars.len();
    let a: usize = if n > 0 && chars[0] == ':' {
        1
    } else {
        0
    };
    assert(strip_one(text@, ':') =~= text@.skip(a as int));
    let mut b: usize = a;
    while b < n && is_space_char(chars[b])
        invariant
            chars@ == text@,
            n == chars.len(),
            a <= b <= n,
            trim_start(text@.skip(a as int)) == trim_start(text@.skip(b as int)),
        decreases n - b,
    {
        proof {
            assert(text@.skip(b as int).drop_first() =~= text@.skip(b + 1));
        }
        b = b + 1;
    }
    let mut e: usize = n;
    while e > b && is_space_char(chars[e - 1])
        invariant
            chars@ == text@,
            n == chars.len(),
            b <= e <= n,
            trim_end(text@.skip(b as int)) == trim_end(text@.subrange(b as int, e as int)),
        decreases e - b,
    {
        proof {
            assert(text@.subrange(b as int, e as int).drop_last() =~= text@.subrange(
                b as int,
                e - 1,
            ));
        }
        e = e - 1;
    }
    text.substring_char(b, e).to_owned()
}

fn digit_str(d: u32) -> (s: &'static str)
    requires
        d < 10,
    ensures
        s@ == seq![digit(d as int)],
{
    proof {
        reveal_strlit("0");
        reveal_strlit("1");
        reveal_strlit("2");
        reveal_strlit("3");
        reveal_strlit("4");
        reveal_strlit("5");
        reveal_strlit("6");
        reveal_strlit("7");
        reveal_strlit("8");
        reveal_strlit("9");
    }
    if d == 0 {
        "0"
    } else if d == 1 {
        "1"
    } else if d == 2 {
        "2"
    } else if d == 3 {
        "3"
    } else if d == 4 {
        "4"
    } else if d == 5 {
        "5"
    } else if d == 6 {
        "6"
    } else if d == 7 {
        "7"
    } else if d == 8 {
        "8"
    } else {
        "9"
    }
}

/// Appends the decimal numeral of `n`.
pub fn push_decimal(out: &mut String, n: u32)
    ensures
        final(out)@ == old(out)@ + decimal(n as nat),
    decreases n,
{
    if n >= 10 {
        push_decimal(out, n / 10);
    }
    out.append(digit_str(n % 10));
}

/// Appends the numeral of `n` in exactly three digits.
pub fn push_three_digits(out: &mut String, n: u16)
    requires
        n < 1000,
    ensures
        final(out)@ == old(out)@ + three_digits(n as nat),
{
    let v: u32 = n as u32;
    out.append(digit_str(v / 100));
    out.append(digit_str((v / 10) % 10));
    out.append(digit_str(v % 10));
}

} // verus!
