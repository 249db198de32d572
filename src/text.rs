//! Whitespace: trimming a text and counting its words.
use vstd::prelude::*;

verus! {

/// Whether a character has the Unicode `White_Space` property
/// (`char::is_whitespace`): tab through carriage return, space, next line,
/// no-break space, ogham space mark, the spaces from en quad to hair space,
/// the line and paragraph separators, narrow no-break space, medium
/// mathematical space and ideographic space.
pub open spec fn is_unicode_whitespace(c: char) -> bool {
    let u = c as u32;
    ||| 0x09 <= u <= 0x0D
    ||| u == 0x20
    ||| u == 0x85
    ||| u == 0xA0
    ||| u == 0x1680
    ||| 0x2000 <= u <= 0x200A
    ||| u == 0x2028
    ||| u == 0x2029
    ||| u == 0x202F
    ||| u == 0x205F
    ||| u == 0x3000
}

pub fn char_is_whitespace(c: char) -> (r: bool)
    ensures
        r == is_unicode_whitespace(c),
{
    let u = c as u32;
    (0x09 <= u && u <= 0x0D) || u == 0x20 || u == 0x85 || u == 0xA0 || u == 0x1680 || (0x2000
        <= u && u <= 0x200A) || u == 0x2028 || u == 0x2029 || u == 0x202F || u == 0x205F || u
        == 0x3000
}

/// The text without its leading whitespace.
pub open spec fn trim_start(s: Seq<char>) -> Seq<char>
    decreases s.len(),
{
    if s.len() > 0 && is_unicode_whitespace(s[0]) {
        trim_start(s.drop_first())
    } else {
        s
    }
}

/// The text without its trailing whitespace.
pub open spec fn trim_end(s: Seq<char>) -> Seq<char>
    decreases s.len(),
{
    if s.len() > 0 && is_unicode_whitespace(s.last()) {
        trim_end(s.drop_last())
    } else {
        s
    }
}

/// The text without whitespace at either end (`str::trim`).
pub open spec fn trimmed(s: Seq<char>) -> Seq<char> {
    trim_end(trim_start(s))
}

/// The number of words: maximal runs of characters that are not whitespace
/// (what `split_whitespace` yields).
pub open spec fn word_count(s: Seq<char>) -> nat
    decreases s.len(),
{
    if s.len() == 0 {
        0
    } else {
        let starts_word = !is_unicode_whitespace(s.last()) && (s.len() == 1
            || is_unicode_whitespace(s[s.len() - 2]));
        word_count(s.drop_last()) + if starts_word {
            1nat
        } else {
            0nat
        }
    }
}

/// The text without whitespace at either end.
pub fn trim_text(s: &str) -> (r: &str)
    ensures
        r@ == trimmed(s@),
{
    let n = s.unicode_len();
    let mut a: usize = 0;
    assert(s@.subrange(0, n as int) =~= s@);
    while a < n && char_is_whitespace(s.get_char(a))
        invariant
            n == s@.len(),
            a <= n,
            trim_start(s@) == trim_start(s@.subrange(a as int, n as int)),
        decreases n - a,
    {
        assert(s@.subrange(a as int, n as int).drop_first() =~= s@.subrange(a + 1, n as int));
        a = a + 1;
    }
    let ghost rest = s@.subrange(a as int, n as int);
    assert(trim_start(rest) == rest) by {
        if a < n {
            assert(rest[0] == s@[a as int]);
        }
    }
    let mut b: usize = n;
    assert(rest.subrange(0, (b - a) as int) =~= rest);
    while b > a && char_is_whitespace(s.get_char(b - 1))
        invariant
            n == s@.len(),
            a <= b <= n,
            rest == s@.subrange(a as int, n as int),
            trim_end(rest) == trim_end(s@.subrange(a as int, b as int)),
        decreases b,
    {
        assert(s@.subrange(a as int, b as int).drop_last() =~= s@.subrange(a as int, b - 1));
        b = b - 1;
    }
    assert(trim_end(s@.subrange(a as int, b as int)) == s@.subrange(a as int, b as int)) by {
        if b > a {
            assert(s@.subrange(a as int, b as int).last() == s@[b - 1]);
        }
    }
    s.substring_char(a, b)
}

/// The number of words in a text: runs of characters that are not whitespace.
pub fn word_len(content: &str) -> (r: usize)
    ensures
        r == word_count(content@),
{
    let n = content.unicode_len();
    let mut count: usize = 0;
    let mut previous_is_space = true;
    let mut i: usize = 0;
    while i < n
        invariant
            n == content@.len(),
            i <= n,
            count == word_count(content@.subrange(0, i as int)),
            count <= i,
            i > 0 ==> previous_is_space == is_unicode_whitespace(content@[i - 1]),
            i == 0 ==> previous_is_space,
        decreases n - i,
    {
        let c = content.get_char(i);
        let is_space = char_is_whitespace(c);
        let ghost prefix = content@.subrange(0, i + 1);
        assert(prefix.drop_last() =~= content@.subrange(0, i as int));
        assert(prefix.last() == c);
        if i > 0 {
            assert(prefix[prefix.len() - 2] == content@[i - 1]);
        }
        if !is_space && previous_is_space {
            count = count + 1;
        }
        previous_is_space = is_space;
        i = i + 1;
    }
    assert(content@.subrange(0, n as int) =~= content@);
    count
}

} // verus!
