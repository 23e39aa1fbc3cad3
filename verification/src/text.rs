use vstd::prelude::*;
use vstd::string::*;

verus! {

/// The character that stands for the decimal digit `d`.
pub open spec fn digit_char(d: nat) -> char
    recommends
        d < 10,
{
    if d == 0 {
        '0'
    } else if d == 1 {
        '1'
    } else if d == 2 {
        '2'
    } else if d == 3 {
        '3'
    } else if d == 4 {
        '4'
    } else if d == 5 {
        '5'
    } else if d == 6 {
        '6'
    } else if d == 7 {
        '7'
    } else if d == 8 {
        '8'
    } else {
        '9'
    }
}

/// The decimal numeral of `n`, without sign and without leading zeros.
pub open spec fn decimal(n: nat) -> Seq<char>
    decreases n,
{
    if n < 10 {
        seq![digit_char(n)]
    } else {
        decimal(n / 10).push(digit_char(n % 10))
    }
}

/// The one-character string of the decimal digit `d`.
fn digit_str(d: u32) -> (s: &'static str)
    requires
        d < 10,
    ensures
        s@ == seq![digit_char(d as nat)],
{
    proof {
        reveal_strlit("0");
        reveal_strlit("1");
        reveal_strlit("2");
        reveal_strlit("3");
        reveal_strlit("4");
        reveal_strlit("5");
        reveal_strlit("6");
        reveal_strlit("7");
        reveal_strlit("8");
        reveal_strlit("9");
    }
    let s = if d == 0 {
        "0"
    } else if d == 1 {
        "1"
    } else if d == 2 {
        "2"
    } else if d == 3 {
        "3"
    } else if d == 4 {
        "4"
    } else if d == 5 {
        "5"
    } else if d == 6 {
        "6"
    } else if d == 7 {
        "7"
    } else if d == 8 {
        "8"
    } else {
        "9"
    };
    assert(s@ =~= seq![digit_char(d as nat)]);
    s
}

/// Writes `n` as a decimal numeral.
pub fn decimal_string(n: u32) -> (s: String)
    ensures
        s@ == decimal(n as nat),
    decreases n,
{
    if n < 10 {
        String::from_str(digit_str(n))
    } else {
        let mut s = decimal_string(n / 10);
        s.append(digit_str(n % 10));
        s
    }
}

/// Whether `c` is a whitespace, which is to have the Unicode property
/// `White_Space`, as `char::is_whitespace` tells it: the tab, the line
/// feed, the vertical tab, the form feed, the carriage return, the space, the
/// next-line control, the no-break space, the ogham space mark, the spaces
/// from the en quad to the hair space, the line and the paragraph separator,
/// the narrow no-break space, the medium mathematical space and the
/// ideographic space.
pub open spec fn is_whitespace(c: char) -> bool {
    let n = c as u32;
    ||| 0x09 <= n <= 0x0d
    ||| n == 0x20
    ||| n == 0x85
    ||| n == 0xa0
    ||| n == 0x1680
    ||| 0x2000 <= n <= 0x200a
    ||| n == 0x2028
    ||| n == 0x2029
    ||| n == 0x202f
    ||| n == 0x205f
    ||| n == 0x3000
}

/// Tells whether `c` is a whitespace, by its code point.
fn char_is_whitespace(c: char) -> (b: bool)
    ensures
        b == is_whitespace(c),
{
    let n: u32 = c as u32;
    (0x09 <= n && n <= 0x0d) || n == 0x20 || n == 0x85 || n == 0xa0 || n == 0x1680 || (0x2000 <= n
        && n <= 0x200a) || n == 0x2028 || n == 0x2029 || n == 0x202f || n == 0x205f || n == 0x3000
}

/// The number of characters from position `i` of `s` up to the next
/// whitespace, or up to the end where none follows.
pub open spec fn word_len(s: Seq<char>, i: int) -> nat
    decreases s.len() - i,
{
    if i < 0 || i >= s.len() || is_whitespace(s[i]) {
        0
    } else {
        1 + word_len(s, i + 1)
    }
}

/// The words of `s` that begin at position `i` or later, a word that spans
/// `i` counted from `i`.
pub open spec fn words_from(s: Seq<char>, i: int) -> Seq<Seq<char>>
    decreases s.len() - i,
    via words_from_decreases
{
    if i < 0 || i >= s.len() {
        Seq::empty()
    } else if is_whitespace(s[i]) {
        words_from(s, i + 1)
    } else {
        seq![s.subrange(i, i + word_len(s, i))] + words_from(s, i + word_len(s, i))
    }
}

#[via_fn]
proof fn words_from_decreases(s: Seq<char>, i: int) {
    if 0 <= i < s.len() && !is_whitespace(s[i]) {
        lemma_word_solid(s, i);
    }
}

/// The words of `s`: its longest runs of characters that are not whitespace,
/// from left to right.
pub open spec fn words(s: Seq<char>) -> Seq<Seq<char>> {
    words_from(s, 0)
}

/// What each string of `v` holds.
pub open spec fn views(v: Seq<String>) -> Seq<Seq<char>> {
    Seq::new(v.len(), |i: int| v[i]@)
}

/// A run without whitespace that ends before a whitespace, or at the end of
/// `s`, is a word of that length.
proof fn lemma_word_len(s: Seq<char>, i: int, e: int)
    requires
        0 <= i <= e <= s.len(),
        forall|k: int| i <= k < e ==> !is_whitespace(#[trigger] s[k]),
        e == s.len() || is_whitespace(s[e]),
    ensures
        word_len(s, i) == e - i,
    decreases e - i,
{
    if i < e {
        lemma_word_len(s, i + 1, e);
    }
}

/// Splits `s` at whitespace into its words.
pub fn split_words(s: &str) -> (out: Vec<String>)
    ensures
        views(out@) == words(s@),
        out@.len() == words(s@).len(),
{
    let n = s.unicode_len();
    let mut out: Vec<String> = Vec::new();
    let mut i: usize = 0;
    while i < n
        invariant
            n == s@.len(),
            i <= n,
            words(s@) == views(out@) + words_from(s@, i as int),
        decreases n - i,
    {
        let c = s.get_char(i);
        if char_is_whitespace(c) {
            i += 1;
        } else {
            let mut e: usize = i + 1;
            while e < n && !char_is_whitespace(s.get_char(e))
                invariant
                    n == s@.len(),
                    i < e <= n,
                    forall|k: int| i <= k < e ==> !is_whitespace(#[trigger] s@[k]),
                decreases n - e,
            {
                e += 1;
            }
            proof {
                lemma_word_len(s@, i as int, e as int);
            }
            let word = String::from_str(s.substring_char(i, e));
            let ghost before = out@;
            out.push(word);
            assert(views(out@) =~= views(before) + seq![s@.subrange(i as int, e as int)]);
            assert(views(before) + (seq![s@.subrange(i as int, e as int)] + words_from(
                s@,
                e as int,
            )) =~= views(out@) + words_from(s@, e as int));
            i = e;
        }
    }
    assert(views(out@) + Seq::<Seq<char>>::empty() =~= views(out@));
    out
}

/// Whether `w` could be a word: it is not empty and holds no whitespace.
pub open spec fn is_word(w: Seq<char>) -> bool {
    &&& w.len() > 0
    &&& forall|j: int| 0 <= j < w.len() ==> !is_whitespace(#[trigger] w[j])
}

/// No word is empty, and no word holds a whitespace.
pub proof fn lemma_words_are_solid(s: Seq<char>, i: int)
    ensures
        forall|k: int| 0 <= k < words_from(s, i).len() ==> is_word(#[trigger] words_from(s, i)[k]),
    decreases s.len() - i,
{
    if i < 0 || i >= s.len() {
        assert(words_from(s, i).len() == 0);
    } else if is_whitespace(s[i]) {
        lemma_words_are_solid(s, i + 1);
        assert(words_from(s, i) == words_from(s, i + 1));
    } else {
        let n = word_len(s, i);
        lemma_word_solid(s, i);
        lemma_words_are_solid(s, i + n);
        let rest = words_from(s, i + n);
        let first = s.subrange(i, i + n);
        assert(words_from(s, i) == seq![first] + rest);
        assert(is_word(first)) by {
            assert forall|j: int| 0 <= j < first.len() implies !is_whitespace(
                #[trigger] first[j],
            ) by {
                assert(first[j] == s[i + j]);
            }
        }
        assert forall|k: int| 0 <= k < words_from(s, i).len() implies is_word(
            #[trigger] words_from(s, i)[k],
        ) by {
            if k > 0 {
                assert(words_from(s, i)[k] == rest[k - 1]);
            } else {
                assert(words_from(s, i)[k] == first);
            }
        }
    }
}

/// The word that begins at `i` lies within `s` and holds no whitespace.
proof fn lemma_word_solid(s: Seq<char>, i: int)
    requires
        0 <= i < s.len(),
        !is_whitespace(s[i]),
    ensures
        1 <= word_len(s, i),
        i + word_len(s, i) <= s.len(),
        forall|k: int| i <= k < i + word_len(s, i) ==> !is_whitespace(#[trigger] s[k]),
    decreases s.len() - i,
{
    assert(word_len(s, i) == 1 + word_len(s, i + 1));
    if i + 1 < s.len() && !is_whitespace(s[i + 1]) {
        lemma_word_solid(s, i + 1);
    } else {
        assert(word_len(s, i + 1) == 0);
    }
}

} // verus!
