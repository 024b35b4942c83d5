//! Character-level text handling: Unicode whitespace, trimming, line and
//! word splitting, all stated over `Seq<char>` and implemented over the
//! characters of a `&str` held in a `Vec<char>`.
use vstd::prelude::*;
use vstd::string::StrSliceExecFns;

verus! {

/// The Unicode `White_Space` property (Unicode Character Database, PropList.txt).
pub open spec fn is_unicode_whitespace(c: char) -> bool {
    let x = c as u32;
    ||| (9 <= x && x <= 13)
    ||| x == 32
    ||| x == 0x85
    ||| x == 0xA0
    ||| x == 0x1680
    ||| (0x2000 <= x && x <= 0x200A)
    ||| x == 0x2028
    ||| x == 0x2029
    ||| x == 0x202F
    ||| x == 0x205F
    ||| x == 0x3000
}

/// Whether `c` has the Unicode `White_Space` property.
pub fn is_whitespace_char(c: char) -> (r: bool)
    ensures
        r == is_unicode_whitespace(c),
{
    let x = c as u32;
    (9 <= x && x <= 13) || x == 32 || x == 0x85 || x == 0xA0 || x == 0x1680 || (0x2000 <= x
        && x <= 0x200A) || x == 0x2028 || x == 0x2029 || x == 0x202F || x == 0x205F || x == 0x3000
}

/// The class of characters that a strip removes: the double quote when
/// `quote` holds, Unicode whitespace otherwise.
pub open spec fn in_strip_class(c: char, quote: bool) -> bool {
    if quote {
        c == '"'
    } else {
        is_unicode_whitespace(c)
    }
}

fn char_in_strip_class(c: char, quote: bool) -> (r: bool)
    ensures
        r == in_strip_class(c, quote),
{
    if quote {
        c == '"'
    } else {
        is_whitespace_char(c)
    }
}

/// `s` without its leading characters of the class.
pub open spec fn strip_start(s: Seq<char>, quote: bool) -> Seq<char>
    decreases s.len(),
{
    if s.len() > 0 && in_strip_class(s[0], quote) {
        strip_start(s.drop_first(), quote)
    } else {
        s
    }
}

/// `s` without its trailing characters of the class.
pub open spec fn strip_end(s: Seq<char>, quote: bool) -> Seq<char>
    decreases s.len(),
{
    if s.len() > 0 && in_strip_class(s.last(), quote) {
        strip_end(s.drop_last(), quote)
    } else {
        s
    }
}

/// `s` with leading and trailing characters of the class removed.
pub open spec fn strip_both(s: Seq<char>, quote: bool) -> Seq<char> {
    strip_end(strip_start(s, quote), quote)
}

/// `str::trim`: leading and trailing Unicode whitespace removed.
pub open spec fn trim(s: Seq<char>) -> Seq<char> {
    strip_both(s, false)
}

/// `str::trim_matches('"')`: leading and trailing double quotes removed.
pub open spec fn trim_quotes(s: Seq<char>) -> Seq<char> {
    strip_both(s, true)
}

/// The pieces of `s` between the line feeds, in order; there is always at
/// least one piece, and `k` line feeds give `k + 1` pieces.
pub open spec fn split_lines(s: Seq<char>) -> Seq<Seq<char>>
    decreases s.len(),
{
    if s.len() == 0 {
        seq![Seq::<char>::empty()]
    } else {
        let prev = split_lines(s.drop_last());
        if s.last() == '\n' {
            prev.push(Seq::<char>::empty())
        } else {
            prev.update(prev.len() - 1, prev.last().push(s.last()))
        }
    }
}

/// `str::split_whitespace`: the maximal runs of non-whitespace characters, in order.
pub open spec fn words(s: Seq<char>) -> Seq<Seq<char>>
    decreases s.len(),
{
    if s.len() == 0 {
        Seq::<Seq<char>>::empty()
    } else {
        let prev = words(s.drop_last());
        if is_unicode_whitespace(s.last()) {
            prev
        } else if s.len() >= 2 && !is_unicode_whitespace(s[s.len() - 2]) {
            prev.update(prev.len() - 1, prev.last().push(s.last()))
        } else {
            prev.push(seq![s.last()])
        }
    }
}

/// The index of the first occurrence of `c` in `s`, or -1 when there is none.
pub open spec fn index_of(s: Seq<char>, c: char) -> int {
    if exists|i: int| 0 <= i < s.len() && s[i] == c && (forall|j: int| 0 <= j < i ==> s[j] != c) {
        choose|i: int| 0 <= i < s.len() && s[i] == c && (forall|j: int| 0 <= j < i ==> s[j] != c)
    } else {
        -1
    }
}

/// Whether `s` begins with `prefix`.
pub open spec fn has_prefix(s: Seq<char>, prefix: Seq<char>) -> bool {
    prefix.len() <= s.len() && s.subrange(0, prefix.len() as int) == prefix
}

/// Stripping removes exactly the characters of the class around a text
/// whose first and last characters are outside the class: whatever of the
/// class surrounds it goes, and everything between stays, inner characters
/// of the class included.
pub proof fn lemma_strip_surrounding(w1: Seq<char>, t: Seq<char>, w2: Seq<char>, quote: bool)
    requires
        forall|i: int| 0 <= i < w1.len() ==> #[trigger] in_strip_class(w1[i], quote),
        forall|i: int| 0 <= i < w2.len() ==> #[trigger] in_strip_class(w2[i], quote),
        t.len() == 0 || (!in_strip_class(t[0], quote) && !in_strip_class(t.last(), quote)),
        t.len() > 0 || w2.len() == 0,
    ensures
        strip_both(w1 + t + w2, quote) == t,
{
    lemma_strip_start_skips(w1, t + w2, quote);
    assert(w1 + t + w2 =~= w1 + (t + w2));
    if t.len() > 0 {
        assert((t + w2)[0] == t[0]);
    }
    assert(strip_start(t + w2, quote) == t + w2);
    lemma_strip_end_skips(t, w2, quote);
    if t.len() > 0 {
        assert(strip_end(t, quote) == t);
    }
}

/// Leading characters of the class are skipped.
proof fn lemma_strip_start_skips(w: Seq<char>, x: Seq<char>, quote: bool)
    requires
        forall|i: int| 0 <= i < w.len() ==> #[trigger] in_strip_class(w[i], quote),
    ensures
        strip_start(w + x, quote) == strip_start(x, quote),
    decreases w.len(),
{
    if w.len() == 0 {
        assert(w + x =~= x);
    } else {
        assert((w + x)[0] == w[0]);
        assert((w + x).drop_first() =~= w.drop_first() + x);
        assert forall|i: int| 0 <= i < w.drop_first().len() implies #[trigger] in_strip_class(
            w.drop_first()[i],
            quote,
        ) by {
            assert(w.drop_first()[i] == w[i + 1]);
        }
        lemma_strip_start_skips(w.drop_first(), x, quote);
    }
}

/// Trailing characters of the class are skipped.
proof fn lemma_strip_end_skips(x: Seq<char>, w: Seq<char>, quote: bool)
    requires
        forall|i: int| 0 <= i < w.len() ==> #[trigger] in_strip_class(w[i], quote),
    ensures
        strip_end(x + w, quote) == strip_end(x, quote),
    decreases w.len(),
{
    if w.len() == 0 {
        assert(x + w =~= x);
    } else {
        assert((x + w).last() == w.last());
        assert(in_strip_class(w[w.len() - 1], quote));
        assert((x + w).drop_last() =~= x + w.drop_last());
        assert forall|i: int| 0 <= i < w.drop_last().len() implies #[trigger] in_strip_class(
            w.drop_last()[i],
            quote,
        ) by {
            assert(w.drop_last()[i] == w[i]);
        }
        lemma_strip_end_skips(x, w.drop_last(), quote);
    }
}

/// The first occurrence of `c` is where `c` stands with no `c` before it.
pub proof fn lemma_index_of_first(s: Seq<char>, c: char, p: int)
    requires
        0 <= p < s.len(),
        s[p] == c,
        forall|j: int| 0 <= j < p ==> s[j] != c,
    ensures
        index_of(s, c) == p,
{
    assert(0 <= p < s.len() && s[p] == c && (forall|j: int| 0 <= j < p ==> s[j] != c));
    let i = index_of(s, c);
    if i < p {
        assert(s[i] != c);
    }
}

/// The characters of `s`, one per element.
pub fn str_chars(s: &str) -> (r: Vec<char>)
    ensures
        r@ == s@,
{
    let n = s.unicode_len();
    let mut v: Vec<char> = Vec::new();
    let mut i: usize = 0;
    while i < n
        invariant
            n == s@.len(),
            i <= n,
            v@ == s@.subrange(0, i as int),
        decreases n - i,
    {
        let c = s.get_char(i);
        v.push(c);
        i = i + 1;
        assert(v@ =~= s@.subrange(0, i as int));
    }
    assert(v@ =~= s@);
    v
}

/// The bounds of `chars[lo..hi]` once the characters of the class are
/// stripped from both ends.
pub fn strip_range(chars: &Vec<char>, lo: usize, hi: usize, quote: bool) -> (r: (usize, usize))
    requires
        lo <= hi <= chars.len(),
    ensures
        lo <= r.0 <= r.1 <= hi,
        chars@.subrange(r.0 as int, r.1 as int) == strip_both(
            chars@.subrange(lo as int, hi as int),
            quote,
        ),
{
    let mut a = lo;
    while a < hi && char_in_strip_class(chars[a], quote)
        invariant
            lo <= a <= hi <= chars.len(),
            strip_start(chars@.subrange(lo as int, hi as int), quote) == strip_start(
                chars@.subrange(a as int, hi as int),
                quote,
            ),
        decreases hi - a,
    {
        assert(chars@.subrange(a as int, hi as int).drop_first() =~= chars@.subrange(
            a + 1,
            hi as int,
        ));
        a = a + 1;
    }
    assert(strip_start(chars@.subrange(a as int, hi as int), quote) == chars@.subrange(
        a as int,
        hi as int,
    ));
    let mut b = hi;
    while b > a && char_in_strip_class(chars[b - 1], quote)
        invariant
            lo <= a <= b <= hi <= chars.len(),
            strip_end(chars@.subrange(a as int, hi as int), quote) == strip_end(
                chars@.subrange(a as int, b as int),
                quote,
            ),
        decreases b - a,
    {
        assert(chars@.subrange(a as int, b as int).drop_last() =~= chars@.subrange(
            a as int,
            b - 1,
        ));
        b = b - 1;
    }
    (a, b)
}

/// The first index in `chars[lo..hi]` that holds `c`, as an index into `chars`.
pub fn find_char(chars: &Vec<char>, lo: usize, hi: usize, c: char) -> (r: Option<usize>)
    requires
        lo <= hi <= chars.len(),
    ensures
        match r {
            Some(p) => lo <= p < hi && index_of(chars@.subrange(lo as int, hi as int), c) == p
                - lo,
            None => index_of(chars@.subrange(lo as int, hi as int), c) == -1,
        },
{
    let ghost s = chars@.subrange(lo as int, hi as int);
    let mut p = lo;
    while p < hi
        invariant
            lo <= p <= hi <= chars.len(),
            s == chars@.subrange(lo as int, hi as int),
            forall|j: int| 0 <= j < p - lo ==> s[j] != c,
        decreases hi - p,
    {
        if chars[p] == c {
            let ghost k = p - lo;
            assert(s[k] == c);
            assert(0 <= k < s.len() && s[k] == c && (forall|j: int| 0 <= j < k ==> s[j] != c));
            let ghost i = index_of(s, c);
            assert(i == k) by {
                if i < k {
                    assert(s[i] != c);
                } else if i > k {
                }
            }
            return Some(p);
        }
        p = p + 1;
    }
    assert(!(exists|i: int|
        0 <= i < s.len() && s[i] == c && (forall|j: int| 0 <= j < i ==> s[j] != c)));
    None
}

/// Whether `chars[lo..hi]` equals the text `lit`.
pub fn range_eq_str(chars: &Vec<char>, lo: usize, hi: usize, lit: &str) -> (r: bool)
    requires
        lo <= hi <= chars.len(),
    ensures
        r == (chars@.subrange(lo as int, hi as int) == lit@),
{
    let n = lit.unicode_len();
    if hi - lo != n {
        return false;
    }
    let mut k: usize = 0;
    while k < n
        invariant
            lo <= hi <= chars.len(),
            hi - lo == n,
            n == lit@.len(),
            k <= n,
            forall|j: int| 0 <= j < k ==> chars@[lo + j] == lit@[j],
        decreases n - k,
    {
        if chars[lo + k] != lit.get_char(k) {
            assert(chars@.subrange(lo as int, hi as int)[k as int] != lit@[k as int]);
            return false;
        }
        k = k + 1;
    }
    assert(chars@.subrange(lo as int, hi as int) =~= lit@);
    true
}

/// Whether `chars[lo..hi]` begins with the text `lit`.
pub fn range_starts_with(chars: &Vec<char>, lo: usize, hi: usize, lit: &str) -> (r: bool)
    requires
        lo <= hi <= chars.len(),
    ensures
        r == has_prefix(chars@.subrange(lo as int, hi as int), lit@),
{
    let n = lit.unicode_len();
    if hi - lo < n {
        return false;
    }
    let r = range_eq_str(chars, lo, lo + n, lit);
    assert(chars@.subrange(lo as int, hi as int).subrange(0, n as int) =~= chars@.subrange(
        lo as int,
        lo + n,
    ));
    r
}

/// The words of `text[lo..hi]`, where `chars` holds the characters of `text`.
pub fn split_whitespace_range(text: &str, chars: &Vec<char>, lo: usize, hi: usize) -> (r: Vec<
    String,
>)
    requires
        chars@ == text@,
        lo <= hi <= chars.len(),
    ensures
        r@.map_values(|w: String| w@) == words(chars@.subrange(lo as int, hi as int)),
{
    let mut done: Vec<String> = Vec::new();
    let mut in_word = false;
    let mut word_start = lo;
    let mut i = lo;
    while i < hi
        invariant
            chars@ == text@,
            lo <= word_start <= i <= hi <= chars.len(),
            in_word ==> word_start < i && !is_unicode_whitespace(chars@[i - 1])
                && words(chars@.subrange(lo as int, i as int)) == done@.map_values(
                |w: String| w@,
            ).push(chars@.subrange(word_start as int, i as int)),
            !in_word ==> (i == lo || is_unicode_whitespace(chars@[i - 1])) && words(
                chars@.subrange(lo as int, i as int),
            ) == done@.map_values(|w: String| w@),
        decreases hi - i,
    {
        let c = chars[i];
        let ghost prev_s = chars@.subrange(lo as int, i as int);
        let ghost s = chars@.subrange(lo as int, i + 1);
        assert(s.drop_last() =~= prev_s);
        assert(s.last() == c);
        if is_whitespace_char(c) {
            if in_word {
                let w = text.substring_char(word_start, i).to_owned();
                let ghost old_done = done@;
                done.push(w);
                assert(done@.map_values(|w: String| w@) =~= old_done.map_values(|w: String| w@).push(
                    chars@.subrange(word_start as int, i as int),
                ));
                in_word = false;
            }
        } else {
            if in_word {
                assert(s[s.len() - 2] == chars@[i - 1]);
                assert(chars@.subrange(word_start as int, i as int).push(c) =~= chars@.subrange(
                    word_start as int,
                    i + 1,
                ));
                assert(words(s) =~= done@.map_values(|w: String| w@).push(
                    chars@.subrange(word_start as int, i + 1),
                ));
            } else {
                if i > lo {
                    assert(s[s.len() - 2] == chars@[i - 1]);
                }
                assert(seq![c] =~= chars@.subrange(i as int, i + 1));
                word_start = i;
                in_word = true;
            }
        }
        i = i + 1;
    }
    if in_word {
        let w = text.substring_char(word_start, hi).to_owned();
        let ghost old_done = done@;
        done.push(w);
        assert(done@.map_values(|w: String| w@) =~= old_done.map_values(|w: String| w@).push(
            chars@.subrange(word_start as int, hi as int),
        ));
    }
    done
}

/// Whether the text `s` equals the text `lit`.
pub fn str_eq(s: &str, lit: &str) -> (r: bool)
    ensures
        r == (s@ == lit@),
{
    let chars = str_chars(s);
    let r = range_eq_str(&chars, 0, chars.len(), lit);
    assert(chars@.subrange(0, chars.len() as int) =~= s@);
    r
}

} // verus!
