//! White space, words and prefixes of a line of text.
use vstd::prelude::*;
use vstd::string::*;

verus! {

/// `true` if `c` has Unicode's property `White_Space`.
pub open spec fn is_space(c: char) -> bool {
    let n = c as u32;
    ||| 0x9 <= n <= 0xd
    ||| n == 0x20
    ||| n == 0x85
    ||| n == 0xa0
    ||| n == 0x1680
    ||| 0x2000 <= n <= 0x200a
    ||| n == 0x2028
    ||| n == 0x2029
    ||| n == 0x202f
    ||| n == 0x205f
    ||| n == 0x3000
}

/// `c` in lower case if it is an ASCII letter.
pub open spec fn lower_char(c: char) -> char {
    if 'A' <= c <= 'Z' {
        ((c as u32) + 32) as char
    } else {
        c
    }
}

/// `s` with its ASCII letters in lower case.
pub open spec fn lower(s: Seq<char>) -> Seq<char> {
    s.map_values(|c: char| lower_char(c))
}

/// `s` from its first character that is no white space.
pub open spec fn trim_start(s: Seq<char>) -> Seq<char>
    decreases s.len(),
{
    if s.len() > 0 && is_space(s[0]) {
        trim_start(s.skip(1))
    } else {
        s
    }
}

/// `s` up to its last character that is no white space.
pub open spec fn trim_end(s: Seq<char>) -> Seq<char>
    decreases s.len(),
{
    if s.len() > 0 && is_space(s.last()) {
        trim_end(s.drop_last())
    } else {
        s
    }
}

/// `s` without white space at its two ends.
pub open spec fn trimmed(s: Seq<char>) -> Seq<char> {
    trim_end(trim_start(s))
}

/// How many characters stand in front of the first white space.
pub open spec fn word_len(s: Seq<char>) -> nat
    decreases s.len(),
{
    if s.len() > 0 && !is_space(s[0]) {
        1 + word_len(s.skip(1))
    } else {
        0
    }
}

/// The words of `s`: what stands between white space.
pub open spec fn words(s: Seq<char>) -> Seq<Seq<char>>
    decreases s.len(),
{
    if s.len() == 0 {
        Seq::empty()
    } else if is_space(s[0]) {
        words(s.skip(1))
    } else {
        proof {
            lemma_word_len(s);
        }
        seq![s.take(word_len(s) as int)] + words(s.skip(word_len(s) as int))
    }
}

/// Where `pattern` first occurs in `s`, at `from` or behind it.
pub open spec fn first_from(s: Seq<char>, pattern: Seq<char>, from: nat) -> Option<nat>
    decreases s.len() + 1 - from,
{
    if from + pattern.len() > s.len() {
        None
    } else if s.subrange(from as int, (from + pattern.len()) as int) == pattern {
        Some(from)
    } else {
        first_from(s, pattern, from + 1)
    }
}

/// What stands behind `prefix`, if `s` starts with it.
pub open spec fn after_prefix(s: Seq<char>, prefix: Seq<char>) -> Option<Seq<char>> {
    if prefix.len() <= s.len() && s.take(prefix.len() as int) == prefix {
        Some(s.skip(prefix.len() as int))
    } else {
        None
    }
}

/// Runs `str::to_ascii_lowercase`: the letters from `A` to `Z` become those from `a`
/// to `z`, and no other character changes.
pub assume_specification[ str::to_ascii_lowercase ](s: &str) -> (r: String)
    ensures
        r@ == lower(s@),
;

/// Whether `c` is white space.
pub fn is_white_space(c: char) -> (r: bool)
    ensures
        r == is_space(c),
{
    let n: u32 = c as u32;
    (0x9 <= n && n <= 0xd) || n == 0x20 || n == 0x85 || n == 0xa0 || n == 0x1680 || (0x2000 <= n
        && n <= 0x200a) || n == 0x2028 || n == 0x2029 || n == 0x202f || n == 0x205f || n == 0x3000
}

/// Whether two texts are the same.
pub fn same_text(a: &str, b: &str) -> (r: bool)
    ensures
        r == (a@ == b@),
{
    let n: usize = a.unicode_len();
    if n != b.unicode_len() {
        return false;
    }
    let mut i: usize = 0;
    while i < n
        invariant
            i <= n,
            n == a@.len(),
            n == b@.len(),
            forall|j: int| 0 <= j < i ==> a@[j] == b@[j],
        decreases n - i,
    {
        if a.get_char(i) != b.get_char(i) {
            return false;
        }
        i += 1;
    }
    assert(a@ =~= b@);
    true
}

/// The text without white space at its two ends.
pub fn trim(s: &str) -> (r: &str)
    ensures
        r@ == trimmed(s@),
{
    let n: usize = s.unicode_len();
    let mut from: usize = 0;
    assert(s@.skip(0) =~= s@);
    while from < n && is_white_space(s.get_char(from))
        invariant
            from <= n,
            n == s@.len(),
            trim_start(s@.skip(from as int)) == trim_start(s@),
        decreases n - from,
    {
        assert(s@.skip(from as int).skip(1) =~= s@.skip(from + 1));
        from += 1;
    }
    assert(trim_start(s@) == s@.skip(from as int));
    let mut to: usize = n;
    assert(s@.subrange(from as int, n as int) =~= s@.skip(from as int));
    while from < to && is_white_space(s.get_char(to - 1))
        invariant
            from <= to <= n,
            n == s@.len(),
            trim_end(s@.subrange(from as int, to as int)) == trimmed(s@),
        decreases to,
    {
        assert(s@.subrange(from as int, to as int).drop_last() =~= s@.subrange(
            from as int,
            to - 1,
        ));
        to -= 1;
    }
    s.substring_char(from, to)
}

/// The texts of a list.
pub open spec fn texts(list: Seq<String>) -> Seq<Seq<char>> {
    list.map_values(|s: String| s@)
}

/// The words of a text.
pub fn split_words(s: &str) -> (r: Vec<String>)
    ensures
        texts(r@) == words(s@),
{
    let n: usize = s.unicode_len();
    let mut list: Vec<String> = Vec::new();
    let mut i: usize = 0;
    assert(s@.skip(0) =~= s@);
    assert(texts(list@) + words(s@) =~= words(s@));
    while i < n
        invariant
            i <= n,
            n == s@.len(),
            texts(list@) + words(s@.skip(i as int)) == words(s@),
        decreases n - i,
    {
        let ghost rest = s@.skip(i as int);
        if is_white_space(s.get_char(i)) {
            assert(rest.skip(1) =~= s@.skip(i + 1));
            i += 1;
        } else {
            let mut j: usize = i;
            assert(rest =~= s@.skip(j as int));
            while j < n && !is_white_space(s.get_char(j))
                invariant
                    i <= j <= n,
                    n == s@.len(),
                    word_len(s@.skip(i as int)) == (j - i) + word_len(s@.skip(j as int)),
                decreases n - j,
            {
                assert(s@.skip(j as int).skip(1) =~= s@.skip(j + 1));
                j += 1;
            }
            assert(word_len(rest) == j - i);
            assert(j > i) by {
                assert(rest[0] == s@[i as int]);
            }
            let word: &str = s.substring_char(i, j);
            let ghost before = texts(list@);
            list.push(word.to_owned());
            proof {
                assert(word@ =~= rest.take(j - i));
                assert(texts(list@) =~= before.push(word@));
                assert(rest.skip(j - i) =~= s@.skip(j as int));
                assert(texts(list@) + words(s@.skip(j as int)) =~= before + words(rest));
            }
            i = j;
        }
    }
    assert(s@.skip(n as int) =~= Seq::<char>::empty());
    assert(texts(list@) =~= words(s@));
    list
}

/// Where `pattern` first occurs in `s`, counted in characters.
pub fn find(s: &str, pattern: &str) -> (r: Option<usize>)
    ensures
        match (r, first_from(s@, pattern@, 0)) {
            (Some(i), Some(j)) => i == j,
            (None, None) => true,
            _ => false,
        },
{
    let n: usize = s.unicode_len();
    let m: usize = pattern.unicode_len();
    if m > n {
        return None;
    }
    let mut i: usize = 0;
    loop
        invariant
            m <= n,
            i <= n - m,
            n == s@.len(),
            m == pattern@.len(),
            first_from(s@, pattern@, 0) == first_from(s@, pattern@, i as nat),
        decreases n - i,
    {
        if same_text(s.substring_char(i, i + m), pattern) {
            return Some(i);
        }
        if i == n - m {
            assert(first_from(s@, pattern@, (i + 1) as nat) is None);
            return None;
        }
        i += 1;
    }
}

/// What stands behind `prefix`, if `s` starts with it.
pub fn strip_prefix<'a>(s: &'a str, prefix: &str) -> (r: Option<&'a str>)
    ensures
        match (r, after_prefix(s@, prefix@)) {
            (Some(a), Some(b)) => a@ == b,
            (None, None) => true,
            _ => false,
        },
{
    let n: usize = s.unicode_len();
    let m: usize = prefix.unicode_len();
    if m > n {
        return None;
    }
    let start: &str = s.substring_char(0, m);
    assert(start@ =~= s@.take(m as int));
    if same_text(start, prefix) {
        let rest: &str = s.substring_char(m, n);
        assert(rest@ =~= s@.skip(m as int));
        Some(rest)
    } else {
        None
    }
}

/// A text without white space in front has none in front any more.
proof fn lemma_trim_start(s: Seq<char>)
    ensures
        trim_start(s).len() > 0 ==> !is_space(trim_start(s)[0]),
        trim_start(s).len() <= s.len(),
    decreases s.len(),
{
    if s.len() > 0 && is_space(s[0]) {
        lemma_trim_start(s.skip(1));
    }
}

/// What `trim_end` leaves is a prefix that does not end in white space.
proof fn lemma_trim_end(s: Seq<char>)
    ensures
        trim_end(s).len() > 0 ==> !is_space(trim_end(s).last()),
        trim_end(s).len() <= s.len(),
        trim_end(s) == s.take(trim_end(s).len() as int),
    decreases s.len(),
{
    if s.len() > 0 && is_space(s.last()) {
        lemma_trim_end(s.drop_last());
        let k = trim_end(s).len() as int;
        assert(s.drop_last().take(k) =~= s.take(k));
    } else {
        assert(s.take(s.len() as int) =~= s);
    }
}

/// A trimmed text neither starts nor ends with white space.
pub proof fn trimmed_has_no_margins(s: Seq<char>)
    ensures
        trimmed(s).len() > 0 ==> !is_space(trimmed(s)[0]) && !is_space(trimmed(s).last()),
{
    lemma_trim_start(s);
    lemma_trim_end(trim_start(s));
}

/// To trim twice is to trim once.
pub proof fn trimming_is_idempotent(s: Seq<char>)
    ensures
        trimmed(trimmed(s)) == trimmed(s),
{
    trimmed_has_no_margins(s);
}

/// To lower a character keeps whether it is white space, and to lower it twice is to
/// lower it once.
proof fn lemma_lower_char(c: char)
    ensures
        is_space(lower_char(c)) == is_space(c),
        lower_char(lower_char(c)) == lower_char(c),
{
}

proof fn lemma_lower_trim_start(s: Seq<char>)
    ensures
        trim_start(lower(s)) == lower(trim_start(s)),
    decreases s.len(),
{
    if s.len() > 0 {
        lemma_lower_char(s[0]);
        if is_space(s[0]) {
            lemma_lower_trim_start(s.skip(1));
            assert(lower(s).skip(1) =~= lower(s.skip(1)));
        }
    }
}

proof fn lemma_lower_trim_end(s: Seq<char>)
    ensures
        trim_end(lower(s)) == lower(trim_end(s)),
    decreases s.len(),
{
    if s.len() > 0 {
        lemma_lower_char(s.last());
        if is_space(s.last()) {
            lemma_lower_trim_end(s.drop_last());
            assert(lower(s).drop_last() =~= lower(s.drop_last()));
        }
    }
}

/// It is the same to lower a text and to trim it, in either order, and to lower it
/// twice is to lower it once.
pub proof fn lowering_keeps_margins(s: Seq<char>)
    ensures
        trimmed(lower(s)) == lower(trimmed(s)),
        lower(lower(s)) == lower(s),
{
    lemma_lower_trim_start(s);
    lemma_lower_trim_end(trim_start(s));
    assert forall|i: int| 0 <= i < s.len() implies #[trigger] lower(lower(s))[i] == lower(
        s,
    )[i] by {
        lemma_lower_char(s[i]);
    }
    assert(lower(lower(s)) =~= lower(s));
}

/// There is white space behind a word that does not reach the end.
pub proof fn lemma_word_len(s: Seq<char>)
    ensures
        word_len(s) <= s.len(),
        word_len(s) < s.len() ==> is_space(s[word_len(s) as int]),
        s.len() > 0 && !is_space(s[0]) ==> word_len(s) > 0,
    decreases s.len(),
{
    if s.len() > 0 && !is_space(s[0]) {
        lemma_word_len(s.skip(1));
    }
}

/// A text that ends with a character that is no white space has a word.
proof fn lemma_last_word(s: Seq<char>)
    requires
        s.len() > 0,
        !is_space(s.last()),
    ensures
        words(s).len() > 0,
    decreases s.len(),
{
    if is_space(s[0]) {
        assert(s.skip(1).last() == s.last());
        lemma_last_word(s.skip(1));
    }
}

/// A trimmed text with fewer than two words is empty or is its only word.
pub proof fn single_words_are_whole(s: Seq<char>)
    ensures
        words(trimmed(s)).len() == 0 ==> trimmed(s) == Seq::<char>::empty(),
        words(trimmed(s)).len() == 1 ==> words(trimmed(s))[0] == trimmed(s),
{
    trimmed_has_no_margins(s);
    let t = trimmed(s);
    if t.len() > 0 {
        lemma_word_len(t);
        let n = word_len(t) as int;
        if n < t.len() {
            assert(t.skip(n).last() == t.last());
            lemma_last_word(t.skip(n));
        } else {
            assert(t.take(n) =~= t);
            assert(t.skip(n) =~= Seq::<char>::empty());
        }
    } else {
        assert(t =~= Seq::<char>::empty());
    }
}

proof fn lemma_trim_start_cut(s: Seq<char>) -> (i: int)
    ensures
        0 <= i <= s.len(),
        trim_start(s) == s.skip(i),
        forall|k: int| 0 <= k < i ==> is_space(#[trigger] s[k]),
    decreases s.len(),
{
    if s.len() > 0 && is_space(s[0]) {
        let i = lemma_trim_start_cut(s.skip(1));
        assert(s.skip(1).skip(i) =~= s.skip(i + 1));
        assert forall|k: int| 0 <= k < i + 1 implies is_space(#[trigger] s[k]) by {
            if k > 0 {
                assert(s.skip(1)[k - 1] == s[k]);
            }
        }
        i + 1
    } else {
        assert(s.skip(0) =~= s);
        0
    }
}

proof fn lemma_trim_end_cut(s: Seq<char>)
    ensures
        trim_end(s).len() <= s.len(),
        trim_end(s) == s.take(trim_end(s).len() as int),
        forall|k: int| trim_end(s).len() <= k < s.len() ==> is_space(#[trigger] s[k]),
    decreases s.len(),
{
    lemma_trim_end(s);
    if s.len() > 0 && is_space(s.last()) {
        lemma_trim_end_cut(s.drop_last());
        assert forall|k: int| trim_end(s).len() <= k < s.len() implies is_space(
            #[trigger] s[k],
        ) by {
            if k < s.len() - 1 {
                assert(s.drop_last()[k] == s[k]);
            }
        }
    }
}

/// Trimming cuts off white space at the two ends and nothing else: what is left is a
/// part of the text, and everything before and behind that part is white space.
pub proof fn trimming_cuts_white_space_alone(s: Seq<char>)
    ensures
        exists|i: int|
            0 <= i && i + trimmed(s).len() <= s.len() && trimmed(s) == #[trigger] s.subrange(
                i,
                i + trimmed(s).len(),
            ) && (forall|k: int| 0 <= k < i ==> is_space(#[trigger] s[k])) && (forall|k: int|
                i + trimmed(s).len() <= k < s.len() ==> is_space(#[trigger] s[k])),
{
    let i = lemma_trim_start_cut(s);
    let t = trim_start(s);
    lemma_trim_end_cut(t);
    let n = trimmed(s).len() as int;
    assert(trimmed(s) =~= s.subrange(i, i + n));
    assert forall|k: int| i + n <= k < s.len() implies is_space(#[trigger] s[k]) by {
        assert(t[k - i] == s[k]);
    }
}

/// A text that does not start with white space starts with what trimming leaves of it.
pub proof fn lemma_trimmed_front(s: Seq<char>)
    requires
        s.len() > 0,
        !is_space(s[0]),
    ensures
        0 < trimmed(s).len() <= s.len(),
        trimmed(s) == s.take(trimmed(s).len() as int),
{
    lemma_trim_end_cut(s);
    if trim_end(s).len() == 0 {
        assert(is_space(s[0]));
    }
}

/// White space separates words: the words of a text with white space in it are those
/// before it and then those behind it.
pub proof fn white_space_separates_words(a: Seq<char>, c: char, b: Seq<char>)
    requires
        is_space(c),
    ensures
        words(a.push(c) + b) == words(a) + words(b),
    decreases a.len(),
{
    let s = a.push(c) + b;
    if a.len() == 0 {
        assert(s.skip(1) =~= b);
        assert(words(a) + words(b) =~= words(b));
    } else if is_space(a[0]) {
        assert(s.skip(1) =~= a.skip(1).push(c) + b);
        white_space_separates_words(a.skip(1), c, b);
    } else {
        lemma_word_len(a);
        lemma_word_len_before_space(a, c, b);
        let n = word_len(a) as int;
        assert(s.take(n) =~= a.take(n));
        assert(s.skip(n) =~= a.skip(n).push(c) + b);
        white_space_separates_words(a.skip(n), c, b);
        assert(words(s) =~= seq![a.take(n)] + words(s.skip(n)));
        assert(words(s) =~= words(a) + words(b));
    }
}

proof fn lemma_word_len_before_space(a: Seq<char>, c: char, b: Seq<char>)
    requires
        is_space(c),
    ensures
        word_len(a.push(c) + b) == word_len(a),
    decreases a.len(),
{
    let s = a.push(c) + b;
    if a.len() > 0 && !is_space(a[0]) {
        assert(s.skip(1) =~= a.skip(1).push(c) + b);
        lemma_word_len_before_space(a.skip(1), c, b);
    }
}

proof fn lemma_word_len_whole(s: Seq<char>)
    requires
        forall|k: int| 0 <= k < s.len() ==> !is_space(#[trigger] s[k]),
    ensures
        word_len(s) == s.len(),
    decreases s.len(),
{
    if s.len() > 0 {
        assert forall|k: int| 0 <= k < s.skip(1).len() implies !is_space(
            #[trigger] s.skip(1)[k],
        ) by {
            assert(s.skip(1)[k] == s[k + 1]);
        }
        lemma_word_len_whole(s.skip(1));
    }
}

/// A text without white space is one word, and an empty text has none.
pub proof fn text_without_white_space_is_one_word(s: Seq<char>)
    requires
        forall|k: int| 0 <= k < s.len() ==> !is_space(#[trigger] s[k]),
    ensures
        s.len() > 0 ==> words(s) == seq![s],
        s.len() == 0 ==> words(s).len() == 0,
{
    if s.len() > 0 {
        lemma_word_len_whole(s);
        let n = s.len() as int;
        assert(s.take(n) =~= s);
        assert(s.skip(n) =~= Seq::<char>::empty());
        assert(words(s.skip(n)) =~= Seq::<Seq<char>>::empty());
        assert(!is_space(s[0]));
        assert(words(s) == seq![s.take(n)] + words(s.skip(n)));
        assert(words(s) =~= seq![s]);
    }
}

/// What stands behind a prefix is the rest of the text, and a text without the prefix has
/// nothing behind it.
pub proof fn prefix_and_rest_make_the_text(s: Seq<char>, prefix: Seq<char>, rest: Seq<char>)
    ensures
        after_prefix(prefix + rest, prefix) == Some(rest),
        after_prefix(s, prefix) matches Some(r) ==> s == prefix + r,
{
    assert((prefix + rest).take(prefix.len() as int) =~= prefix);
    assert((prefix + rest).skip(prefix.len() as int) =~= rest);
    if after_prefix(s, prefix) is Some {
        assert(s =~= prefix + s.skip(prefix.len() as int));
    }
}

/// A pattern is found where it first occurs: it stands there, and nowhere between the
/// start of the search and there. Where it is not found it stands nowhere.
pub proof fn patterns_are_found_first(s: Seq<char>, pattern: Seq<char>, from: nat, k: int)
    ensures
        match first_from(s, pattern, from) {
            Some(i) => from <= i && i + pattern.len() <= s.len() && s.subrange(
                i as int,
                (i + pattern.len()) as int,
            ) == pattern && (from <= k < i ==> s.subrange(k, k + pattern.len()) != pattern),
            None => from <= k && k + pattern.len() <= s.len() ==> s.subrange(k, k + pattern.len())
                != pattern,
        },
    decreases s.len() + 1 - from,
{
    if from + pattern.len() <= s.len() && s.subrange(from as int, (from + pattern.len()) as int)
        != pattern {
        patterns_are_found_first(s, pattern, from + 1, k);
    }
}

/// Among the ASCII characters white space is the space and those from the tab to the
/// carriage return, and lowering changes the capital letters alone.
pub proof fn ascii_white_space_and_capitals(c: char)
    requires
        (c as u32) < 128,
    ensures
        is_space(c) <==> c == ' ' || ('\t' <= c && c <= '\r'),
        lower_char(c) != c <==> 'A' <= c && c <= 'Z',
        'A' <= c && c <= 'Z' ==> lower_char(c) as u32 - 'a' as u32 == c as u32 - 'A' as u32,
{
}

/// Beyond ASCII white space is the next-line character, the spaces from the en quad to the
/// hair space, the line and paragraph separators, and the no-break, Ogham, narrow no-break,
/// mathematical and ideographic spaces.
pub proof fn white_space_beyond_ascii(c: char)
    requires
        (c as u32) >= 128,
    ensures
        is_space(c) <==> c == '\u{85}' || c == '\u{a0}' || c == '\u{1680}' || ('\u{2000}' <= c && c
            <= '\u{200a}') || c == '\u{2028}' || c == '\u{2029}' || c == '\u{202f}' || c
            == '\u{205f}' || c == '\u{3000}',
{
}

} // verus!
