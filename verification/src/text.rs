//! Texts as sequences of characters: words and the spaces between them,
//! trimming, search, lines and numbers. Each function that runs has its
//! mathematical model over `Seq<char>` beside it.

use vstd::prelude::*;

verus! {

/// Copies the characters of `s` into a vector, so that they can be indexed in
/// constant time.
pub fn to_chars(s: &str) -> (v: Vec<char>)
    ensures
        v@ == s@,
{
    broadcast use vstd::string::group_string_axioms;

    let mut v: Vec<char> = Vec::new();
    for c in it: s.chars()
        invariant
            it.seq() == s@,
            v@ == s@.take(it.index()),
    {
        v.push(c);
    }
    v
}

/// Whether two texts hold the same characters.
pub fn str_eq(a: &str, b: &str) -> (r: bool)
    ensures
        r == (a@ == b@),
{
    let x = to_chars(a);
    let y = to_chars(b);
    if x.len() != y.len() {
        return false;
    }
    let mut i: usize = 0;
    while i < x.len()
        invariant
            x@ == a@,
            y@ == b@,
            x@.len() == y@.len(),
            i <= x@.len(),
            forall|j: int| 0 <= j < i ==> x@[j] == y@[j],
        decreases x@.len() - i,
    {
        if x[i] != y[i] {
            assert(a@[i as int] != b@[i as int]);
            return false;
        }
        i += 1;
    }
    assert(x@ =~= y@);
    true
}

/// Whether `c` carries the Unicode `White_Space` property.
pub open spec fn is_space(c: char) -> bool {
    let n = c as u32;
    ||| 0x09 <= n <= 0x0D
    ||| n == 0x20
    ||| n == 0x85
    ||| n == 0xA0
    ||| n == 0x1680
    ||| 0x2000 <= n <= 0x200A
    ||| n == 0x2028
    ||| n == 0x2029
    ||| n == 0x202F
    ||| n == 0x205F
    ||| n == 0x3000
}

/// Decides whether a character separates words.
pub fn is_space_char(c: char) -> (r: bool)
    ensures
        r == is_space(c),
{
    let n: u32 = c as u32;
    (0x09 <= n && n <= 0x0D) || n == 0x20 || n == 0x85 || n == 0xA0 || n == 0x1680 || (0x2000 <= n
        && n <= 0x200A) || n == 0x2028 || n == 0x2029 || n == 0x202F || n == 0x205F || n == 0x3000
}

/// A word: at least one character, none of them a space.
pub open spec fn is_word(w: Seq<char>) -> bool {
    &&& w.len() > 0
    &&& forall|i: int| 0 <= i < w.len() ==> !is_space(#[trigger] w[i])
}

/// Length of the longest prefix of `s` that holds no space.
pub open spec fn word_len(s: Seq<char>) -> nat
    decreases s.len(),
{
    if s.len() == 0 || is_space(s[0]) {
        0
    } else {
        1 + word_len(s.drop_first())
    }
}

/// The words of `s`: its maximal runs of characters that are not spaces, in
/// the order in which they stand.
pub open spec fn words(s: Seq<char>) -> Seq<Seq<char>>
    decreases s.len(),
{
    if s.len() == 0 {
        Seq::empty()
    } else if is_space(s[0]) {
        words(s.drop_first())
    } else {
        proof {
            lemma_word_len_bounds(s);
        }
        seq![s.take(word_len(s) as int)] + words(s.skip(word_len(s) as int))
    }
}

/// The words of `ws` from index `k` on; none where there are fewer.
pub open spec fn words_from(ws: Seq<Seq<char>>, k: int) -> Seq<Seq<char>> {
    if 0 <= k <= ws.len() {
        ws.skip(k)
    } else {
        Seq::empty()
    }
}

/// The words of `ws` written one after the other with a single space between
/// neighbours.
pub open spec fn join_words(ws: Seq<Seq<char>>) -> Seq<char>
    decreases ws.len(),
{
    if ws.len() == 0 {
        Seq::empty()
    } else if ws.len() == 1 {
        ws[0]
    } else {
        ws[0] + seq![' '] + join_words(ws.drop_first())
    }
}

/// `word_len` never runs past the end, and is positive where a word starts.
pub proof fn lemma_word_len_bounds(s: Seq<char>)
    ensures
        word_len(s) <= s.len(),
        s.len() > 0 && !is_space(s[0]) ==> word_len(s) >= 1,
    decreases s.len(),
{
    if s.len() > 0 && !is_space(s[0]) {
        lemma_word_len_bounds(s.drop_first());
    }
}

/// A run of `k` characters without a space, ended by a space or by the end
/// of `s`, is exactly what `word_len` measures.
pub proof fn lemma_word_len_run(s: Seq<char>, k: int)
    requires
        0 <= k <= s.len(),
        forall|j: int| 0 <= j < k ==> !is_space(#[trigger] s[j]),
        k == s.len() || is_space(s[k]),
    ensures
        word_len(s) == k,
    decreases k,
{
    if k > 0 {
        let t = s.drop_first();
        assert forall|j: int| 0 <= j < k - 1 implies !is_space(#[trigger] t[j]) by {
            assert(t[j] == s[j + 1]);
        }
        lemma_word_len_run(t, k - 1);
    }
}

/// Appending one more word to a joined text costs one space, except at the
/// start.
pub proof fn lemma_join_words_push(ws: Seq<Seq<char>>, w: Seq<char>)
    ensures
        join_words(ws.push(w)) == if ws.len() == 0 {
            w
        } else {
            join_words(ws) + seq![' '] + w
        },
    decreases ws.len(),
{
    let all = ws.push(w);
    if ws.len() == 0 {
        assert(all[0] == w);
    } else {
        assert(all.drop_first() =~= ws.drop_first().push(w));
        lemma_join_words_push(ws.drop_first(), w);
        if ws.len() == 1 {
            assert(join_words(ws) == ws[0]);
            assert(join_words(ws.drop_first()) =~= Seq::<char>::empty());
        } else {
            assert(join_words(all) =~= join_words(ws) + seq![' '] + w);
        }
    }
}

/// Splitting undoes joining: a text made of words with single spaces between
/// them splits into exactly those words.
pub proof fn lemma_words_of_join(ws: Seq<Seq<char>>)
    requires
        forall|i: int| 0 <= i < ws.len() ==> is_word(#[trigger] ws[i]),
    ensures
        words(join_words(ws)) == ws,
    decreases ws.len(),
{
    if ws.len() == 0 {
    } else {
        let w = ws[0];
        let s = join_words(ws);
        assert(is_word(w));
        assert(!is_space(w[0]));
        if ws.len() == 1 {
            assert(s == w);
            lemma_word_len_run(s, s.len() as int);
            assert(words(s.skip(s.len() as int)) =~= Seq::<Seq<char>>::empty());
            assert(s.take(s.len() as int) =~= s);
            assert(s.skip(s.len() as int) =~= Seq::<char>::empty());
            assert(words(s) =~= ws);
        } else {
            let rest = ws.drop_first();
            assert forall|i: int| 0 <= i < rest.len() implies is_word(#[trigger] rest[i]) by {
                assert(rest[i] == ws[i + 1]);
            }
            lemma_words_of_join(rest);
            let n = w.len() as int;
            assert(s[n] == ' ');
            assert forall|j: int| 0 <= j < n implies !is_space(#[trigger] s[j]) by {
                assert(s[j] == w[j]);
            }
            lemma_word_len_run(s, n);
            assert(s.take(n) =~= w);
            let tail = s.skip(n);
            assert(tail =~= seq![' '] + join_words(rest));
            assert(tail.drop_first() =~= join_words(rest));
            assert(is_space(tail[0]));
            assert(words(tail) == rest);
            assert(s[0] == w[0]);
            assert(words(s) =~= ws);
        }
    }
}

/// Splits `line` into its words.
pub fn split_words(line: &str) -> (out: Vec<String>)
    ensures
        out.deep_view() == words(line@),
{
    let chars = to_chars(line);
    let n = chars.len();
    let mut out: Vec<String> = Vec::new();
    let mut i: usize = 0;
    assert(line@.skip(0) =~= line@);
    while i < n
        invariant
            n == chars@.len(),
            chars@ == line@,
            i <= n,
            out.deep_view() + words(line@.skip(i as int)) == words(line@),
        decreases n - i,
    {
        let ghost rest = line@.skip(i as int);
        if is_space_char(chars[i]) {
            assert(rest.drop_first() =~= line@.skip(i + 1));
            i += 1;
        } else {
            let start = i;
            while i < n && !is_space_char(chars[i])
                invariant
                    n == chars@.len(),
                    start <= i <= n,
                    forall|k: int| start <= k < i ==> !is_space(#[trigger] chars@[k]),
                decreases n - i,
            {
                i += 1;
            }
            proof {
                assert forall|j: int| 0 <= j < i - start implies !is_space(#[trigger] rest[j]) by {
                    assert(rest[j] == chars@[start + j]);
                }
                lemma_word_len_run(rest, i - start);
                assert(rest.take(i - start) =~= line@.subrange(start as int, i as int));
                assert(rest.skip(i - start) =~= line@.skip(i as int));
            }
            let ghost before = out.deep_view();
            let word = line.substring_char(start, i).to_owned();
            out.push(word);
            assert(out.deep_view() =~= before.push(word@));
            assert(before.push(word@) + words(line@.skip(i as int)) =~= before + words(rest));
        }
    }
    assert(words(line@.skip(n as int)) =~= Seq::<Seq<char>>::empty());
    assert(out.deep_view() + Seq::<Seq<char>>::empty() =~= out.deep_view());
    out
}

/// Joins the words of `parts` from index `from` on with single spaces.
pub fn join_from(parts: &Vec<String>, from: usize) -> (out: String)
    ensures
        out@ == join_words(words_from(parts.deep_view(), from as int)),
{
    let mut out = String::new();
    if from > parts.len() {
        return out;
    }
    let ghost ws = parts.deep_view().skip(from as int);
    let mut i: usize = from;
    assert(ws.take(0) =~= Seq::<Seq<char>>::empty());
    while i < parts.len()
        invariant
            from <= i <= parts.len(),
            ws == parts.deep_view().skip(from as int),
            out@ == join_words(ws.take(i - from)),
        decreases parts.len() - i,
    {
        proof {
            lemma_join_words_push(ws.take(i - from), ws[i - from]);
            assert(ws.take(i - from).push(ws[i - from]) =~= ws.take(i + 1 - from));
            assert(ws[i - from] == parts[i as int]@);
        }
        if i > from {
            out.append(" ");
            proof {
                reveal_strlit(" ");
                assert(" "@ =~= seq![' ']);
            }
        }
        out.append(parts[i].as_str());
        i += 1;
    }
    assert(ws.take(ws.len() as int) =~= ws);
    out
}

/// How many spaces stand at the start of `s`.
pub open spec fn leading_spaces(s: Seq<char>) -> nat
    decreases s.len(),
{
    if s.len() > 0 && is_space(s[0]) {
        1 + leading_spaces(s.drop_first())
    } else {
        0
    }
}

/// How many spaces stand at the end of `s`.
pub open spec fn trailing_spaces(s: Seq<char>) -> nat
    decreases s.len(),
{
    if s.len() > 0 && is_space(s.last()) {
        1 + trailing_spaces(s.drop_last())
    } else {
        0
    }
}

/// `s` without the spaces at its start and at its end.
pub open spec fn trimmed(s: Seq<char>) -> Seq<char> {
    let from = leading_spaces(s) as int;
    let to = s.len() - trailing_spaces(s);
    if from <= to {
        s.subrange(from, to)
    } else {
        Seq::empty()
    }
}

/// A run of `k` spaces at the start, ended by another character or by the
/// end of `s`, is what `leading_spaces` counts.
pub proof fn lemma_leading_spaces_run(s: Seq<char>, k: int)
    requires
        0 <= k <= s.len(),
        forall|j: int| 0 <= j < k ==> is_space(#[trigger] s[j]),
        k == s.len() || !is_space(s[k]),
    ensures
        leading_spaces(s) == k,
    decreases k,
{
    if k > 0 {
        let t = s.drop_first();
        assert forall|j: int| 0 <= j < k - 1 implies is_space(#[trigger] t[j]) by {
            assert(t[j] == s[j + 1]);
        }
        lemma_leading_spaces_run(t, k - 1);
    }
}

/// A run of `k` spaces at the end, with another character or the start of
/// `s` in front of it, is what `trailing_spaces` counts.
pub proof fn lemma_trailing_spaces_run(s: Seq<char>, k: int)
    requires
        0 <= k <= s.len(),
        forall|j: int| s.len() - k <= j < s.len() ==> is_space(#[trigger] s[j]),
        k == s.len() || !is_space(s[s.len() - k - 1]),
    ensures
        trailing_spaces(s) == k,
    decreases k,
{
    if k > 0 {
        let t = s.drop_last();
        assert forall|j: int| t.len() - (k - 1) <= j < t.len() implies is_space(
            #[trigger] t[j],
        ) by {
            assert(t[j] == s[j]);
        }
        lemma_trailing_spaces_run(t, k - 1);
    }
}

/// Takes the spaces off both ends of `s`.
pub fn trim_text(s: &str) -> (r: String)
    ensures
        r@ == trimmed(s@),
{
    let chars = to_chars(s);
    let n = chars.len();
    let mut from: usize = 0;
    while from < n && is_space_char(chars[from])
        invariant
            from <= n,
            n == chars@.len(),
            forall|j: int| 0 <= j < from ==> is_space(#[trigger] chars@[j]),
        decreases n - from,
    {
        from += 1;
    }
    let mut to: usize = n;
    while to > 0 && is_space_char(chars[to - 1])
        invariant
            to <= n,
            n == chars@.len(),
            forall|j: int| to <= j < n ==> is_space(#[trigger] chars@[j]),
        decreases to,
    {
        to -= 1;
    }
    proof {
        lemma_leading_spaces_run(chars@, from as int);
        lemma_trailing_spaces_run(chars@, n - to);
    }
    if from <= to {
        s.substring_char(from, to).to_owned()
    } else {
        String::new()
    }
}

/// Whether `pattern` stands in `s` at position `i`.
pub open spec fn occurs_at(s: Seq<char>, pattern: Seq<char>, i: int) -> bool {
    &&& 0 <= i
    &&& i + pattern.len() <= s.len()
    &&& s.subrange(i, i + pattern.len()) == pattern
}

/// Whether `pattern` stands somewhere in `s`.
pub open spec fn contains(s: Seq<char>, pattern: Seq<char>) -> bool {
    exists|i: int| occurs_at(s, pattern, i)
}

/// Whether `i` is the first position at which `pattern` stands in `s`.
pub open spec fn first_occurs_at(s: Seq<char>, pattern: Seq<char>, i: int) -> bool {
    &&& occurs_at(s, pattern, i)
    &&& forall|j: int| 0 <= j < i ==> !occurs_at(s, pattern, j)
}

/// The first position at which `pattern` stands in `s`, if it stands there
/// at all.
pub open spec fn first_occurrence(s: Seq<char>, pattern: Seq<char>) -> Option<int> {
    if contains(s, pattern) {
        Some(choose|i: int| first_occurs_at(s, pattern, i))
    } else {
        None
    }
}

/// The first position at which a pattern stands is the one that
/// `first_occurrence` names.
pub proof fn lemma_first_occurrence(s: Seq<char>, pattern: Seq<char>, i: int)
    requires
        first_occurs_at(s, pattern, i),
    ensures
        first_occurrence(s, pattern) == Some(i),
{
    let c = choose|c: int| first_occurs_at(s, pattern, c);
    assert(first_occurs_at(s, pattern, c));
    if c < i {
        assert(!occurs_at(s, pattern, c));
    }
    if i < c {
        assert(!occurs_at(s, pattern, i));
    }
}

/// Finds the first position at which `pattern` stands in `s`.
pub fn find_chars(s: &Vec<char>, pattern: &Vec<char>) -> (r: Option<usize>)
    ensures
        match r {
            Some(i) => first_occurs_at(s@, pattern@, i as int),
            None => !contains(s@, pattern@),
        },
        r is Some == contains(s@, pattern@),
        first_occurrence(s@, pattern@) == match r {
            Some(i) => Some(i as int),
            None => None,
        },
{
    let n = s.len();
    let m = pattern.len();
    if m > n {
        return None;
    }
    let mut i: usize = 0;
    while i <= n - m
        invariant
            n == s@.len(),
            m == pattern@.len(),
            m <= n,
            i <= n - m + 1,
            forall|j: int| 0 <= j < i ==> !occurs_at(s@, pattern@, j),
        decreases n - m + 1 - i,
    {
        let mut k: usize = 0;
        while k < m && s[i + k] == pattern[k]
            invariant
                n == s@.len(),
                m == pattern@.len(),
                i + m <= n,
                k <= m,
                forall|j: int| 0 <= j < k ==> s@[i + j] == pattern@[j],
            decreases m - k,
        {
            k += 1;
        }
        if k == m {
            assert(s@.subrange(i as int, i + m) =~= pattern@);
            proof {
                lemma_first_occurrence(s@, pattern@, i as int);
            }
            return Some(i);
        }
        assert(!occurs_at(s@, pattern@, i as int)) by {
            if occurs_at(s@, pattern@, i as int) {
                assert(s@.subrange(i as int, i + m)[k as int] == pattern@[k as int]);
            }
        }
        i += 1;
    }
    None
}

/// Whether `pattern` stands somewhere in `s`.
pub fn str_contains(s: &str, pattern: &str) -> (r: bool)
    ensures
        r == contains(s@, pattern@),
{
    let hay = to_chars(s);
    let needle = to_chars(pattern);
    find_chars(&hay, &needle).is_some()
}

/// How many characters stand in `s` in front of its first line feed, or all
/// of them where it has none.
pub open spec fn line_len(s: Seq<char>) -> nat
    decreases s.len(),
{
    if s.len() == 0 || s[0] == '\n' {
        0
    } else {
        1 + line_len(s.drop_first())
    }
}

/// A line without the line feed that ends it; with the line feed, a carriage
/// return in front of it goes too.
pub open spec fn without_ending(line: Seq<char>, ended: bool) -> Seq<char> {
    if ended && line.len() > 0 && line.last() == '\r' {
        line.drop_last()
    } else {
        line
    }
}

/// The line of `s` with the index `index`, counted from 0. Lines end with
/// a line feed, or with a carriage return and a line feed; the last line
/// needs no ending.
pub open spec fn nth_line_of(s: Seq<char>, index: nat) -> Option<Seq<char>>
    decreases s.len(),
{
    if s.len() == 0 {
        None
    } else {
        let k = line_len(s) as int;
        if index == 0 {
            Some(without_ending(s.take(k), k < s.len()))
        } else if k < s.len() {
            proof {
                lemma_line_len_bounds(s);
            }
            nth_line_of(s.skip(k + 1), (index - 1) as nat)
        } else {
            None
        }
    }
}

/// `line_len` never runs past the end.
pub proof fn lemma_line_len_bounds(s: Seq<char>)
    ensures
        line_len(s) <= s.len(),
    decreases s.len(),
{
    if s.len() > 0 && s[0] != '\n' {
        lemma_line_len_bounds(s.drop_first());
    }
}

/// A run of `k` characters without a line feed, ended by one or by the end
/// of `s`, is what `line_len` measures.
pub proof fn lemma_line_len_run(s: Seq<char>, k: int)
    requires
        0 <= k <= s.len(),
        forall|j: int| 0 <= j < k ==> #[trigger] s[j] != '\n',
        k == s.len() || s[k] == '\n',
    ensures
        line_len(s) == k,
    decreases k,
{
    if k > 0 {
        let t = s.drop_first();
        assert forall|j: int| 0 <= j < k - 1 implies #[trigger] t[j] != '\n' by {
            assert(t[j] == s[j + 1]);
        }
        lemma_line_len_run(t, k - 1);
    }
}

/// Picks the line of `text` with the index `index`, counted from 0.
pub fn nth_line(text: &str, index: usize) -> (r: Option<String>)
    ensures
        match r {
            Some(line) => nth_line_of(text@, index as nat) == Some(line@),
            None => nth_line_of(text@, index as nat) is None,
        },
{
    let chars = to_chars(text);
    let n = chars.len();
    let mut start: usize = 0;
    let mut left: usize = index;
    assert(text@.skip(0) =~= text@);
    while start < n
        invariant
            n == chars@.len(),
            chars@ == text@,
            start <= n,
            left <= index,
            nth_line_of(text@, index as nat) == nth_line_of(text@.skip(start as int), left as nat),
        decreases n - start,
    {
        let ghost rest = text@.skip(start as int);
        let mut end: usize = start;
        while end < n && chars[end] != '\n'
            invariant
                n == chars@.len(),
                start <= end <= n,
                forall|k: int| start <= k < end ==> #[trigger] chars@[k] != '\n',
            decreases n - end,
        {
            end += 1;
        }
        proof {
            assert forall|j: int| 0 <= j < end - start implies #[trigger] rest[j] != '\n' by {
                assert(rest[j] == chars@[start + j]);
            }
            lemma_line_len_run(rest, end - start);
            assert(rest.take(end - start) =~= text@.subrange(start as int, end as int));
        }
        if left == 0 {
            let stop = if end < n && end > start && chars[end - 1] == '\r' {
                end - 1
            } else {
                end
            };
            let line = text.substring_char(start, stop).to_owned();
            assert(line@ =~= without_ending(rest.take(end - start), end < n));
            return Some(line);
        }
        if end == n {
            return None;
        }
        assert(rest.skip(end - start + 1) =~= text@.skip(end + 1));
        left -= 1;
        start = end + 1;
    }
    None
}

/// Whether `c` is one of the ten digits.
pub open spec fn is_digit(c: char) -> bool {
    '0' <= c <= '9'
}

/// The number that a text of digits writes in base ten.
pub open spec fn decimal_value(digits: Seq<char>) -> nat
    decreases digits.len(),
{
    if digits.len() == 0 {
        0
    } else {
        10 * decimal_value(digits.drop_last()) + (digits.last() as u32 - '0' as u32) as nat
    }
}

/// The digits of a number written in base ten: the text itself, without a
/// plus sign in front where it has one.
pub open spec fn unsigned_digits(s: Seq<char>) -> Seq<char> {
    if s.len() > 0 && s[0] == '+' {
        s.drop_first()
    } else {
        s
    }
}

/// The number that `s` writes in base ten, if it writes one that fits the
/// machine's word: a plus sign or nothing, then at least one digit and
/// nothing else.
pub open spec fn parsed_index(s: Seq<char>) -> Option<usize> {
    let digits = unsigned_digits(s);
    if digits.len() > 0 && (forall|i: int| 0 <= i < digits.len() ==> is_digit(#[trigger] digits[i]))
        && decimal_value(digits) <= usize::MAX {
        Some(decimal_value(digits) as usize)
    } else {
        None
    }
}

/// A longer text of digits never writes a smaller number than its start.
pub proof fn lemma_decimal_value_grows(digits: Seq<char>, k: int)
    requires
        0 <= k <= digits.len(),
    ensures
        decimal_value(digits.take(k)) <= decimal_value(digits),
    decreases digits.len() - k,
{
    if k < digits.len() {
        lemma_decimal_value_grows(digits, k + 1);
        assert(digits.take(k + 1).drop_last() =~= digits.take(k));
    } else {
        assert(digits.take(k) =~= digits);
    }
}

/// Reads a number written in base ten.
pub fn parse_index(s: &Vec<char>) -> (r: Option<usize>)
    ensures
        r == parsed_index(s@),
{
    let n = s.len();
    let start: usize = if n > 0 && s[0] == '+' {
        1
    } else {
        0
    };
    let ghost digits = unsigned_digits(s@);
    assert(digits =~= s@.skip(start as int));
    if start == n {
        return None;
    }
    let mut value: usize = 0;
    let mut i: usize = start;
    assert(digits.take(0) =~= Seq::<char>::empty());
    while i < n
        invariant
            start <= i <= n,
            n == s@.len(),
            digits == s@.skip(start as int),
            digits == unsigned_digits(s@),
            forall|j: int| 0 <= j < i - start ==> is_digit(#[trigger] digits[j]),
            value == decimal_value(digits.take(i - start)),
        decreases n - i,
    {
        let c = s[i];
        assert(digits[i - start] == c);
        if c < '0' || c > '9' {
            assert(!is_digit(digits[i - start]));
            return None;
        }
        let d: usize = (c as u32 - '0' as u32) as usize;
        proof {
            assert(digits.take(i + 1 - start).drop_last() =~= digits.take(i - start));
            assert(digits.take(i + 1 - start).last() == c);
            lemma_decimal_value_grows(digits, i + 1 - start);
        }
        if value > (usize::MAX - d) / 10 {
            assert(decimal_value(digits.take(i + 1 - start)) > usize::MAX);
            return None;
        }
        value = value * 10 + d;
        i += 1;
    }
    assert(digits.take(n - start) =~= digits);
    Some(value)
}

} // verus!
