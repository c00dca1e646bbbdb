//! Text helpers: trimming, comparing, searching, and decimal numbers.
use vstd::prelude::*;

verus! {

/// The characters with Unicode's `White_Space` property.
pub open spec fn is_space(c: char) -> bool {
    ||| '\u{9}' <= c <= '\u{d}'
    ||| c == ' '
    ||| c == '\u{85}'
    ||| c == '\u{a0}'
    ||| c == '\u{1680}'
    ||| '\u{2000}' <= c <= '\u{200a}'
    ||| c == '\u{2028}'
    ||| c == '\u{2029}'
    ||| c == '\u{202f}'
    ||| c == '\u{205f}'
    ||| c == '\u{3000}'
}

/// `s` without its leading white space.
pub open spec fn trim_start(s: Seq<char>) -> Seq<char>
    decreases s.len(),
{
    if s.len() > 0 && is_space(s[0]) {
        trim_start(s.subrange(1, s.len() as int))
    } else {
        s
    }
}

/// `s` without its trailing white space.
pub open spec fn trim_end(s: Seq<char>) -> Seq<char>
    decreases s.len(),
{
    if s.len() > 0 && is_space(s[s.len() - 1]) {
        trim_end(s.subrange(0, s.len() - 1))
    } else {
        s
    }
}

/// `s` without leading and trailing white space.
pub open spec fn trimmed(s: Seq<char>) -> Seq<char> {
    trim_end(trim_start(s))
}

proof fn lemma_trim_start(s: Seq<char>)
    ensures
        trim_start(s).len() == 0 || !is_space(trim_start(s)[0]),
    decreases s.len(),
{
    if s.len() > 0 && is_space(s[0]) {
        lemma_trim_start(s.subrange(1, s.len() as int));
    }
}

proof fn lemma_trim_end(s: Seq<char>)
    ensures
        trim_end(s).len() <= s.len(),
        trim_end(s) == s.subrange(0, trim_end(s).len() as int),
        trim_end(s).len() == 0 || !is_space(trim_end(s)[trim_end(s).len() - 1]),
    decreases s.len(),
{
    if s.len() > 0 && is_space(s[s.len() - 1]) {
        let shorter = s.subrange(0, s.len() - 1);
        lemma_trim_end(shorter);
        assert(shorter.subrange(0, trim_end(s).len() as int) =~= s.subrange(
            0,
            trim_end(s).len() as int,
        ));
    } else {
        assert(s.subrange(0, s.len() as int) =~= s);
    }
}

/// Trimming twice is trimming once.
pub proof fn a_trimmed_text_stays(s: Seq<char>)
    ensures
        trimmed(trimmed(s)) == trimmed(s),
{
    lemma_trim_start(s);
    lemma_trim_end(trim_start(s));
}

/// What is left of an optional text once it is trimmed: nothing where nothing remains.
pub open spec fn trimmed_or_none(s: Option<Seq<char>>) -> Option<Seq<char>> {
    match s {
        Some(t) => if trimmed(t).len() == 0 { None } else { Some(trimmed(t)) },
        None => None,
    }
}

/// The text that an optional string holds.
pub open spec fn opt_view(s: Option<String>) -> Option<Seq<char>> {
    match s {
        Some(t) => Some(t@),
        None => None,
    }
}

/// The texts that a list of strings holds.
pub open spec fn views(v: Seq<String>) -> Seq<Seq<char>> {
    v.map_values(|s: String| s@)
}

/// Whether a character is white space.
pub fn is_whitespace(c: char) -> (r: bool)
    ensures
        r == is_space(c),
{
    ('\u{9}' <= c && c <= '\u{d}') || c == ' ' || c == '\u{85}' || c == '\u{a0}' || c == '\u{1680}'
        || ('\u{2000}' <= c && c <= '\u{200a}') || c == '\u{2028}' || c == '\u{2029}' || c
        == '\u{202f}' || c == '\u{205f}' || c == '\u{3000}'
}

/// A copy of `s` without leading and trailing white space.
pub fn trim(s: &str) -> (r: String)
    ensures
        r@ == trimmed(s@),
{
    let n: usize = s.unicode_len();
    let mut start: usize = 0;
    proof {
        assert(s@.subrange(0, n as int) =~= s@);
    }
    while start < n && is_whitespace(s.get_char(start))
        invariant
            n == s@.len(),
            start <= n,
            trim_start(s@) == trim_start(s@.subrange(start as int, n as int)),
        decreases n - start,
    {
        proof {
            let rest = s@.subrange(start as int, n as int);
            assert(rest[0] == s@[start as int]);
            assert(rest.subrange(1, rest.len() as int) =~= s@.subrange(start + 1, n as int));
        }
        start = start + 1;
    }
    let mut end: usize = n;
    proof {
        let rest = s@.subrange(start as int, n as int);
        if start < n {
            assert(rest[0] == s@[start as int]);
        }
        assert(trim_start(s@) == rest);
    }
    while end > start && is_whitespace(s.get_char(end - 1))
        invariant
            n == s@.len(),
            start <= end <= n,
            trimmed(s@) == trim_end(s@.subrange(start as int, end as int)),
        decreases end,
    {
        proof {
            let rest = s@.subrange(start as int, end as int);
            assert(rest[rest.len() - 1] == s@[end - 1]);
            assert(rest.subrange(0, rest.len() - 1) =~= s@.subrange(start as int, end - 1));
        }
        end = end - 1;
    }
    proof {
        let rest = s@.subrange(start as int, end as int);
        if start < end {
            assert(rest[rest.len() - 1] == s@[end - 1]);
        }
        assert(trim_end(rest) == rest);
    }
    s.substring_char(start, end).to_owned()
}

/// Trimming an optional text; nothing where nothing remains.
pub fn trim_to_option(s: &Option<String>) -> (r: Option<String>)
    ensures
        opt_view(r) == trimmed_or_none(opt_view(*s)),
{
    match s {
        None => None,
        Some(t) => {
            let u: String = trim(t.as_str());
            if u.as_str().is_empty() {
                None
            } else {
                Some(u)
            }
        },
    }
}

/// Whether two texts are equal.
pub fn same(a: &str, b: &str) -> (r: bool)
    ensures
        r == (a@ == b@),
{
    a.to_owned() == b.to_owned()
}

/// Whether `list` holds `item`.
pub fn contains_text(list: &Vec<String>, item: &str) -> (r: bool)
    ensures
        r == views(list@).contains(item@),
{
    let mut i: usize = 0;
    while i < list.len()
        invariant
            i <= list.len(),
            forall|j: int| 0 <= j < i ==> list@[j]@ != item@,
        decreases list.len() - i,
    {
        if same(list[i].as_str(), item) {
            proof {
                assert(views(list@)[i as int] == item@);
            }
            return true;
        }
        i = i + 1;
    }
    proof {
        assert forall|j: int| 0 <= j < views(list@).len() implies views(list@)[j] != item@ by {
            assert(views(list@)[j] == list@[j]@);
        }
    }
    false
}

/// The position of the first `c` in `s`, at `from` or behind it.
pub open spec fn first_at(s: Seq<char>, c: char, from: int) -> Option<int>
    decreases s.len() - from,
{
    if from < 0 || from >= s.len() {
        None
    } else if s[from] == c {
        Some(from)
    } else {
        first_at(s, c, from + 1)
    }
}

/// Finds the first `c` in `s`, at `from` or behind it.
pub fn find_char(s: &str, c: char, from: usize) -> (r: Option<usize>)
    ensures
        match r {
            Some(i) => first_at(s@, c, from as int) == Some(i as int) && from <= i < s@.len() && s@[i as int] == c,
            None => first_at(s@, c, from as int) is None,
        },
{
    let n: usize = s.unicode_len();
    let mut i: usize = from;
    while i < n
        invariant
            n == s@.len(),
            from <= i,
            i <= n || i == from,
            first_at(s@, c, from as int) == first_at(s@, c, i as int),
        decreases n - i,
    {
        if s.get_char(i) == c {
            return Some(i);
        }
        i = i + 1;
    }
    None
}

/// What the search for a character finds: the first one there is.
pub proof fn first_at_is_first(s: Seq<char>, c: char, from: int)
    requires
        0 <= from,
    ensures
        match first_at(s, c, from) {
            Some(i) => from <= i < s.len() && s[i] == c && (forall|j: int|
                from <= j < i ==> s[j] != c),
            None => forall|j: int| from <= j < s.len() ==> s[j] != c,
        },
    decreases s.len() - from,
{
    if from < s.len() && s[from] != c {
        first_at_is_first(s, c, from + 1);
    }
}

/// A part of `s`, by character positions.
pub fn part(s: &str, from: usize, to: usize) -> (r: String)
    requires
        from <= to <= s@.len(),
    ensures
        r@ == s@.subrange(from as int, to as int),
{
    s.substring_char(from, to).to_owned()
}

/// Two texts, one behind the other.
pub fn join2(a: &str, b: &str) -> (r: String)
    ensures
        r@ == a@ + b@,
{
    let mut out: String = a.to_owned();
    out.append(b);
    out
}

/// Whether `pattern` stands somewhere in `s`.
pub open spec fn has_part(s: Seq<char>, pattern: Seq<char>) -> bool {
    exists|i: int|
        0 <= i && i + pattern.len() <= s.len() && #[trigger] s.subrange(i, i + pattern.len())
            == pattern
}

/// Whether `pattern` stands somewhere in `s`.
pub fn contains_part(s: &str, pattern: &str) -> (r: bool)
    ensures
        r == has_part(s@, pattern@),
{
    let n: usize = s.unicode_len();
    let m: usize = pattern.unicode_len();
    if m > n {
        return false;
    }
    let mut i: usize = 0;
    while i < n - m
        invariant
            n == s@.len(),
            m == pattern@.len(),
            m <= n,
            i <= n - m,
            forall|j: int| 0 <= j < i ==> #[trigger] s@.subrange(j, j + m) != pattern@,
        decreases n - m - i,
    {
        let here: String = part(s, i, i + m);
        if same(here.as_str(), pattern) {
            return true;
        }
        i = i + 1;
    }
    let last: String = part(s, i, n);
    proof {
        assert(s@.subrange(i as int, n as int) == s@.subrange(i as int, i + m));
        if has_part(s@, pattern@) {
            let j = choose|j: int|
                0 <= j && j + pattern@.len() <= s@.len() && #[trigger] s@.subrange(
                    j,
                    j + pattern@.len(),
                ) == pattern@;
            assert(j == i);
        }
    }
    same(last.as_str(), pattern)
}

/// The first position at `i` or behind it that holds no white space, or the end.
pub open spec fn skip_spaces(s: Seq<char>, i: int) -> int
    decreases s.len() - i,
{
    if 0 <= i < s.len() && is_space(s[i]) {
        skip_spaces(s, i + 1)
    } else {
        i
    }
}

/// The first position at `i` or behind it that holds white space, or the end.
pub open spec fn word_end(s: Seq<char>, i: int) -> int
    decreases s.len() - i,
{
    if 0 <= i < s.len() && !is_space(s[i]) {
        word_end(s, i + 1)
    } else {
        i
    }
}

proof fn lemma_word_bounds(s: Seq<char>, i: int)
    requires
        0 <= i <= s.len(),
    ensures
        i <= skip_spaces(s, i) <= s.len(),
        i <= word_end(s, i) <= s.len(),
        skip_spaces(s, i) < s.len() ==> !is_space(s[skip_spaces(s, i)]),
    decreases s.len() - i,
{
    if i < s.len() {
        lemma_word_bounds(s, i + 1);
    }
}

/// The words of `s` from position `i` on: what white space divides.
pub open spec fn words_from(s: Seq<char>, i: int) -> Seq<Seq<char>>
    decreases s.len() - i,
    when 0 <= i <= s.len()
    via words_from_decreases
{
    let b = skip_spaces(s, i);
    if b >= s.len() {
        Seq::empty()
    } else {
        seq![s.subrange(b, word_end(s, b))] + words_from(s, word_end(s, b))
    }
}

#[via_fn]
proof fn words_from_decreases(s: Seq<char>, i: int) {
    lemma_word_bounds(s, i);
    let b = skip_spaces(s, i);
    if b < s.len() {
        lemma_word_bounds(s, b);
        lemma_word_bounds(s, b + 1);
    }
}

/// The words of `s`.
pub open spec fn words(s: Seq<char>) -> Seq<Seq<char>> {
    words_from(s, 0)
}

/// Divides `s` at white space.
pub fn split_words(s: &str) -> (r: Vec<String>)
    ensures
        views(r@) == words(s@),
{
    let n: usize = s.unicode_len();
    let mut out: Vec<String> = Vec::new();
    let mut i: usize = 0;
    proof {
        assert(views(out@) + words_from(s@, 0) =~= words_from(s@, 0));
    }
    loop
        invariant
            n == s@.len(),
            i <= n,
            views(out@) + words_from(s@, i as int) == words(s@),
        decreases n - i,
    {
        let ghost from = i as int;
        proof {
            lemma_word_bounds(s@, from);
        }
        let mut b: usize = i;
        while b < n && is_whitespace(s.get_char(b))
            invariant
                n == s@.len(),
                b <= n,
                skip_spaces(s@, b as int) == skip_spaces(s@, from),
            decreases n - b,
        {
            b = b + 1;
        }
        if b >= n {
            proof {
                assert(words_from(s@, from) =~= Seq::<Seq<char>>::empty());
                assert(views(out@) =~= words(s@));
            }
            return out;
        }
        let mut e: usize = b;
        proof {
            lemma_word_bounds(s@, b as int);
            lemma_word_bounds(s@, b + 1);
        }
        while e < n && !is_whitespace(s.get_char(e))
            invariant
                n == s@.len(),
                b <= e <= n,
                word_end(s@, e as int) == word_end(s@, b as int),
            decreases n - e,
        {
            e = e + 1;
        }
        let word: String = part(s, b, e);
        let ghost before = views(out@);
        out.push(word);
        proof {
            let w = s@.subrange(b as int, e as int);
            assert(views(out@) =~= before.push(w));
            assert(words_from(s@, from) == seq![w] + words_from(s@, e as int));
            assert(before + (seq![w] + words_from(s@, e as int)) =~= views(out@) + words_from(
                s@,
                e as int,
            ));
        }
        i = e;
    }
}

/// Texts with a blank between each two.
pub open spec fn spaced(list: Seq<Seq<char>>) -> Seq<char>
    decreases list.len(),
{
    if list.len() == 0 {
        Seq::empty()
    } else if list.len() == 1 {
        list[0]
    } else {
        spaced(list.drop_last()) + " "@ + list.last()
    }
}

/// Joins texts with a blank between each two.
pub fn join_spaced(list: &Vec<String>) -> (r: String)
    ensures
        r@ == spaced(views(list@)),
{
    let mut out: String = String::new();
    let mut i: usize = 0;
    proof {
        assert(views(list@).subrange(0, 0) =~= Seq::<Seq<char>>::empty());
        assert(out@ =~= Seq::<char>::empty());
    }
    while i < list.len()
        invariant
            i <= list.len(),
            out@ == spaced(views(list@).subrange(0, i as int)),
        decreases list.len() - i,
    {
        let ghost upto = views(list@).subrange(0, i + 1);
        proof {
            assert(upto.drop_last() =~= views(list@).subrange(0, i as int));
            assert(upto.last() == list@[i as int]@);
        }
        if i > 0 {
            out.append(" ");
        }
        out.append(list[i].as_str());
        proof {
            if i == 0 {
                assert(upto[0] == list@[0]@);
                assert(out@ =~= list@[0]@);
            }
        }
        i = i + 1;
    }
    proof {
        assert(views(list@).subrange(0, list.len() as int) =~= views(list@));
    }
    out
}

/// A text that is one word: something, and no white space.
pub open spec fn is_word(s: Seq<char>) -> bool {
    s.len() > 0 && forall|i: int| 0 <= i < s.len() ==> !is_space(#[trigger] s[i])
}

/// Texts each of which is one word.
pub open spec fn all_words(list: Seq<Seq<char>>) -> bool {
    forall|i: int| 0 <= i < list.len() ==> is_word(#[trigger] list[i])
}

proof fn lemma_word_to_the_end(s: Seq<char>, i: int)
    requires
        0 <= i <= s.len(),
        forall|k: int| i <= k < s.len() ==> !is_space(#[trigger] s[k]),
    ensures
        word_end(s, i) == s.len(),
    decreases s.len() - i,
{
    if i < s.len() {
        lemma_word_to_the_end(s, i + 1);
    }
}

proof fn lemma_same_start(s: Seq<char>, t: Seq<char>, i: int)
    requires
        0 <= i <= s.len() < t.len(),
        is_space(t[s.len() as int]),
        forall|k: int| 0 <= k < s.len() ==> s[k] == #[trigger] t[k],
    ensures
        skip_spaces(s, i) < s.len() ==> skip_spaces(t, i) == skip_spaces(s, i),
        skip_spaces(s, i) >= s.len() ==> skip_spaces(t, i) == skip_spaces(t, s.len() as int + 1),
        word_end(t, i) == word_end(s, i),
    decreases s.len() - i,
{
    if i < s.len() {
        lemma_same_start(s, t, i + 1);
    }
}

proof fn lemma_one_more_word(s: Seq<char>, w: Seq<char>, i: int)
    requires
        0 <= i <= s.len(),
        is_word(w),
    ensures
        words_from(s + " "@ + w, i) == words_from(s, i).push(w),
    decreases s.len() - i,
{
    reveal_strlit(" ");
    let t = s + " "@ + w;
    let n = s.len() as int;
    assert(t[n] == ' ');
    lemma_same_start(s, t, i);
    lemma_word_bounds(s, i);
    let b = skip_spaces(s, i);
    if b < n {
        lemma_same_start(s, t, b);
        lemma_word_bounds(s, b);
        lemma_word_bounds(s, b + 1);
        let e = word_end(s, b);
        assert(e > b);
        lemma_one_more_word(s, w, e);
        assert(t.subrange(b, e) =~= s.subrange(b, e));
        assert((seq![s.subrange(b, e)] + words_from(s, e)).push(w) =~= seq![s.subrange(b, e)]
            + words_from(s, e).push(w));
    } else {
        assert(forall|k: int| n + 1 <= k < t.len() ==> #[trigger] t[k] == w[k - n - 1]);
        assert(!is_space(t[n + 1]));
        assert(skip_spaces(t, n + 1) == n + 1);
        lemma_word_to_the_end(t, n + 1);
        assert(t.subrange(n + 1, t.len() as int) =~= w);
        assert(words_from(t, t.len() as int) =~= Seq::<Seq<char>>::empty());
        assert(seq![w] + words_from(t, t.len() as int) =~= words_from(s, i).push(w));
    }
}

/// Words with a blank between each two read back.
pub proof fn spaced_words_read_back(list: Seq<Seq<char>>)
    requires
        all_words(list),
    ensures
        words(spaced(list)) == list,
    decreases list.len(),
{
    if list.len() == 0 {
        assert(words(spaced(list)) =~= list);
    } else if list.len() == 1 {
        let w = list[0];
        assert(skip_spaces(w, 0) == 0) by {
            assert(!is_space(w[0]));
        }
        lemma_word_to_the_end(w, 0);
        assert(w.subrange(0, w.len() as int) =~= w);
        assert(words_from(w, w.len() as int) =~= Seq::<Seq<char>>::empty());
        assert(words(w) =~= list);
    } else {
        spaced_words_read_back(list.drop_last());
        assert(is_word(list[list.len() - 1]));
        lemma_one_more_word(spaced(list.drop_last()), list.last(), 0);
        assert(list.drop_last().push(list.last()) =~= list);
    }
}

/// The decimal digit `d`.
pub open spec fn digit_char(d: int) -> char {
    (('0' as u32) + d) as u32 as char
}

/// `n` in decimal, without leading zeros.
pub open spec fn nat_text(n: nat) -> Seq<char>
    decreases n,
{
    if n < 10 {
        seq![digit_char(n as int)]
    } else {
        nat_text(n / 10).push(digit_char((n % 10) as int))
    }
}

/// `n` in decimal, with a minus sign where it is negative.
pub open spec fn int_text(n: int) -> Seq<char> {
    if n < 0 {
        seq!['-'] + nat_text((-n) as nat)
    } else {
        nat_text(n as nat)
    }
}

fn digit_text(d: u64) -> (r: &'static str)
    requires
        d < 10,
    ensures
        r@ == seq![digit_char(d as int)],
{
    proof {
        reveal_strlit("0");
        reveal_strlit("1");
        reveal_strlit("2");
        reveal_strlit("3");
        reveal_strlit("4");
        reveal_strlit("5");
        reveal_strlit("6");
        reveal_strlit("7");
        reveal_strlit("8");
        reveal_strlit("9");
    }
    let r: &'static str = match d {
        0 => "0",
        1 => "1",
        2 => "2",
        3 => "3",
        4 => "4",
        5 => "5",
        6 => "6",
        7 => "7",
        8 => "8",
        _ => "9",
    };
    assert(r@ =~= seq![digit_char(d as int)]);
    r
}

/// `n` in decimal.
pub fn u64_text(n: u64) -> (r: String)
    ensures
        r@ == nat_text(n as nat),
    decreases n,
{
    if n < 10 {
        digit_text(n).to_owned()
    } else {
        let mut out: String = u64_text(n / 10);
        let ghost before = out@;
        out.append(digit_text(n % 10));
        proof {
            assert(out@ =~= before.push(digit_char((n % 10) as int)));
        }
        out
    }
}

/// `n` in decimal, with a minus sign where it is negative.
pub fn i64_text(n: i64) -> (r: String)
    ensures
        r@ == int_text(n as int),
{
    if n < 0 {
        let m: u64 = (-(n as i128)) as u64;
        proof {
            reveal_strlit("-");
            assert("-"@ =~= seq!['-']);
        }
        let digits: String = u64_text(m);
        join2("-", digits.as_str())
    } else {
        u64_text(n as u64)
    }
}

/// The value of a decimal digit.
pub open spec fn digit_value(c: char) -> Option<int> {
    if '0' <= c <= '9' {
        Some(c as int - '0' as int)
    } else {
        None
    }
}

/// The value of a run of decimal digits; none where another character occurs.
pub open spec fn digits_value(s: Seq<char>) -> Option<int>
    decreases s.len(),
{
    if s.len() == 0 {
        Some(0)
    } else {
        match (digits_value(s.drop_last()), digit_value(s.last())) {
            (Some(head), Some(d)) => Some(head * 10 + d),
            _ => None,
        }
    }
}

/// The number that a decimal text spells: an optional sign and at least one digit.
pub open spec fn int_value(s: Seq<char>) -> Option<int> {
    if s.len() > 0 && (s[0] == '+' || s[0] == '-') {
        if s.len() == 1 {
            None
        } else {
            match digits_value(s.subrange(1, s.len() as int)) {
                Some(v) => Some(if s[0] == '-' { -v } else { v }),
                None => None,
            }
        }
    } else if s.len() == 0 {
        None
    } else {
        digits_value(s)
    }
}

/// `int_value`, as far as the number lies within `lo` and `hi`.
pub open spec fn int_within(s: Seq<char>, lo: int, hi: int) -> Option<int> {
    match int_value(s) {
        Some(v) => if lo <= v <= hi { Some(v) } else { None },
        None => None,
    }
}

proof fn digits_value_monotone(s: Seq<char>, k: int)
    requires
        0 <= k <= s.len(),
        digits_value(s) is Some,
    ensures
        digits_value(s.subrange(0, k)) is Some,
        0 <= digits_value(s.subrange(0, k))->0 <= digits_value(s)->0,
    decreases s.len(),
{
    if k == s.len() {
        assert(s.subrange(0, k) =~= s);
        if s.len() > 0 {
            digits_value_monotone(s.drop_last(), s.len() - 1);
            assert(s.drop_last().subrange(0, s.len() - 1) =~= s.drop_last());
        }
    } else {
        digits_value_monotone(s.drop_last(), k);
        assert(s.drop_last().subrange(0, k) =~= s.subrange(0, k));
    }
}

/// Reads the digits of `s` from position `from` on, as long as the value stays at or below `max`.
fn read_digits(s: &str, from: usize, max: u64) -> (r: Option<u64>)
    requires
        from <= s@.len(),
    ensures
        ({
            let v = digits_value(s@.subrange(from as int, s@.len() as int));
            r == match v {
                Some(x) => if x <= max { Some(x as u64) } else { None },
                None => None,
            }
        }),
{
    let n: usize = s.unicode_len();
    let mut i: usize = from;
    let mut acc: u64 = 0;
    let ghost all = s@.subrange(from as int, s@.len() as int);
    while i < n
        invariant
            n == s@.len(),
            from <= i <= n,
            all == s@.subrange(from as int, n as int),
            acc <= max,
            digits_value(all.subrange(0, i - from)) == Some(acc as int),
        decreases n - i,
    {
        let c: char = s.get_char(i);
        proof {
            let upto = all.subrange(0, i + 1 - from);
            assert(upto.drop_last() =~= all.subrange(0, i - from));
            assert(upto.last() == c);
            if digits_value(all) is Some {
                digits_value_monotone(all, i + 1 - from);
            }
        }
        if !('0' <= c && c <= '9') {
            return None;
        }
        let d: u64 = (c as u32 - '0' as u32) as u64;
        let next: u128 = acc as u128 * 10 + d as u128;
        if next > max as u128 {
            return None;
        }
        acc = next as u64;
        i = i + 1;
    }
    proof {
        assert(all.subrange(0, n - from) =~= all);
    }
    Some(acc)
}

/// Reads a decimal `i64`: an optional sign and at least one digit, in range.
pub fn parse_i64(s: &str) -> (r: Option<i64>)
    ensures
        match r {
            Some(v) => int_within(s@, i64::MIN as int, i64::MAX as int) == Some(v as int),
            None => int_within(s@, i64::MIN as int, i64::MAX as int) is None,
        },
{
    let n: usize = s.unicode_len();
    if n == 0 {
        return None;
    }
    let c: char = s.get_char(0);
    if c == '+' || c == '-' {
        if n == 1 {
            return None;
        }
        proof {
            let rest = s@.subrange(1, n as int);
            if digits_value(rest) is Some {
                digits_value_monotone(rest, 0);
            }
        }
        if c == '-' {
            match read_digits(s, 1, 9223372036854775808) {
                Some(v) => Some((-(v as i128)) as i64),
                None => None,
            }
        } else {
            match read_digits(s, 1, 9223372036854775807) {
                Some(v) => Some(v as i64),
                None => None,
            }
        }
    } else {
        proof {
            assert(s@.subrange(0, n as int) =~= s@);
            if digits_value(s@) is Some {
                digits_value_monotone(s@, 0);
            }
        }
        match read_digits(s, 0, 9223372036854775807) {
            Some(v) => Some(v as i64),
            None => None,
        }
    }
}

/// The `u16` that a decimal text spells: an optional plus sign and at least one digit, in range.
pub open spec fn u16_value(s: Seq<char>) -> Option<u16> {
    if s.len() == 0 || s[0] == '-' {
        None
    } else {
        match int_within(s, 0, u16::MAX as int) {
            Some(v) => Some(v as u16),
            None => None,
        }
    }
}

/// Reads a decimal `u16`.
pub fn parse_u16(s: &str) -> (r: Option<u16>)
    ensures
        r == u16_value(s@),
{
    let n: usize = s.unicode_len();
    if n == 0 {
        return None;
    }
    let c: char = s.get_char(0);
    if c == '-' {
        return None;
    }
    let from: usize = if c == '+' { 1 } else { 0 };
    if from == n {
        return None;
    }
    proof {
        let rest = s@.subrange(from as int, n as int);
        if digits_value(rest) is Some {
            digits_value_monotone(rest, 0);
        }
        if from == 0 {
            assert(rest =~= s@);
        }
    }
    match read_digits(s, from, 65535) {
        Some(v) => Some(v as u16),
        None => None,
    }
}

/// A number reads back from its decimal text, and the text holds digits alone.
pub proof fn nat_text_reads_back(n: nat)
    ensures
        digits_value(nat_text(n)) == Some(n as int),
        nat_text(n).len() > 0,
        forall|i: int| 0 <= i < nat_text(n).len() ==> '0' <= #[trigger] nat_text(n)[i] <= '9',
    decreases n,
{
    if n < 10 {
        let t = nat_text(n);
        assert(t.drop_last() =~= Seq::<char>::empty());
        assert(digits_value(t.drop_last()) == Some(0int));
        assert(t.last() == digit_char(n as int));
    } else {
        nat_text_reads_back(n / 10);
        let t = nat_text(n);
        assert(t.drop_last() =~= nat_text(n / 10));
    }
}

/// Every number reads back from its decimal text, and the text holds digits and a sign alone.
pub proof fn int_text_reads_back(n: int)
    ensures
        int_value(int_text(n)) == Some(n),
        forall|i: int|
            0 <= i < int_text(n).len() ==> #[trigger] int_text(n)[i] == '-' || '0' <= int_text(n)[i]
                <= '9',
{
    if n < 0 {
        nat_text_reads_back((-n) as nat);
        let t = int_text(n);
        assert(t.subrange(1, t.len() as int) =~= nat_text((-n) as nat));
        assert forall|i: int| 0 <= i < t.len() implies #[trigger] t[i] == '-' || '0' <= t[i] <= '9' by {
            if i > 0 {
                assert(t[i] == nat_text((-n) as nat)[i - 1]);
            }
        }
    } else {
        nat_text_reads_back(n as nat);
        let t = int_text(n);
        assert(t[0] == nat_text(n as nat)[0]);
    }
}

/// Trimming cuts off white space at both ends and nothing else: what is left is a part of the text, all
/// round it is white space, and neither end of it is.
pub proof fn only_space_is_trimmed(s: Seq<char>)
    ensures
        exists|i: int, j: int|
            0 <= i <= j <= s.len() && trimmed(s) == #[trigger] s.subrange(i, j) && (forall|k: int|
                (0 <= k < i || j <= k < s.len()) ==> is_space(#[trigger] s[k])),
        trimmed(s).len() > 0 ==> !is_space(trimmed(s)[0]) && !is_space(
            trimmed(s)[trimmed(s).len() - 1],
        ),
{
    lemma_cut_in_front(s);
    let t = trim_start(s);
    lemma_cut_behind(t);
    let i = s.len() - t.len();
    let j = i + trim_end(t).len();
    assert(trimmed(s) =~= s.subrange(i, j));
    assert forall|k: int| (0 <= k < i || j <= k < s.len()) implies is_space(#[trigger] s[k]) by {
        if k >= j {
            assert(t[k - i] == s[k]);
        }
    }
    if trimmed(s).len() > 0 {
        assert(trimmed(s)[0] == t[0]);
    }
}

proof fn lemma_cut_in_front(s: Seq<char>)
    ensures
        trim_start(s).len() <= s.len(),
        trim_start(s) == s.subrange(s.len() - trim_start(s).len(), s.len() as int),
        forall|k: int| 0 <= k < s.len() - trim_start(s).len() ==> is_space(#[trigger] s[k]),
        trim_start(s).len() > 0 ==> !is_space(trim_start(s)[0]),
    decreases s.len(),
{
    if s.len() > 0 && is_space(s[0]) {
        let rest = s.subrange(1, s.len() as int);
        lemma_cut_in_front(rest);
        let t = trim_start(rest);
        assert(t =~= s.subrange(s.len() - t.len(), s.len() as int));
        assert forall|k: int| 0 <= k < s.len() - t.len() implies is_space(#[trigger] s[k]) by {
            if k > 0 {
                assert(rest[k - 1] == s[k]);
            }
        }
    } else {
        assert(s =~= s.subrange(0, s.len() as int));
    }
}

proof fn lemma_cut_behind(s: Seq<char>)
    ensures
        trim_end(s).len() <= s.len(),
        trim_end(s) == s.subrange(0, trim_end(s).len() as int),
        forall|k: int| trim_end(s).len() <= k < s.len() ==> is_space(#[trigger] s[k]),
        trim_end(s).len() > 0 ==> !is_space(trim_end(s)[trim_end(s).len() - 1]),
    decreases s.len(),
{
    if s.len() > 0 && is_space(s[s.len() - 1]) {
        let rest = s.subrange(0, s.len() - 1);
        lemma_cut_behind(rest);
        let t = trim_end(rest);
        assert(t =~= s.subrange(0, t.len() as int));
        assert forall|k: int| t.len() <= k < s.len() implies is_space(#[trigger] s[k]) by {
            if k < s.len() - 1 {
                assert(rest[k] == s[k]);
            }
        }
    } else {
        assert(s =~= s.subrange(0, s.len() as int));
    }
}

/// Of the ASCII characters the blank and the five controls from tab to carriage return are white space,
/// and no other one is.
pub proof fn ascii_space(c: char)
    requires
        c < '\u{80}',
    ensures
        is_space(c) <==> c == ' ' || c == '\t' || c == '\n' || c == '\r' || c == '\u{b}' || c
            == '\u{c}',
{
}

/// An optional text is left out exactly where it holds white space alone.
pub proof fn blank_text_is_none(s: Seq<char>)
    ensures
        trimmed_or_none(None::<Seq<char>>) is None,
        trimmed_or_none(Some(s)) is None <==> (forall|k: int|
            0 <= k < s.len() ==> is_space(#[trigger] s[k])),
        trimmed_or_none(Some(s)) matches Some(t) ==> t == trimmed(s) && t.len() > 0,
{
    only_space_is_trimmed(s);
    let (i, j) = choose|i: int, j: int|
        0 <= i <= j <= s.len() && trimmed(s) == #[trigger] s.subrange(i, j) && (forall|k: int|
            (0 <= k < i || j <= k < s.len()) ==> is_space(#[trigger] s[k]));
    if trimmed(s).len() > 0 {
        assert(trimmed(s)[0] == s[i]);
        assert(!is_space(s[i]));
    } else {
        assert(i == j);
        assert forall|k: int| 0 <= k < s.len() implies is_space(#[trigger] s[k]) by {}
    }
}

/// What is put behind a text stands at its end.
pub proof fn lemma_suffix(head: Seq<char>, tail: Seq<char>)
    ensures
        tail.is_suffix_of(head + tail),
{
    let whole = head + tail;
    assert(whole.subrange(whole.len() - tail.len(), whole.len() as int) =~= tail);
}

} // verus!
