//! Character-sequence helpers shared by the rest of the library.

use vstd::prelude::*;

verus! {

/// The ASCII digit for `d` (which is below ten).
pub open spec fn digit_char(d: nat) -> char {
    (48 + d) as char
}

/// Decimal rendering of a natural number, as `u128::to_string` writes it.
pub open spec fn decimal(n: nat) -> Seq<char>
    decreases n,
{
    if n < 10 {
        seq![digit_char(n)]
    } else {
        decimal(n / 10).push(digit_char(n % 10))
    }
}

/// `String::push`: appends one character to `s`, as std documents it.
#[verifier::external_body]
pub(crate) fn push_char(s: &mut String, c: char)
    ensures
        final(s)@ == old(s)@.push(c),
{
    s.push(c);
}

fn digit(d: u128) -> (c: char)
    requires
        d < 10,
    ensures
        c == digit_char(d as nat),
{
    let b: u8 = 48u8 + (d as u8);
    b as char
}

/// The decimal text of `n`.
pub fn decimal_string(n: u128) -> (r: String)
    ensures
        r@ == decimal(n as nat),
    decreases n,
{
    if n < 10 {
        let mut s = String::new();
        push_char(&mut s, digit(n));
        s
    } else {
        let mut s = decimal_string(n / 10);
        push_char(&mut s, digit(n % 10));
        s
    }
}


/// The characters of `s`, one by one.
pub fn chars_of(s: &str) -> (v: Vec<char>)
    ensures
        v@ == s@,
{
    let n = s.unicode_len();
    let mut v: Vec<char> = Vec::new();
    let mut i: usize = 0;
    while i < n
        invariant
            n == s@.len(),
            i <= n,
            v@ == s@.subrange(0, i as int),
        decreases n - i,
    {
        v.push(s.get_char(i));
        i = i + 1;
    }
    v
}

/// A `String` holding exactly the characters of `chars`.
pub fn string_of(chars: &Vec<char>) -> (s: String)
    ensures
        s@ == chars@,
{
    let mut s = String::new();
    let mut i: usize = 0;
    while i < chars.len()
        invariant
            i <= chars@.len(),
            s@ == chars@.subrange(0, i as int),
        decreases chars.len() - i,
    {
        push_char(&mut s, chars[i]);
        i = i + 1;
    }
    s
}

/// A fresh copy of `s`.
pub fn owned(s: &str) -> (r: String)
    ensures
        r@ == s@,
{
    String::from_str(s)
}

/// `needle` occurs in `hay` starting at position `i`.
pub open spec fn occurs_at(hay: Seq<char>, needle: Seq<char>, i: int) -> bool {
    0 <= i && i + needle.len() <= hay.len() && hay.subrange(i, i + needle.len()) == needle
}

/// `needle` occurs somewhere in `hay`.
pub open spec fn contains_seq(hay: Seq<char>, needle: Seq<char>) -> bool {
    exists|i: int| occurs_at(hay, needle, i)
}

/// Whether `needle` occurs in `hay` at position `i`.
pub(crate) fn occurs_at_exec(hay: &Vec<char>, needle: &Vec<char>, i: usize) -> (b: bool)
    requires
        i + needle@.len() <= hay@.len(),
    ensures
        b == occurs_at(hay@, needle@, i as int),
{
    let mut j: usize = 0;
    while j < needle.len()
        invariant
            i + needle@.len() <= hay@.len(),
            hay@.len() == hay.len(),
            j <= needle@.len(),
            forall|k: int| 0 <= k < j ==> hay@[i + k] == needle@[k],
        decreases needle.len() - j,
    {
        if hay[i + j] != needle[j] {
            assert(hay@.subrange(i as int, i + needle@.len())[j as int] != needle@[j as int]);
            return false;
        }
        j = j + 1;
    }
    assert(hay@.subrange(i as int, i + needle@.len()) =~= needle@);
    true
}

/// Whether `needle` occurs in `hay`, as `str::contains` answers.
pub fn contains_text(hay: &str, needle: &str) -> (b: bool)
    ensures
        b == contains_seq(hay@, needle@),
{
    let h = chars_of(hay);
    let n = chars_of(needle);
    if n.len() > h.len() {
        assert forall|i: int| !occurs_at(hay@, needle@, i) by {}
        return false;
    }
    let last = h.len() - n.len();
    let mut i: usize = 0;
    while i < last
        invariant
            h@ == hay@,
            n@ == needle@,
            last == h@.len() - n@.len(),
            i <= last,
            forall|k: int| 0 <= k < i ==> !occurs_at(hay@, needle@, k),
        decreases last - i,
    {
        if occurs_at_exec(&h, &n, i) {
            return true;
        }
        i = i + 1;
    }
    if occurs_at_exec(&h, &n, last) {
        return true;
    }
    assert forall|k: int| !occurs_at(hay@, needle@, k) by {
        if 0 <= k < i {
        }
    }
    false
}

/// Unicode White_Space, the characters `char::is_whitespace` accepts.
pub open spec fn is_space(c: char) -> bool {
    ||| ('\u{9}' <= c && c <= '\u{d}')
    ||| c == ' '
    ||| c == '\u{85}'
    ||| c == '\u{a0}'
    ||| c == '\u{1680}'
    ||| ('\u{2000}' <= c && c <= '\u{200a}')
    ||| c == '\u{2028}'
    ||| c == '\u{2029}'
    ||| c == '\u{202f}'
    ||| c == '\u{205f}'
    ||| c == '\u{3000}'
}

/// Whether `c` is Unicode white space.
pub fn space_char(c: char) -> (b: bool)
    ensures
        b == is_space(c),
{
    ('\u{9}' <= c && c <= '\u{d}') || c == ' ' || c == '\u{85}' || c == '\u{a0}' || c == '\u{1680}'
        || ('\u{2000}' <= c && c <= '\u{200a}') || c == '\u{2028}' || c == '\u{2029}' || c == '\u{202f}'
        || c == '\u{205f}' || c == '\u{3000}'
}

/// `s` without its leading white space.
pub open spec fn trim_start(s: Seq<char>) -> Seq<char>
    decreases s.len(),
{
    if s.len() > 0 && is_space(s[0]) { trim_start(s.drop_first()) } else { s }
}

/// `s` without its trailing white space.
pub open spec fn trim_end(s: Seq<char>) -> Seq<char>
    decreases s.len(),
{
    if s.len() > 0 && is_space(s.last()) { trim_end(s.drop_last()) } else { s }
}

/// What `str::trim` keeps of a string.
pub open spec fn trimmed(s: Seq<char>) -> Seq<char> {
    trim_end(trim_start(s))
}

proof fn lemma_trim_start_skips(s: Seq<char>, k: int)
    requires
        0 <= k <= s.len(),
        forall|j: int| 0 <= j < k ==> is_space(s[j]),
    ensures
        trim_start(s) == trim_start(s.subrange(k, s.len() as int)),
    decreases k,
{
    if k > 0 {
        assert(s.drop_first().subrange(k - 1, s.drop_first().len() as int) =~= s.subrange(k, s.len() as int));
        lemma_trim_start_skips(s.drop_first(), k - 1);
    } else {
        assert(s.subrange(0, s.len() as int) =~= s);
    }
}

proof fn lemma_trim_end_skips(s: Seq<char>, k: int)
    requires
        0 <= k <= s.len(),
        forall|j: int| k <= j < s.len() ==> is_space(s[j]),
    ensures
        trim_end(s) == trim_end(s.subrange(0, k)),
    decreases s.len() - k,
{
    if k < s.len() {
        assert(s.drop_last().subrange(0, k) =~= s.subrange(0, k));
        lemma_trim_end_skips(s.drop_last(), k);
    } else {
        assert(s.subrange(0, k) =~= s);
    }
}

/// The text without its leading and trailing white space, as `str::trim`
/// returns it.
pub fn trim_text(s: &str) -> (r: &str)
    ensures
        r@ == trimmed(s@),
{
    let c = chars_of(s);
    let n = c.len();
    let mut start: usize = 0;
    while start < n && space_char(c[start])
        invariant
            c@ == s@,
            n == s@.len(),
            start <= n,
            forall|j: int| 0 <= j < start ==> is_space(s@[j]),
        decreases n - start,
    {
        start = start + 1;
    }
    let mut end: usize = n;
    while end > start && space_char(c[end - 1])
        invariant
            c@ == s@,
            n == s@.len(),
            start <= end <= n,
            forall|j: int| end <= j < n ==> is_space(s@[j]),
        decreases end,
    {
        end = end - 1;
    }
    proof {
        lemma_trim_start_skips(s@, start as int);
        let rest = s@.subrange(start as int, n as int);
        assert(trim_start(rest) == rest);
        assert forall|j: int| end - start <= j < rest.len() implies is_space(rest[j]) by {
            assert(rest[j] == s@[start + j]);
        }
        lemma_trim_end_skips(rest, end - start);
        assert(rest.subrange(0, end - start) =~= s@.subrange(start as int, end as int));
    }
    s.substring_char(start, end)
}

/// The texts of `list` joined by `sep`, as `[String]::join` writes them.
pub open spec fn joined_with(list: Seq<Seq<char>>, sep: Seq<char>) -> Seq<char>
    decreases list.len(),
{
    if list.len() == 0 {
        Seq::empty()
    } else if list.len() == 1 {
        list[0]
    } else {
        joined_with(list.drop_last(), sep) + sep + list.last()
    }
}

/// The texts of a list of strings.
pub open spec fn views(v: Seq<String>) -> Seq<Seq<char>> {
    v.map_values(|s: String| s@)
}

/// The strings of `list` joined by `sep`.
pub fn join_texts(list: &Vec<String>, sep: &str) -> (r: String)
    ensures
        r@ == joined_with(views(list@), sep@),
{
    let ghost all = views(list@);
    let mut r = String::new();
    let mut i: usize = 0;
    while i < list.len()
        invariant
            all == views(list@),
            i <= list@.len(),
            r@ == joined_with(all.take(i as int), sep@),
        decreases list.len() - i,
    {
        assert(all.take(i + 1).drop_last() =~= all.take(i as int));
        if i != 0 {
            r.append(sep);
        }
        r.append(list[i].as_str());
        i = i + 1;
    }
    assert(all.take(list@.len() as int) =~= all);
    r
}

/// The length of the run of non-space characters that starts `s`.
pub open spec fn word_len(s: Seq<char>) -> nat
    decreases s.len(),
{
    if s.len() == 0 || is_space(s[0]) { 0 } else { 1 + word_len(s.drop_first()) }
}

/// Trimming leading white space never lengthens a text, and what is left
/// starts with a character that is not white space.
pub proof fn lemma_trim_start_len(s: Seq<char>)
    ensures
        trim_start(s).len() <= s.len(),
        trim_start(s).len() > 0 ==> !is_space(trim_start(s)[0]),
    decreases s.len(),
{
    if s.len() > 0 && is_space(s[0]) {
        lemma_trim_start_len(s.drop_first());
    }
}

/// A word is no longer than the text it starts, and a text that starts
/// with a non-space character starts a word of at least one character.
pub proof fn lemma_word_len_bound(s: Seq<char>)
    ensures
        word_len(s) <= s.len(),
        s.len() > 0 && !is_space(s[0]) ==> word_len(s) >= 1,
    decreases s.len(),
{
    if s.len() > 0 && !is_space(s[0]) {
        lemma_word_len_bound(s.drop_first());
    }
}

/// The white-space separated words of `s`, as `str::split_whitespace`
/// yields them.
pub open spec fn words(s: Seq<char>) -> Seq<Seq<char>>
    decreases s.len(),
{
    let t = trim_start(s);
    if t.len() == 0 {
        Seq::empty()
    } else {
        let n = word_len(t);
        proof {
            lemma_trim_start_len(s);
            lemma_word_len_bound(t);
        }
        seq![t.take(n as int)] + words(t.skip(n as int))
    }
}

proof fn lemma_word_len_exact(s: Seq<char>, k: int)
    requires
        0 <= k <= s.len(),
        forall|j: int| 0 <= j < k ==> !is_space(s[j]),
        k == s.len() || is_space(s[k]),
    ensures
        word_len(s) == k,
    decreases k,
{
    if k > 0 {
        lemma_word_len_exact(s.drop_first(), k - 1);
    }
}

/// Finds the first word of `c[from..]`: `(start, end)` with `start ==
/// c.len()` when there is none.
fn next_word(c: &Vec<char>, from: usize) -> (r: (usize, usize))
    requires
        from <= c@.len(),
    ensures
        from <= r.0 <= r.1 <= c@.len(),
        r.0 == c@.len() ==> words(c@.subrange(from as int, c@.len() as int)) == Seq::<Seq<char>>::empty(),
        r.0 < c@.len() ==> r.0 < r.1 && words(c@.subrange(from as int, c@.len() as int)) == seq![c@.subrange(r.0 as int, r.1 as int)]
            + words(c@.subrange(r.1 as int, c@.len() as int)),
{
    let n = c.len();
    let mut a = from;
    while a < n && space_char(c[a])
        invariant
            from <= a <= n,
            n == c@.len(),
            forall|j: int| from <= j < a ==> is_space(c@[j]),
        decreases n - a,
    {
        a = a + 1;
    }
    let mut b = a;
    while b < n && !space_char(c[b])
        invariant
            a <= b <= n,
            n == c@.len(),
            forall|j: int| a <= j < b ==> !is_space(c@[j]),
        decreases n - b,
    {
        b = b + 1;
    }
    proof {
        let s = c@.subrange(from as int, n as int);
        let k = (a - from) as int;
        assert forall|j: int| 0 <= j < k implies is_space(s[j]) by {
            assert(s[j] == c@[from + j]);
        }
        lemma_trim_start_skips(s, k);
        let t = s.subrange(k, s.len() as int);
        assert(t =~= c@.subrange(a as int, n as int));
        if a < n {
            assert(t[0] == c@[a as int]);
            assert(trim_start(t) == t);
            assert forall|j: int| 0 <= j < b - a implies !is_space(t[j]) by {
                assert(t[j] == c@[a + j]);
            }
            if b < n {
                assert(t[b - a] == c@[b as int]);
            }
            lemma_word_len_exact(t, b - a);
            assert(t.take(b - a) =~= c@.subrange(a as int, b as int));
            assert(t.skip(b - a) =~= c@.subrange(b as int, n as int));
        } else {
            assert(t.len() == 0);
        }
    }
    (a, b)
}

/// The second white-space separated word of `s`, as
/// `split_whitespace().nth(1)` finds it.
pub fn second_word(s: &str) -> (r: Option<String>)
    ensures
        match r {
            Some(w) => words(s@).len() > 1 && w@ == words(s@)[1],
            None => words(s@).len() <= 1,
        },
{
    let c = chars_of(s);
    let n = c.len();
    assert(c@.subrange(0, n as int) =~= s@);
    let (a, b) = next_word(&c, 0);
    if a == n {
        return None;
    }
    let (d, e) = next_word(&c, b);
    if d == n {
        return None;
    }
    let mut w = String::new();
    let mut i = d;
    while i < e
        invariant
            d <= i <= e <= c@.len(),
            w@ == c@.subrange(d as int, i as int),
        decreases e - i,
    {
        push_char(&mut w, c[i]);
        i = i + 1;
    }
    Some(w)
}

/// `k` is where the first `?` of `t` stands.
pub open spec fn is_first_question_mark(t: Seq<char>, k: int) -> bool {
    &&& 0 <= k < t.len()
    &&& t[k] == '?'
    &&& forall|j: int| 0 <= j < k ==> t[j] != '?'
}

/// What follows the first `?` of a request target, or nothing.
pub open spec fn query_of(t: Seq<char>) -> Seq<char> {
    if exists|k: int| is_first_question_mark(t, k) {
        t.subrange((choose|k: int| is_first_question_mark(t, k)) + 1, t.len() as int)
    } else {
        Seq::empty()
    }
}

/// The query of a request target: what follows its first `?`.
pub fn target_query(target: &str) -> (q: &str)
    ensures
        q@ == query_of(target@),
{
    let c = chars_of(target);
    let n = c.len();
    let mut i: usize = 0;
    while i < n
        invariant
            c@ == target@,
            n == target@.len(),
            i <= n,
            forall|j: int| 0 <= j < i ==> target@[j] != '?',
        decreases n - i,
    {
        if c[i] == '?' {
            proof {
                assert(is_first_question_mark(target@, i as int));
                let k = choose|k: int| is_first_question_mark(target@, k);
                if k < i {
                    assert(target@[k] != '?');
                } else if i < k {
                    assert(target@[i as int] != '?');
                }
            }
            return target.substring_char(i + 1, n);
        }
        i = i + 1;
    }
    assert forall|k: int| !is_first_question_mark(target@, k) by {}
    target.substring_char(n, n)
}

/// The decimal text of a number is never empty.
pub proof fn lemma_decimal_nonempty(n: nat)
    ensures
        decimal(n).len() >= 1,
        n >= 10 ==> decimal(n).len() >= 2,
    decreases n,
{
    if n >= 10 {
        lemma_decimal_nonempty(n / 10);
    }
}

/// Different numbers have different decimal texts.
pub proof fn lemma_decimal_injective(a: nat, b: nat)
    requires
        decimal(a) == decimal(b),
    ensures
        a == b,
    decreases a,
{
    lemma_decimal_nonempty(a);
    lemma_decimal_nonempty(b);
    if a < 10 && b < 10 {
        assert(decimal(a)[0] == decimal(b)[0]);
        assert(decimal(a)[0] == digit_char(a));
        assert(decimal(b)[0] == digit_char(b));
        assert(digit_char(a) as int == 48 + a);
        assert(digit_char(b) as int == 48 + b);
        assert(a == b);
    } else if a >= 10 && b >= 10 {
        assert(decimal(a).drop_last() == decimal(b).drop_last());
        assert(decimal(a).drop_last() =~= decimal(a / 10));
        assert(decimal(b).drop_last() =~= decimal(b / 10));
        lemma_decimal_injective(a / 10, b / 10);
        assert(decimal(a).last() == decimal(b).last());
        assert(decimal(a).last() == digit_char(a % 10));
        assert(decimal(b).last() == digit_char(b % 10));
        assert(digit_char(a % 10) as int == 48 + a % 10);
        assert(digit_char(b % 10) as int == 48 + b % 10);
        vstd::arithmetic::div_mod::lemma_fundamental_div_mod(a as int, 10);
        vstd::arithmetic::div_mod::lemma_fundamental_div_mod(b as int, 10);
        assert(a % 10 == b % 10);
        assert(a / 10 == b / 10);
        assert(a == b);
    } else {
        assert(decimal(a).len() != decimal(b).len());
    }
}

} // verus!
