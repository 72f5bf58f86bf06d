//! The demo library shown before a Spotify account is connected, and the
//! `m:ss` durations it is written with.

use vstd::prelude::*;
use crate::model::{Track, TrackV, texts, tracks_v};
use crate::text::{chars_of, decimal, decimal_string, occurs_at, occurs_at_exec, owned, push_char};

verus! {

/// `c` is an ASCII decimal digit.
pub open spec fn is_digit(c: char) -> bool {
    '0' <= c && c <= '9'
}

/// The value of an ASCII digit.
pub open spec fn digit_value(c: char) -> nat {
    (c as int - 48) as nat
}

/// The value of a run of decimal digits.
pub open spec fn digits_value(d: Seq<char>) -> nat
    decreases d.len(),
{
    if d.len() == 0 {
        0
    } else {
        digits_value(d.drop_last()) * 10 + digit_value(d.last())
    }
}

/// All characters of `d` are decimal digits.
pub open spec fn all_digits(d: Seq<char>) -> bool {
    forall|i: int| 0 <= i < d.len() ==> is_digit(d[i])
}

/// The digits of an unsigned number text: without one leading `+`.
pub open spec fn unsigned_digits(s: Seq<char>) -> Seq<char> {
    if s.len() > 0 && s[0] == '+' { s.drop_first() } else { s }
}

/// What `str::parse::<u32>` gives: an optional `+`, then at least one
/// decimal digit, and a value that fits.
pub open spec fn parse_u32(s: Seq<char>) -> Option<u32> {
    let d = unsigned_digits(s);
    if d.len() > 0 && all_digits(d) && digits_value(d) <= u32::MAX {
        Some(digits_value(d) as u32)
    } else {
        None
    }
}

proof fn lemma_digits_value_grows(d: Seq<char>, k: int)
    requires
        0 <= k <= d.len(),
    ensures
        digits_value(d.subrange(0, k)) <= digits_value(d),
    decreases d.len() - k,
{
    if k < d.len() {
        lemma_digits_value_grows(d, k + 1);
        assert(d.subrange(0, k + 1).drop_last() =~= d.subrange(0, k));
    } else {
        assert(d.subrange(0, k) =~= d);
    }
}

/// Parses an unsigned 32-bit number the way `str::parse::<u32>` does.
pub fn parse_u32_text(s: &str) -> (r: Option<u32>)
    ensures
        r == parse_u32(s@),
{
    let c = chars_of(s);
    let start: usize = if c.len() > 0 && c[0] == '+' { 1 } else { 0 };
    let ghost d = unsigned_digits(s@);
    assert(d =~= s@.subrange(start as int, s@.len() as int));
    if start == c.len() {
        return None;
    }
    let mut value: u64 = 0;
    let mut i: usize = start;
    while i < c.len()
        invariant
            c@ == s@,
            d == s@.subrange(start as int, s@.len() as int),
            d == unsigned_digits(s@),
            start <= i <= c@.len(),
            start < c@.len(),
            all_digits(d.subrange(0, i - start)),
            value as nat == digits_value(d.subrange(0, i - start)),
            value <= u32::MAX,
        decreases c.len() - i,
    {
        let ch = c[i];
        let ghost k = (i - start) as int;
        assert(d[k] == ch);
        if !('0' <= ch && ch <= '9') {
            assert(!is_digit(d[k]));
            assert(!all_digits(d));
            return None;
        }
        assert(d.subrange(0, k + 1).drop_last() =~= d.subrange(0, k));
        assert(d.subrange(0, k + 1).last() == ch);
        let next = value * 10 + ((ch as u32 - 48) as u64);
        assert(next as nat == digits_value(d.subrange(0, k + 1)));
        if next > 0xffff_ffff {
            proof {
                lemma_digits_value_grows(d, k + 1);
            }
            return None;
        }
        value = next;
        i = i + 1;
    }
    assert(d.subrange(0, d.len() as int) =~= d);
    Some(value as u32)
}

/// The position of the first occurrence of `sep` in `s`.
pub open spec fn is_first_occurrence(s: Seq<char>, sep: Seq<char>, i: int) -> bool {
    &&& occurs_at(s, sep, i)
    &&& forall|j: int| 0 <= j < i ==> !occurs_at(s, sep, j)
}

/// The pieces `str::split` cuts `s` into at each occurrence of `sep`,
/// scanning from the left.
pub open spec fn split_seq(s: Seq<char>, sep: Seq<char>) -> Seq<Seq<char>>
    decreases s.len(),
{
    if sep.len() > 0 && exists|i: int| is_first_occurrence(s, sep, i) {
        let i = choose|i: int| is_first_occurrence(s, sep, i);
        seq![s.subrange(0, i)] + split_seq(s.subrange(i + sep.len(), s.len() as int), sep)
    } else {
        seq![s]
    }
}

proof fn lemma_occurs_in_rest(s: Seq<char>, sep: Seq<char>, start: int, j: int)
    requires
        0 <= start <= s.len(),
    ensures
        occurs_at(s.subrange(start, s.len() as int), sep, j) <==> (j >= 0 && occurs_at(s, sep, start + j)),
{
    let rest = s.subrange(start, s.len() as int);
    if 0 <= j && j + sep.len() <= rest.len() {
        assert(rest.subrange(j, j + sep.len()) =~= s.subrange(start + j, start + j + sep.len()));
    }
}

fn piece(c: &Vec<char>, from: usize, to: usize) -> (s: String)
    requires
        from <= to <= c@.len(),
    ensures
        s@ == c@.subrange(from as int, to as int),
{
    let mut s = String::new();
    let mut i = from;
    while i < to
        invariant
            from <= i <= to <= c@.len(),
            s@ == c@.subrange(from as int, i as int),
        decreases to - i,
    {
        push_char(&mut s, c[i]);
        i = i + 1;
    }
    s
}

/// Splits `s` at each occurrence of the non-empty `sep`, as `str::split`
/// does.
pub fn split_text(s: &str, sep: &str) -> (r: Vec<String>)
    requires
        sep@.len() > 0,
    ensures
        texts(r@) == split_seq(s@, sep@),
{
    let c = chars_of(s);
    let p = chars_of(sep);
    let n = c.len();
    let mut r: Vec<String> = Vec::new();
    let mut start: usize = 0;
    let mut i: usize = 0;
    assert(s@.subrange(0, n as int) =~= s@);
    assert(texts(r@) =~= Seq::<Seq<char>>::empty());
    while i < n && p.len() <= n - i
        invariant
            c@ == s@,
            p@ == sep@,
            n == s@.len(),
            p@.len() > 0,
            start <= i <= n,
            split_seq(s@, sep@) == texts(r@) + split_seq(s@.subrange(start as int, n as int), sep@),
            forall|j: int| start <= j < i ==> !occurs_at(s@, sep@, j),
        decreases n - i,
    {
        if occurs_at_exec(&c, &p, i) {
            let ghost rest = s@.subrange(start as int, n as int);
            let ghost k = (i - start) as int;
            proof {
                assert forall|j: int| 0 <= j < k implies !occurs_at(rest, sep@, j) by {
                    lemma_occurs_in_rest(s@, sep@, start as int, j);
                }
                lemma_occurs_in_rest(s@, sep@, start as int, k);
                assert(is_first_occurrence(rest, sep@, k));
                let w = choose|w: int| is_first_occurrence(rest, sep@, w);
                if w < k {
                    assert(!occurs_at(rest, sep@, w));
                } else if k < w {
                    assert(!occurs_at(rest, sep@, k));
                }
                assert(rest.subrange(0, k) =~= s@.subrange(start as int, i as int));
                assert(rest.subrange(k + sep@.len(), rest.len() as int) =~= s@.subrange(i + sep@.len(), n as int));
            }
            let ghost before = r@;
            r.push(piece(&c, start, i));
            assert(texts(r@) =~= texts(before).push(s@.subrange(start as int, i as int)));
            start = i + p.len();
            i = start;
        } else {
            i = i + 1;
        }
    }
    proof {
        let rest = s@.subrange(start as int, n as int);
        assert forall|j: int| !is_first_occurrence(rest, sep@, j) by {
            lemma_occurs_in_rest(s@, sep@, start as int, j);
            if j >= 0 && start + j < i {
            } else if j >= 0 {
                assert(!occurs_at(s@, sep@, start + j));
            }
        }
    }
    let ghost before = r@;
    r.push(piece(&c, start, n));
    assert(texts(r@) =~= texts(before).push(s@.subrange(start as int, n as int)));
    r
}


/// Parses one piece of a duration.
pub open spec fn parse_piece() -> spec_fn(Seq<char>) -> Option<u32> {
    |p: Seq<char>| parse_u32(p)
}

/// The numbers among the `:`-separated pieces of a duration text.
pub open spec fn duration_parts(v: Seq<char>) -> Seq<u32> {
    split_seq(v, ":"@).filter_map(parse_piece())
}

/// Milliseconds of an `m:ss` text: exactly two numeric pieces, minutes and
/// seconds; 0 for any other shape.
pub open spec fn duration_value(v: Seq<char>) -> nat {
    let p = duration_parts(v);
    if p.len() != 2 {
        0
    } else {
        ((p[0] * 60 + p[1]) * 1000) as nat
    }
}

/// Milliseconds of an `m:ss` duration text, 0 when it is not two numbers
/// separated by `:`.
pub fn parse_duration(value: &str) -> (ms: u32)
    requires
        duration_value(value@) <= u32::MAX,
    ensures
        ms as nat == duration_value(value@),
{
    proof {
        reveal_strlit(":");
    }
    let pieces = split_text(value, ":");
    let ghost all = texts(pieces@);
    let mut parts: Vec<u32> = Vec::new();
    let mut i: usize = 0;
    while i < pieces.len()
        invariant
            all == texts(pieces@),
            i <= pieces@.len(),
            parts@ == all.subrange(0, i as int).filter_map(parse_piece()),
        decreases pieces.len() - i,
    {
        assert(all.subrange(0, i + 1).drop_last() =~= all.subrange(0, i as int));
        assert(all.subrange(0, i + 1).last() == pieces@[i as int]@);
        match parse_u32_text(pieces[i].as_str()) {
            Some(n) => {
                parts.push(n);
            },
            None => {},
        }
        i = i + 1;
    }
    assert(all.subrange(0, pieces@.len() as int) =~= all);
    if parts.len() != 2 {
        return 0;
    }
    (parts[0] * 60 + parts[1]) * 1000
}

/// The duration of a one-digit-minute `m:ss` text.
proof fn lemma_short_duration(v: Seq<char>)
    requires
        v.len() == 4,
        is_digit(v[0]),
        v[1] == ':',
        is_digit(v[2]),
        is_digit(v[3]),
    ensures
        duration_value(v) == (digit_value(v[0]) * 60 + digit_value(v[2]) * 10 + digit_value(v[3])) * 1000,
        duration_value(v) <= u32::MAX,
{
    reveal_strlit(":");
    let sep = ":"@;
    assert(occurs_at(v, sep, 1)) by {
        assert(v.subrange(1, 2) =~= sep);
    }
    assert(!occurs_at(v, sep, 0)) by {
        assert(v.subrange(0, 1)[0] != sep[0]);
    }
    assert(is_first_occurrence(v, sep, 1));
    let w = choose|w: int| is_first_occurrence(v, sep, w);
    assert(w == 1) by {
        if w < 1 {
        } else if w > 1 {
            assert(!occurs_at(v, sep, 1));
        }
    }
    let minutes = v.subrange(0, 1);
    let seconds = v.subrange(2, 4);
    assert forall|j: int| !is_first_occurrence(seconds, sep, j) by {
        if occurs_at(seconds, sep, j) {
            assert(seconds.subrange(j, j + 1)[0] == sep[0]);
        }
    }
    assert(split_seq(seconds, sep) == seq![seconds]);
    assert(split_seq(v, sep) =~= seq![minutes, seconds]);
    reveal_with_fuel(digits_value, 3);
    assert(unsigned_digits(minutes) == minutes);
    assert(unsigned_digits(seconds) == seconds);
    assert(minutes.drop_last() =~= Seq::<char>::empty());
    assert(seconds.drop_last().drop_last() =~= Seq::<char>::empty());
    assert(parse_u32(minutes) == Some(digit_value(v[0]) as u32));
    assert(parse_u32(seconds) == Some((digit_value(v[2]) * 10 + digit_value(v[3])) as u32));
    let pieces = seq![minutes, seconds];
    reveal_with_fuel(Seq::filter_map, 3);
    assert(pieces.drop_last() =~= seq![minutes]);
    assert(pieces.drop_last().drop_last() =~= Seq::<Seq<char>>::empty());
    assert(duration_parts(v) =~= seq![digit_value(v[0]) as u32, (digit_value(v[2]) * 10 + digit_value(v[3])) as u32]);
}


/// The demo catalogue: title, comma-separated artists and `m:ss` duration
/// of each track.
pub open spec fn demo_rows() -> Seq<(Seq<char>, Seq<char>, Seq<char>)> {
    seq![
        ("Nabokov"@, "Fontaines D.C."@, "5:21"@),
        ("You Don't Need Anyone"@, "oskar med k, kris., mondaé"@, "2:38"@),
        ("This Modern Love"@, "Bloc Party"@, "4:26"@),
        ("Cross The Street"@, "Junior Varsity"@, "2:47"@),
        ("Truth"@, "Flycatcher"@, "3:12"@),
        ("East Village"@, "Spacey Jane"@, "3:31"@),
        ("Sunscreen"@, "Ax and the Hatchetmen"@, "2:54"@),
        ("Great Pretender"@, "Dominic Fike"@, "2:51"@),
        ("What Do We Ever Really Know?"@, "Balu Brigada"@, "3:53"@),
        ("Warm Nights"@, "Royel Otis"@, "3:31"@),
        ("SPEND THE WEEK"@, "Laszewo"@, "2:45"@),
        ("Hotel Room"@, "Ax and the Hatchetmen"@, "2:28"@),
        ("Golden Gate Girl"@, "Balu Brigada"@, "3:17"@),
        ("Mother"@, "Royel Otis"@, "3:13"@),
        ("New York"@, "Junior Varsity"@, "2:43"@),
        ("Right As Rain"@, "MisterWives"@, "4:17"@),
    ]
}

/// The demo track at position `i`: id `i + 1`, its artists split at `", "`,
/// the album "August 2026", and only the first one saved.
pub open spec fn demo_track_v(i: int, title: Seq<char>, artists: Seq<char>, duration: Seq<char>) -> TrackV {
    TrackV {
        id: decimal((i + 1) as nat),
        title,
        artists: split_seq(artists, ", "@),
        album: "August 2026"@,
        duration_ms: duration_value(duration) as u32,
        saved: Some(i == 0),
    }
}

/// The whole demo library.
pub open spec fn demo_tracks() -> Seq<TrackV> {
    Seq::new(demo_rows().len(), |i: int| demo_track_v(i, demo_rows()[i].0, demo_rows()[i].1, demo_rows()[i].2))
}

fn demo_track(index: usize, title: &str, artists: &str, duration: &str) -> (t: Track)
    requires
        index < 16,
        duration_value(duration@) <= u32::MAX,
    ensures
        t@ == demo_track_v(index as int, title@, artists@, duration@),
{
    proof {
        reveal_strlit(", ");
    }
    Track {
        id: decimal_string((index + 1) as u128),
        title: owned(title),
        artists: split_text(artists, ", "),
        album: owned("August 2026"),
        duration_ms: parse_duration(duration),
        saved: Some(index == 0),
    }
}

/// The library shown before a Spotify account is connected.
pub fn demo_library() -> (r: Vec<Track>)
    ensures
        tracks_v(r@) == demo_tracks(),
{
    let mut r: Vec<Track> = Vec::new();
    proof {
        reveal_strlit("5:21");
        lemma_short_duration("5:21"@);
    }
    r.push(demo_track(0, "Nabokov", "Fontaines D.C.", "5:21"));
    proof {
        reveal_strlit("2:38");
        lemma_short_duration("2:38"@);
    }
    r.push(demo_track(1, "You Don't Need Anyone", "oskar med k, kris., mondaé", "2:38"));
    proof {
        reveal_strlit("4:26");
        lemma_short_duration("4:26"@);
    }
    r.push(demo_track(2, "This Modern Love", "Bloc Party", "4:26"));
    proof {
        reveal_strlit("2:47");
        lemma_short_duration("2:47"@);
    }
    r.push(demo_track(3, "Cross The Street", "Junior Varsity", "2:47"));
    proof {
        reveal_strlit("3:12");
        lemma_short_duration("3:12"@);
    }
    r.push(demo_track(4, "Truth", "Flycatcher", "3:12"));
    proof {
        reveal_strlit("3:31");
        lemma_short_duration("3:31"@);
    }
    r.push(demo_track(5, "East Village", "Spacey Jane", "3:31"));
    proof {
        reveal_strlit("2:54");
        lemma_short_duration("2:54"@);
    }
    r.push(demo_track(6, "Sunscreen", "Ax and the Hatchetmen", "2:54"));
    proof {
        reveal_strlit("2:51");
        lemma_short_duration("2:51"@);
    }
    r.push(demo_track(7, "Great Pretender", "Dominic Fike", "2:51"));
    proof {
        reveal_strlit("3:53");
        lemma_short_duration("3:53"@);
    }
    r.push(demo_track(8, "What Do We Ever Really Know?", "Balu Brigada", "3:53"));
    proof {
        reveal_strlit("3:31");
        lemma_short_duration("3:31"@);
    }
    r.push(demo_track(9, "Warm Nights", "Royel Otis", "3:31"));
    proof {
        reveal_strlit("2:45");
        lemma_short_duration("2:45"@);
    }
    r.push(demo_track(10, "SPEND THE WEEK", "Laszewo", "2:45"));
    proof {
        reveal_strlit("2:28");
        lemma_short_duration("2:28"@);
    }
    r.push(demo_track(11, "Hotel Room", "Ax and the Hatchetmen", "2:28"));
    proof {
        reveal_strlit("3:17");
        lemma_short_duration("3:17"@);
    }
    r.push(demo_track(12, "Golden Gate Girl", "Balu Brigada", "3:17"));
    proof {
        reveal_strlit("3:13");
        lemma_short_duration("3:13"@);
    }
    r.push(demo_track(13, "Mother", "Royel Otis", "3:13"));
    proof {
        reveal_strlit("2:43");
        lemma_short_duration("2:43"@);
    }
    r.push(demo_track(14, "New York", "Junior Varsity", "2:43"));
    proof {
        reveal_strlit("4:17");
        lemma_short_duration("4:17"@);
    }
    r.push(demo_track(15, "Right As Rain", "MisterWives", "4:17"));
    assert(tracks_v(r@) =~= demo_tracks());
    r
}

} // verus!
