use vstd::prelude::*;
use vstd::string::*;

verus! {

/// Unicode White_Space, the characters that `str::trim` removes.
pub open spec fn is_whitespace(c: char) -> bool {
    let u = c as u32;
    ||| 0x09 <= u <= 0x0D
    ||| u == 0x20
    ||| u == 0x85
    ||| u == 0xA0
    ||| u == 0x1680
    ||| 0x2000 <= u <= 0x200A
    ||| u == 0x2028
    ||| u == 0x2029
    ||| u == 0x202F
    ||| u == 0x205F
    ||| u == 0x3000
}

/// `s` without its leading whitespace.
pub open spec fn trim_start(s: Seq<char>) -> Seq<char>
    decreases s.len(),
{
    if s.len() > 0 && is_whitespace(s[0]) {
        trim_start(s.drop_first())
    } else {
        s
    }
}

/// `s` without its trailing whitespace.
pub open spec fn trim_end(s: Seq<char>) -> Seq<char>
    decreases s.len(),
{
    if s.len() > 0 && is_whitespace(s.last()) {
        trim_end(s.drop_last())
    } else {
        s
    }
}

/// `s` without leading and trailing whitespace.
pub open spec fn trim(s: Seq<char>) -> Seq<char> {
    trim_end(trim_start(s))
}

/// An ASCII decimal digit.
pub open spec fn is_digit(c: char) -> bool {
    0x30 <= (c as u32) <= 0x39
}

/// The value of a digit character.
pub open spec fn digit_value(c: char) -> nat {
    ((c as u32) - 0x30) as nat
}

/// Every character of `s` is an ASCII decimal digit.
pub open spec fn all_digits(s: Seq<char>) -> bool {
    forall|i: int| 0 <= i < s.len() ==> #[trigger] is_digit(s[i])
}

/// The number that a string of digits denotes.
pub open spec fn digits_value(s: Seq<char>) -> nat
    decreases s.len(),
{
    if s.len() == 0 {
        0
    } else {
        digits_value(s.drop_last()) * 10 + digit_value(s.last())
    }
}

/// A field of a clock text: one or more digits whose value fits in a `u64`.
pub open spec fn part_value(s: Seq<char>) -> Option<u64> {
    if s.len() > 0 && all_digits(s) && digits_value(s) <= u64::MAX {
        Some(digits_value(s) as u64)
    } else {
        None
    }
}

/// A plain number of seconds as `u64::from_str` reads it: an optional `+`
/// followed by one or more digits, with a value that fits in a `u64`.
pub open spec fn plain_value(s: Seq<char>) -> Option<u64> {
    if s.len() > 1 && s[0] == '+' {
        part_value(s.drop_first())
    } else {
        part_value(s)
    }
}

/// The pieces of `s` between its colons, as `str::split(':')` yields them.
pub open spec fn split_colons(s: Seq<char>) -> Seq<Seq<char>>
    decreases s.len(),
{
    if s.len() == 0 {
        seq![Seq::empty()]
    } else {
        let p = split_colons(s.drop_last());
        if s.last() == ':' {
            p.push(Seq::empty())
        } else {
            p.update(p.len() - 1, p.last().push(s.last()))
        }
    }
}

/// `MM:SS` or `HH:MM:SS` given as its pieces: minutes and seconds below 60
/// where they are not the leading field, and a total that fits in a `u64`.
pub open spec fn clock_value(parts: Seq<Seq<char>>) -> Option<u64> {
    if parts.len() == 2 {
        match (part_value(parts[0]), part_value(parts[1])) {
            (Some(m), Some(s)) => if s < 60 && m * 60 + s <= u64::MAX {
                Some((m * 60 + s) as u64)
            } else {
                None
            },
            _ => None,
        }
    } else if parts.len() == 3 {
        match (part_value(parts[0]), part_value(parts[1]), part_value(parts[2])) {
            (Some(h), Some(m), Some(s)) => if m < 60 && s < 60 && h * 3600 + m * 60 + s
                <= u64::MAX {
                Some((h * 3600 + m * 60 + s) as u64)
            } else {
                None
            },
            _ => None,
        }
    } else {
        None
    }
}

/// The duration in seconds that a user's text denotes: after trimming, a
/// plain number of seconds, `MM:SS` or `HH:MM:SS`; `None` for anything else.
pub open spec fn duration_value(input: Seq<char>) -> Option<u64> {
    let t = trim(input);
    if t.len() == 0 {
        None
    } else if !t.contains(':') {
        plain_value(t)
    } else {
        clock_value(split_colons(t))
    }
}

proof fn lemma_trim_start_skip(s: Seq<char>, k: int)
    requires
        0 <= k <= s.len(),
        forall|i: int| 0 <= i < k ==> is_whitespace(#[trigger] s[i]),
        k == s.len() || !is_whitespace(s[k]),
    ensures
        trim_start(s) == s.skip(k),
    decreases k,
{
    if k == 0 {
        assert(s.skip(0) =~= s);
    } else {
        let t = s.drop_first();
        assert forall|i: int| 0 <= i < k - 1 implies is_whitespace(#[trigger] t[i]) by {
            assert(t[i] == s[i + 1]);
        }
        lemma_trim_start_skip(t, k - 1);
        assert(t.skip(k - 1) =~= s.skip(k));
    }
}

proof fn lemma_trim_end_take(s: Seq<char>, k: int)
    requires
        0 <= k <= s.len(),
        forall|i: int| k <= i < s.len() ==> is_whitespace(#[trigger] s[i]),
        k == 0 || !is_whitespace(s[k - 1]),
    ensures
        trim_end(s) == s.take(k),
    decreases s.len() - k,
{
    if k == s.len() {
        assert(s.take(k) =~= s);
    } else {
        let t = s.drop_last();
        assert forall|i: int| k <= i < t.len() implies is_whitespace(#[trigger] t[i]) by {
            assert(t[i] == s[i]);
        }
        lemma_trim_end_take(t, k);
        assert(t.take(k) =~= s.take(k));
    }
}

proof fn lemma_digits_value_prefix_mono(s: Seq<char>, i: int, j: int)
    requires
        0 <= i <= j <= s.len(),
    ensures
        digits_value(s.take(i)) <= digits_value(s.take(j)),
    decreases j - i,
{
    if i < j {
        lemma_digits_value_prefix_mono(s, i, j - 1);
        assert(s.take(j).drop_last() =~= s.take(j - 1));
    }
}

pub proof fn lemma_split_colons_nonempty(s: Seq<char>)
    ensures
        split_colons(s).len() >= 1,
    decreases s.len(),
{
    if s.len() > 0 {
        lemma_split_colons_nonempty(s.drop_last());
    }
}

proof fn lemma_split_one_iff_no_colon(s: Seq<char>)
    ensures
        split_colons(s).len() == 1 <==> !s.contains(':'),
    decreases s.len(),
{
    if s.len() > 0 {
        let d = s.drop_last();
        lemma_split_one_iff_no_colon(d);
        lemma_split_colons_nonempty(d);
        if d.contains(':') {
            let i = choose|i: int| 0 <= i < d.len() && d[i] == ':';
            assert(s[i] == ':');
        }
        if s.last() == ':' {
            assert(s[s.len() - 1] == ':');
        }
        if s.contains(':') && s.last() != ':' {
            let i = choose|i: int| 0 <= i < s.len() && s[i] == ':';
            assert(i < s.len() - 1);
            assert(d[i] == ':');
        }
    }
}

/// Reads `s[lo..hi]` as one field of digits.
fn parse_part(s: &Vec<char>, lo: usize, hi: usize) -> (r: Option<u64>)
    requires
        lo <= hi <= s.len(),
    ensures
        r == part_value(s@.subrange(lo as int, hi as int)),
{
    let ghost p = s@.subrange(lo as int, hi as int);
    if lo == hi {
        return None;
    }
    let mut acc: u64 = 0;
    let mut i: usize = lo;
    while i < hi
        invariant
            lo <= i <= hi <= s.len(),
            p == s@.subrange(lo as int, hi as int),
            all_digits(p.take(i - lo)),
            acc as nat == digits_value(p.take(i - lo)),
        decreases hi - i,
    {
        let c = s[i];
        let code = c as u32;
        let ghost k = i - lo;
        assert(p[k] == c);
        if code < 0x30 || code > 0x39 {
            assert(!is_digit(p[k]));
            return None;
        }
        let d = (code - 0x30) as u64;
        assert(p.take(k + 1).drop_last() =~= p.take(k));
        assert(p.take(k + 1).last() == c);
        let next = match acc.checked_mul(10) {
            Some(a) => a.checked_add(d),
            None => None,
        };
        match next {
            Some(v) => {
                acc = v;
            },
            None => {
                proof {
                    lemma_digits_value_prefix_mono(p, k + 1, p.len() as int);
                    assert(p.take(p.len() as int) =~= p);
                }
                return None;
            },
        }
        assert forall|j: int| 0 <= j < k + 1 implies #[trigger] is_digit(p.take(k + 1)[j]) by {
            if j < k {
                assert(p.take(k + 1)[j] == p.take(k)[j]);
            }
        }
        i = i + 1;
    }
    assert(p.take(hi - lo) =~= p);
    Some(acc)
}

/// Splits `t` at its colons.
fn split_at_colons(t: &Vec<char>) -> (parts: Vec<Vec<char>>)
    ensures
        parts@.map_values(|v: Vec<char>| v@) == split_colons(t@),
{
    let mut parts: Vec<Vec<char>> = Vec::new();
    let mut cur: Vec<char> = Vec::new();
    let mut i: usize = 0;
    assert(t@.take(0) =~= Seq::<char>::empty());
    assert(parts@.map_values(|v: Vec<char>| v@).push(cur@) =~= split_colons(t@.take(0)));
    while i < t.len()
        invariant
            i <= t.len(),
            parts@.map_values(|v: Vec<char>| v@).push(cur@) == split_colons(t@.take(i as int)),
        decreases t.len() - i,
    {
        let c = t[i];
        let ghost before = parts@.map_values(|v: Vec<char>| v@);
        let ghost old_cur = cur@;
        assert(t@.take(i + 1).drop_last() =~= t@.take(i as int));
        assert(t@.take(i + 1).last() == c);
        if c == ':' {
            let piece = cur;
            parts.push(piece);
            cur = Vec::new();
            assert(parts@.map_values(|v: Vec<char>| v@) =~= before.push(old_cur));
            assert(parts@.map_values(|v: Vec<char>| v@).push(cur@) =~= split_colons(
                t@.take(i + 1),
            ));
        } else {
            cur.push(c);
            assert(parts@.map_values(|v: Vec<char>| v@) =~= before);
            assert(parts@.map_values(|v: Vec<char>| v@).push(cur@) =~= split_colons(
                t@.take(i + 1),
            ));
        }
        i = i + 1;
    }
    assert(t@.take(t.len() as int) =~= t@);
    let ghost before = parts@.map_values(|v: Vec<char>| v@);
    parts.push(cur);
    assert(parts@.map_values(|v: Vec<char>| v@) =~= before.push(cur@));
    parts
}

/// The characters of `s`.
fn chars_of(s: &str) -> (v: Vec<char>)
    ensures
        v@ == s@,
{
    let n = s.unicode_len();
    let mut v: Vec<char> = Vec::new();
    let mut i: usize = 0;
    while i < n
        invariant
            n == s@.len(),
            i <= n,
            v@ == s@.take(i as int),
        decreases n - i,
    {
        v.push(s.get_char(i));
        assert(v@ =~= s@.take(i + 1));
        i = i + 1;
    }
    assert(s@.take(n as int) =~= s@);
    v
}

fn is_whitespace_char(c: char) -> (b: bool)
    ensures
        b == is_whitespace(c),
{
    let u = c as u32;
    (0x09 <= u && u <= 0x0D) || u == 0x20 || u == 0x85 || u == 0xA0 || u == 0x1680 || (0x2000
        <= u && u <= 0x200A) || u == 0x2028 || u == 0x2029 || u == 0x202F || u == 0x205F || u
        == 0x3000
}

/// The characters of `input` without leading and trailing whitespace.
fn trimmed(input: &str) -> (t: Vec<char>)
    ensures
        t@ == trim(input@),
{
    let chars = chars_of(input);
    let n = chars.len();
    let mut start: usize = 0;
    while start < n && is_whitespace_char(chars[start])
        invariant
            n == chars@.len(),
            start <= n,
            forall|i: int| 0 <= i < start ==> is_whitespace(#[trigger] chars@[i]),
        decreases n - start,
    {
        start = start + 1;
    }
    proof {
        lemma_trim_start_skip(chars@, start as int);
    }
    let ghost rest = chars@.skip(start as int);
    let mut end: usize = n;
    while end > start && is_whitespace_char(chars[end - 1])
        invariant
            n == chars@.len(),
            start <= end <= n,
            rest == chars@.skip(start as int),
            forall|i: int| end <= i < n ==> is_whitespace(#[trigger] chars@[i]),
        decreases end - start,
    {
        end = end - 1;
    }
    proof {
        assert forall|i: int| end - start <= i < rest.len() implies is_whitespace(
            #[trigger] rest[i],
        ) by {
            assert(rest[i] == chars@[i + start]);
        }
        if end > start {
            assert(rest[end - start - 1] == chars@[end - 1]);
        }
        lemma_trim_end_take(rest, end - start);
    }
    let mut t: Vec<char> = Vec::new();
    let mut i: usize = start;
    while i < end
        invariant
            start <= i <= end <= n,
            n == chars@.len(),
            t@ == chars@.subrange(start as int, i as int),
        decreases end - i,
    {
        t.push(chars[i]);
        assert(t@ =~= chars@.subrange(start as int, i + 1));
        i = i + 1;
    }
    assert(t@ =~= rest.take(end - start));
    t
}

/// Reads a duration typed by a user: a plain number of seconds (`1500`),
/// `MM:SS` (`25:00`) or `HH:MM:SS` (`01:25:00`), with surrounding whitespace
/// ignored. Minutes and seconds after the leading field must be below 60.
/// Returns `None` for anything else, and for a total beyond `u64::MAX`.
pub fn parse_duration_to_secs(input: &str) -> (r: Option<u64>)
    ensures
        r == duration_value(input@),
{
    let t = trimmed(input);
    let n = t.len();
    if n == 0 {
        return None;
    }
    let parts = split_at_colons(&t);
    proof {
        lemma_split_one_iff_no_colon(t@);
    }
    let ghost pv = parts@.map_values(|v: Vec<char>| v@);
    if parts.len() == 1 {
        if n > 1 && t[0] == '+' {
            assert(t@.subrange(1, n as int) =~= t@.drop_first());
            return parse_part(&t, 1, n);
        } else {
            assert(t@.subrange(0, n as int) =~= t@);
            return parse_part(&t, 0, n);
        }
    }
    if parts.len() == 2 {
        let p0 = &parts[0];
        let p1 = &parts[1];
        assert(pv[0] == p0@ && pv[1] == p1@);
        assert(p0@.subrange(0, p0.len() as int) =~= p0@);
        assert(p1@.subrange(0, p1.len() as int) =~= p1@);
        let m = match parse_part(p0, 0, p0.len()) {
            Some(v) => v,
            None => return None,
        };
        let s = match parse_part(p1, 0, p1.len()) {
            Some(v) => v,
            None => return None,
        };
        if s >= 60 {
            return None;
        }
        let total = match m.checked_mul(60) {
            Some(a) => a.checked_add(s),
            None => None,
        };
        return total;
    }
    if parts.len() == 3 {
        let p0 = &parts[0];
        let p1 = &parts[1];
        let p2 = &parts[2];
        assert(pv[0] == p0@ && pv[1] == p1@ && pv[2] == p2@);
        assert(p0@.subrange(0, p0.len() as int) =~= p0@);
        assert(p1@.subrange(0, p1.len() as int) =~= p1@);
        assert(p2@.subrange(0, p2.len() as int) =~= p2@);
        let h = match parse_part(p0, 0, p0.len()) {
            Some(v) => v,
            None => return None,
        };
        let m = match parse_part(p1, 0, p1.len()) {
            Some(v) => v,
            None => return None,
        };
        let s = match parse_part(p2, 0, p2.len()) {
            Some(v) => v,
            None => return None,
        };
        if m >= 60 || s >= 60 {
            return None;
        }
        let total = match h.checked_mul(3600) {
            Some(a) => match a.checked_add(m * 60) {
                Some(b) => b.checked_add(s),
                None => None,
            },
            None => None,
        };
        return total;
    }
    None
}

/// A countdown length accepted from a user's text: a duration that reads
/// and is longer than zero seconds.
pub open spec fn accepted_countdown(text: Seq<char>) -> Option<u64> {
    match duration_value(text) {
        Some(secs) => if secs > 0 { Some(secs) } else { None },
        None => None,
    }
}

/// Reads the countdown length typed into the countdown dialog; `None` means
/// the dialog shows its error and stays open.
pub fn accept_countdown_text(text: &str) -> (r: Option<u64>)
    ensures
        r == accepted_countdown(text@),
{
    match parse_duration_to_secs(text) {
        Some(secs) => if secs > 0 {
            Some(secs)
        } else {
            None
        },
        None => None,
    }
}

} // verus!
