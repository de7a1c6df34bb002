use vstd::prelude::*;
use vstd::arithmetic::div_mod::{lemma_fundamental_div_mod, lemma_mod_mod};

use crate::duration_parse::{
    accepted_countdown, all_digits, digit_value, digits_value, duration_value, is_digit, is_whitespace, part_value,
    split_colons, trim, trim_end, trim_start,
};
use crate::duration_text::{clock_text, decimal, digit_char, two_digits};

verus! {

proof fn lemma_digit_char(k: nat)
    requires
        k < 10,
    ensures
        is_digit(digit_char(k)),
        digit_value(digit_char(k)) == k,
{
}

proof fn lemma_decimal(n: nat)
    ensures
        decimal(n).len() >= 1,
        all_digits(decimal(n)),
        digits_value(decimal(n)) == n,
    decreases n,
{
    if n < 10 {
        lemma_digit_char(n);
        let s = decimal(n);
        assert(s.drop_last() =~= Seq::<char>::empty());
        assert(s.last() == digit_char(n));
        assert(digits_value(s) == digits_value(s.drop_last()) * 10 + digit_value(s.last()));
    } else {
        lemma_decimal(n / 10);
        lemma_digit_char(n % 10);
        let d = decimal(n / 10);
        let s = decimal(n);
        assert(s.drop_last() =~= d);
        assert(s.last() == digit_char(n % 10));
        assert(digits_value(s) == digits_value(s.drop_last()) * 10 + digit_value(s.last()));
        lemma_fundamental_div_mod(n as int, 10);
        assert forall|i: int| 0 <= i < s.len() implies #[trigger] is_digit(s[i]) by {
            if i < d.len() {
                assert(s[i] == d[i]);
            }
        }
    }
}

proof fn lemma_two_digits(n: nat)
    ensures
        two_digits(n).len() >= 2,
        all_digits(two_digits(n)),
        digits_value(two_digits(n)) == n,
{
    lemma_decimal(n);
    if n < 10 {
        lemma_digit_char(n);
        lemma_digit_char(0);
        let s = two_digits(n);
        assert(s.drop_last() =~= seq!['0']);
        assert(seq!['0'].drop_last() =~= Seq::<char>::empty());
        assert(digit_char(0) == '0');
        assert(digits_value(seq!['0']) == digits_value(Seq::<char>::empty()) * 10 + digit_value('0'));
        assert(digits_value(seq!['0']) == 0);
        assert(s.last() == digit_char(n));
        assert(digits_value(s) == digits_value(s.drop_last()) * 10 + digit_value(s.last()));
        assert forall|i: int| 0 <= i < s.len() implies #[trigger] is_digit(s[i]) by {
            if i == 0 {
                assert(s[i] == digit_char(0));
            }
        }
    } else {
        assert(decimal(n) == decimal(n / 10).push(digit_char(n % 10)));
        lemma_decimal(n / 10);
    }
}

proof fn lemma_digits_no_colon(s: Seq<char>)
    requires
        all_digits(s),
    ensures
        !s.contains(':'),
{
    if s.contains(':') {
        let i = choose|i: int| 0 <= i < s.len() && s[i] == ':';
        assert(is_digit(s[i]));
    }
}

proof fn lemma_split_no_colon(b: Seq<char>)
    requires
        !b.contains(':'),
    ensures
        split_colons(b) == seq![b],
    decreases b.len(),
{
    if b.len() > 0 {
        let d = b.drop_last();
        if d.contains(':') {
            let i = choose|i: int| 0 <= i < d.len() && d[i] == ':';
            assert(b[i] == ':');
        }
        assert(b[b.len() - 1] == b.last());
        lemma_split_no_colon(d);
        assert(d.push(b.last()) =~= b);
    } else {
        assert(b =~= Seq::<char>::empty());
    }
}

proof fn lemma_split_after_colon(a: Seq<char>, b: Seq<char>)
    requires
        !b.contains(':'),
    ensures
        split_colons(a + seq![':'] + b) == split_colons(a).push(b),
    decreases b.len(),
{
    let s = a + seq![':'] + b;
    if b.len() == 0 {
        assert(s.drop_last() =~= a);
        assert(b =~= Seq::<char>::empty());
    } else {
        let d = b.drop_last();
        if d.contains(':') {
            let i = choose|i: int| 0 <= i < d.len() && d[i] == ':';
            assert(b[i] == ':');
        }
        assert(b[b.len() - 1] == b.last());
        lemma_split_after_colon(a, d);
        assert(s.drop_last() =~= a + seq![':'] + d);
        assert(s.last() == b.last());
        assert(d.push(b.last()) =~= b);
        assert(split_colons(a).push(d).update(split_colons(a).len() as int, d.push(b.last()))
            =~= split_colons(a).push(b));
    }
}

proof fn lemma_clock_parts(n: nat)
    ensures
        ({
            let h = n / 3600;
            let m = (n % 3600) / 60;
            let s = n % 60;
            &&& m < 60
            &&& s < 60
            &&& h <= n
            &&& h * 3600 + m * 60 + s == n
        }),
{
    lemma_fundamental_div_mod(n as int, 3600);
    let r = n % 3600;
    lemma_fundamental_div_mod(r as int, 60);
    lemma_mod_mod(n as int, 60, 60);
}

/// Formatting a duration and reading the text back gives the same number of
/// seconds: the countdown dialog fills its field with the formatted duration,
/// and accepting it unchanged keeps the duration.
pub proof fn lemma_format_then_parse(n: u64)
    ensures
        duration_value(clock_text(n as nat)) == Some(n),
{
    let total = n as nat;
    let h = total / 3600;
    let m = (total % 3600) / 60;
    let s = total % 60;
    lemma_clock_parts(total);
    lemma_two_digits(h);
    lemma_two_digits(m);
    lemma_two_digits(s);
    let th = two_digits(h);
    let tm = two_digits(m);
    let ts = two_digits(s);
    lemma_digits_no_colon(th);
    lemma_digits_no_colon(tm);
    lemma_digits_no_colon(ts);
    let text = clock_text(total);
    if h > 0 {
        let first = th + seq![':'] + tm;
        assert(text == first + seq![':'] + ts);
        lemma_split_no_colon(th);
        lemma_split_after_colon(th, tm);
        lemma_split_after_colon(first, ts);
        assert(split_colons(text) =~= seq![th, tm, ts]);
        assert(text[th.len() as int] == ':');
        assert(text[0] == th[0]);
        assert(text.last() == ts.last());
        assert(is_digit(th[0]) && is_digit(ts[ts.len() - 1]));
    } else {
        assert(text == tm + seq![':'] + ts);
        lemma_split_no_colon(tm);
        lemma_split_after_colon(tm, ts);
        assert(split_colons(text) =~= seq![tm, ts]);
        assert(text[tm.len() as int] == ':');
        assert(text[0] == tm[0]);
        assert(text.last() == ts.last());
        assert(is_digit(tm[0]) && is_digit(ts[ts.len() - 1]));
    }
    assert(text.len() > 0);
    assert(trim_start(text) == text);
    assert(trim_end(text) == text);
}

/// Three fields of digits joined by colons read as hours, minutes and
/// seconds: the total `h * 3600 + m * 60 + s` when minutes and seconds are
/// below 60 and the total fits in a `u64`, whatever the hours (zero too), and
/// `None` otherwise.
pub proof fn lemma_hh_mm_ss_reads(a: Seq<char>, b: Seq<char>, c: Seq<char>)
    requires
        a.len() > 0,
        b.len() > 0,
        c.len() > 0,
        all_digits(a),
        all_digits(b),
        all_digits(c),
    ensures
        ({
            let h = digits_value(a);
            let m = digits_value(b);
            let s = digits_value(c);
            duration_value(a + seq![':'] + b + seq![':'] + c) == if m < 60 && s < 60 && h
                * 3600 + m * 60 + s <= u64::MAX {
                Some((h * 3600 + m * 60 + s) as u64)
            } else {
                None::<u64>
            }
        }),
{
    lemma_digits_no_colon(a);
    lemma_digits_no_colon(b);
    lemma_digits_no_colon(c);
    let first = a + seq![':'] + b;
    let text = first + seq![':'] + c;
    lemma_split_no_colon(a);
    lemma_split_after_colon(a, b);
    lemma_split_after_colon(first, c);
    assert(split_colons(text) =~= seq![a, b, c]);
    assert(text[a.len() as int] == ':');
    assert(text[0] == a[0]);
    assert(text.last() == c.last());
    assert(is_digit(a[0]) && is_digit(c[c.len() - 1]));
    assert(trim_start(text) == text);
    assert(trim_end(text) == text);
    let h = digits_value(a);
    let m = digits_value(b);
    let s = digits_value(c);
    if m < 60 && s < 60 && h * 3600 + m * 60 + s <= u64::MAX {
        assert(h <= u64::MAX);
        assert(part_value(a) == Some(h as u64));
        assert(part_value(b) == Some(m as u64));
        assert(part_value(c) == Some(s as u64));
    }
}

/// Two fields of digits joined by a colon read as minutes and seconds: the
/// total `m * 60 + s` when the seconds are below 60 and the total fits in a
/// `u64`, whatever the minutes, and `None` otherwise.
pub proof fn lemma_mm_ss_reads(b: Seq<char>, c: Seq<char>)
    requires
        b.len() > 0,
        c.len() > 0,
        all_digits(b),
        all_digits(c),
    ensures
        ({
            let m = digits_value(b);
            let s = digits_value(c);
            duration_value(b + seq![':'] + c) == if s < 60 && m * 60 + s <= u64::MAX {
                Some((m * 60 + s) as u64)
            } else {
                None::<u64>
            }
        }),
{
    lemma_digits_no_colon(b);
    lemma_digits_no_colon(c);
    let text = b + seq![':'] + c;
    lemma_split_no_colon(b);
    lemma_split_after_colon(b, c);
    assert(split_colons(text) =~= seq![b, c]);
    assert(text[b.len() as int] == ':');
    assert(text[0] == b[0]);
    assert(text.last() == c.last());
    assert(is_digit(b[0]) && is_digit(c[c.len() - 1]));
    assert(trim_start(text) == text);
    assert(trim_end(text) == text);
    let m = digits_value(b);
    let s = digits_value(c);
    if s < 60 && m * 60 + s <= u64::MAX {
        assert(m <= u64::MAX);
        assert(part_value(b) == Some(m as u64));
        assert(part_value(c) == Some(s as u64));
    }
}

/// `HH:MM:SS` written with two-digit fields reads back as
/// `h * 3600 + m * 60 + s`, an hours field of `00` included.
pub proof fn lemma_two_digit_clock_reads(h: nat, m: nat, s: nat)
    requires
        m < 60,
        s < 60,
        h * 3600 + m * 60 + s <= u64::MAX,
    ensures
        duration_value(two_digits(h) + seq![':'] + two_digits(m) + seq![':'] + two_digits(s))
            == Some((h * 3600 + m * 60 + s) as u64),
{
    lemma_two_digits(h);
    lemma_two_digits(m);
    lemma_two_digits(s);
    lemma_hh_mm_ss_reads(two_digits(h), two_digits(m), two_digits(s));
}

/// The countdown dialog accepts exactly the texts that read as a positive
/// number of seconds, and takes that number.
pub proof fn lemma_countdown_accepts_positive(text: Seq<char>)
    ensures
        accepted_countdown(text) is Some ==> accepted_countdown(text)->0 > 0
            && duration_value(text) == accepted_countdown(text),
        (duration_value(text) matches Some(x) && x > 0) ==> accepted_countdown(text)
            == duration_value(text),
        duration_value(text) == Some(0u64) ==> accepted_countdown(text) is None,
        duration_value(text) is None ==> accepted_countdown(text) is None,
{
}

proof fn lemma_decimal_leading(n: nat)
    requires
        n >= 1,
    ensures
        decimal(n)[0] != '0',
    decreases n,
{
    if n >= 10 {
        lemma_decimal_leading(n / 10);
        lemma_decimal(n / 10);
        assert(decimal(n)[0] == decimal(n / 10)[0]);
    } else {
        lemma_digit_char(n);
    }
}

proof fn lemma_two_digits_small(x: nat)
    requires
        x < 100,
    ensures
        two_digits(x).len() == 2,
{
    if x >= 10 {
        assert(decimal(x) == decimal(x / 10).push(digit_char(x % 10)));
    }
}

/// The shape of a formatted duration: under an hour it is `MM:SS`, five
/// characters with the colon in the middle; from an hour on it ends in
/// `:MM:SS` after an hours field of at least two digits that starts with
/// `0` only when it is exactly two digits long. Every other character is a
/// digit.
pub proof fn lemma_clock_text_shape(n: u64)
    ensures
        ({
            let t = clock_text(n as nat);
            let l = t.len() as int;
            &&& n < 3600 ==> l == 5 && t[2] == ':'
            &&& n >= 3600 ==> l >= 8 && t[l - 3] == ':' && t[l - 6] == ':' && (l == 8 || t[0]
                != '0')
            &&& forall|i: int|
                0 <= i < l && t[i] != ':' ==> #[trigger] is_digit(t[i])
            &&& forall|i: int|
                0 <= i < l && t[i] == ':' ==> (i == l - 3 || (n >= 3600 && i == l - 6))
        }),
{
    let total = n as nat;
    let h = total / 3600;
    let m = (total % 3600) / 60;
    let sec = total % 60;
    lemma_clock_parts(total);
    lemma_two_digits(h);
    lemma_two_digits(m);
    lemma_two_digits(sec);
    lemma_two_digits_small(m);
    lemma_two_digits_small(sec);
    let th = two_digits(h);
    let tm = two_digits(m);
    let ts = two_digits(sec);
    let t = clock_text(total);
    if h > 0 {
        assert(t =~= th + seq![':'] + tm + seq![':'] + ts);
        if h >= 10 {
            lemma_decimal_leading(h);
        } else {
            assert(th.len() == 2);
        }
        assert(t[0] == th[0]);
        assert forall|i: int| 0 <= i < t.len() && t[i] != ':' implies #[trigger] is_digit(t[i]) by {
            if i < th.len() {
                assert(t[i] == th[i]);
            } else if th.len() < i < th.len() + 3 {
                assert(t[i] == tm[i - th.len() - 1]);
            } else if i > th.len() + 3 {
                assert(t[i] == ts[i - th.len() - 4]);
            }
        }
        assert forall|i: int| 0 <= i < t.len() && t[i] == ':' implies (i == t.len() - 3 || (n
            >= 3600 && i == t.len() - 6)) by {
            if i < th.len() {
                assert(t[i] == th[i]);
                assert(is_digit(th[i]));
            } else if th.len() < i < th.len() + 3 {
                assert(t[i] == tm[i - th.len() - 1]);
                assert(is_digit(tm[i - th.len() - 1]));
            } else if i > th.len() + 3 {
                assert(t[i] == ts[i - th.len() - 4]);
                assert(is_digit(ts[i - th.len() - 4]));
            }
        }
    } else {
        assert(t =~= tm + seq![':'] + ts);
        assert forall|i: int| 0 <= i < t.len() && t[i] != ':' implies #[trigger] is_digit(t[i]) by {
            if i < 2 {
                assert(t[i] == tm[i]);
            } else if i > 2 {
                assert(t[i] == ts[i - 3]);
            }
        }
        assert forall|i: int| 0 <= i < t.len() && t[i] == ':' implies (i == t.len() - 3 || (n
            >= 3600 && i == t.len() - 6)) by {
            if i < 2 {
                assert(t[i] == tm[i]);
                assert(is_digit(tm[i]));
            } else if i > 2 {
                assert(t[i] == ts[i - 3]);
                assert(is_digit(ts[i - 3]));
            }
        }
    }
}

/// A field of digits with no colon reads as its decimal value, when that
/// value fits in a `u64`, and as nothing otherwise; a leading `+` changes
/// nothing.
pub proof fn lemma_plain_digits_read(a: Seq<char>)
    requires
        a.len() > 0,
        all_digits(a),
    ensures
        duration_value(a) == (if digits_value(a) <= u64::MAX {
            Some(digits_value(a) as u64)
        } else {
            None::<u64>
        }),
        duration_value(seq!['+'] + a) == duration_value(a),
{
    lemma_digits_no_colon(a);
    assert(is_digit(a[0]) && is_digit(a[a.len() - 1]));
    assert(trim_start(a) == a);
    assert(trim_end(a) == a);
    let p = seq!['+'] + a;
    assert(p[0] == '+');
    assert(!is_whitespace(p[0]));
    assert(p.last() == a.last());
    assert(trim_start(p) == p);
    assert(trim_end(p) == p);
    assert(p.drop_first() =~= a);
    if p.contains(':') {
        let i = choose|i: int| 0 <= i < p.len() && p[i] == ':';
        assert(i > 0);
        assert(a[i - 1] == ':');
    }
    assert(!(a[0] == '+'));
}

proof fn lemma_trim_start_whitespace_prefix(w: Seq<char>, t: Seq<char>)
    requires
        forall|i: int| 0 <= i < w.len() ==> is_whitespace(#[trigger] w[i]),
    ensures
        trim_start(w + t) == trim_start(t),
    decreases w.len(),
{
    if w.len() > 0 {
        assert((w + t)[0] == w[0]);
        assert((w + t).drop_first() =~= w.drop_first() + t);
        assert forall|i: int| 0 <= i < w.drop_first().len() implies is_whitespace(
            #[trigger] w.drop_first()[i],
        ) by {
            assert(w.drop_first()[i] == w[i + 1]);
        }
        lemma_trim_start_whitespace_prefix(w.drop_first(), t);
    } else {
        assert(w + t =~= t);
    }
}

proof fn lemma_trim_end_whitespace_suffix(t: Seq<char>, w: Seq<char>)
    requires
        forall|i: int| 0 <= i < w.len() ==> is_whitespace(#[trigger] w[i]),
    ensures
        trim_end(t + w) == trim_end(t),
    decreases w.len(),
{
    if w.len() > 0 {
        assert((t + w).last() == w.last());
        assert(w[w.len() - 1] == w.last());
        assert((t + w).drop_last() =~= t + w.drop_last());
        assert forall|i: int| 0 <= i < w.drop_last().len() implies is_whitespace(
            #[trigger] w.drop_last()[i],
        ) by {
            assert(w.drop_last()[i] == w[i]);
        }
        lemma_trim_end_whitespace_suffix(t, w.drop_last());
    } else {
        assert(t + w =~= t);
    }
}

proof fn lemma_trim_start_keeps_trailing(t: Seq<char>, w: Seq<char>)
    requires
        t.len() > 0,
        !is_whitespace(t.last()),
    ensures
        trim_start(t + w) == trim_start(t) + w,
    decreases t.len(),
{
    if is_whitespace(t[0]) {
        assert(t.len() > 1);
        assert((t + w)[0] == t[0]);
        assert((t + w).drop_first() =~= t.drop_first() + w);
        assert(t.drop_first().last() == t.last());
        lemma_trim_start_keeps_trailing(t.drop_first(), w);
    } else {
        assert((t + w)[0] == t[0]);
    }
}

proof fn lemma_trim_absorbs_trailing(t: Seq<char>, w: Seq<char>)
    requires
        forall|i: int| 0 <= i < w.len() ==> is_whitespace(#[trigger] w[i]),
    ensures
        trim(t + w) == trim(t),
    decreases t.len(),
{
    if t.len() == 0 {
        lemma_trim_start_whitespace_prefix(w, Seq::<char>::empty());
        assert(w + Seq::<char>::empty() =~= w);
        assert(t + w =~= w);
        assert(trim_start(Seq::<char>::empty()) == Seq::<char>::empty());
    } else if !is_whitespace(t.last()) {
        lemma_trim_start_keeps_trailing(t, w);
        lemma_trim_end_whitespace_suffix(trim_start(t), w);
    } else {
        let d = t.drop_last();
        let c = seq![t.last()];
        let cw = c + w;
        assert forall|i: int| 0 <= i < cw.len() implies is_whitespace(#[trigger] cw[i]) by {
            if i == 0 {
                assert(cw[i] == t.last());
            } else {
                assert(cw[i] == w[i - 1]);
            }
        }
        assert forall|i: int| 0 <= i < c.len() implies is_whitespace(#[trigger] c[i]) by {}
        lemma_trim_absorbs_trailing(d, cw);
        lemma_trim_absorbs_trailing(d, c);
        assert(d + cw =~= t + w);
        assert(d + c =~= t);
    }
}

/// Whitespace around a duration does not change what it reads as.
pub proof fn lemma_surrounding_whitespace_ignored(w1: Seq<char>, t: Seq<char>, w2: Seq<char>)
    requires
        forall|i: int| 0 <= i < w1.len() ==> is_whitespace(#[trigger] w1[i]),
        forall|i: int| 0 <= i < w2.len() ==> is_whitespace(#[trigger] w2[i]),
    ensures
        duration_value(w1 + t + w2) == duration_value(t),
{
    lemma_trim_start_whitespace_prefix(w1, t + w2);
    assert(w1 + t + w2 =~= w1 + (t + w2));
    lemma_trim_absorbs_trailing(t, w2);
    assert(trim(w1 + t + w2) == trim(t));
}

} // verus!
