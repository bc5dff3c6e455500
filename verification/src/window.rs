//! The day window: `"HH:MM"` times, the membership test that picks the day or
//! night palette, and the inverse rendering the settings editor writes.
use vstd::prelude::*;

use crate::text::{
    chars_of, decimal_body, decimal_text, decimal_text2, decimal_value, digits_value, find_char,
    find_in, digit_of, digit_char_of, is_digit, is_space, parse_unsigned, push_decimal2, slice_chars, string_of, trim,
    trimmed,
};

verus! {

/// Minutes since midnight for an `"HH:MM"` time: the text is trimmed, split at
/// its first `:`, each side read as an unsigned decimal, and the hour must be
/// below 24 and the minute below 60.
pub open spec fn hhmm_minutes(s: Seq<char>) -> Option<u32> {
    let t = trim(s);
    match find_char(t, ':') {
        Some(i) => match (decimal_value(t.take(i as int)), decimal_value(t.skip(i + 1int))) {
            (Some(h), Some(m)) => if h < 24 && m < 60 {
                Some((h * 60 + m) as u32)
            } else {
                None
            },
            _ => None,
        },
        None => None,
    }
}

/// Whether `now` lies in `[start, end)`, where a window with `start > end` wraps
/// past midnight.
pub open spec fn within(now: u32, start: u32, end: u32) -> bool {
    if start <= end {
        start <= now && now < end
    } else {
        now >= start || now < end
    }
}

/// `HH:MM` for a count of minutes (`{:02}:{:02}` of hours and minutes).
pub open spec fn hhmm_text(m: u32) -> Seq<char> {
    decimal_text2((m / 60) as nat) + seq![':'] + decimal_text2((m % 60) as nat)
}

/// Parse `"HH:MM"` to minutes-since-midnight; `None` if malformed.
pub fn parse_hhmm(s: &str) -> (r: Option<u32>)
    ensures
        r == hhmm_minutes(s@),
{
    let v = chars_of(s);
    let t = trimmed(&v);
    let Some(i) = find_in(&t, ':') else {
        return None;
    };
    let head = slice_chars(&t, 0, i);
    let tail = slice_chars(&t, i + 1, t.len());
    proof {
        assert(head@ =~= t@.take(i as int));
        assert(tail@ =~= t@.skip(i + 1int));
    }
    let h = parse_unsigned(&head, 23);
    let m = parse_unsigned(&tail, 59);
    proof {
        assert(trim(s@) == t@);
        assert(find_char(t@, ':') == Some(i as nat));
    }
    match (h, m) {
        (Some(h), Some(m)) => Some((h * 60 + m) as u32),
        _ => None,
    }
}

/// Is `now` within `[start, end)`? Handles a window that wraps past midnight.
pub fn in_window(now: u32, start: u32, end: u32) -> (b: bool)
    ensures
        b == within(now, start, end),
{
    if start <= end {
        now >= start && now < end
    } else {
        now >= start || now < end
    }
}

/// `HH:MM` for a minutes-since-midnight count — what the settings editor shows
/// and writes for the day window.
pub fn minutes_to_hhmm(m: u32) -> (s: String)
    ensures
        s@ == hhmm_text(m),
{
    let mut v: Vec<char> = Vec::new();
    push_decimal2(&mut v, (m / 60) as u64);
    v.push(':');
    push_decimal2(&mut v, (m % 60) as u64);
    proof {
        assert(v@ =~= hhmm_text(m));
    }
    string_of(&v)
}

proof fn lemma_decimal_text_digits(n: nat)
    ensures
        decimal_text(n).len() > 0,
        forall|k: int| 0 <= k < decimal_text(n).len() ==> is_digit(#[trigger] decimal_text(n)[k]),
        digits_value(decimal_text(n)) == n,
        decimal_text(n)[0] != '+',
    decreases n,
{
    if n >= 10 {
        lemma_decimal_text_digits(n / 10);
        let t = decimal_text(n);
        assert(t.drop_last() =~= decimal_text(n / 10));
        assert(t.last() == digit_char_of(n % 10));
        assert(digit_of(digit_char_of(n % 10)) == n % 10);
        assert(decimal_text(n)[0] == decimal_text(n / 10)[0]);
        assert(digits_value(t) == 10 * digits_value(t.drop_last()) + digit_of(t.last()));
        assert(digits_value(t) == 10 * (n / 10) + n % 10);
    } else {
        let t = decimal_text(n);
        assert(t.drop_last() =~= Seq::<char>::empty());
        assert(digits_value(Seq::<char>::empty()) == 0);
        assert(digit_of(digit_char_of(n)) == n);
    }
}

proof fn lemma_decimal_text2_value(n: nat)
    ensures
        decimal_value(decimal_text2(n)) == Some(n),
        forall|k: int|
            0 <= k < decimal_text2(n).len() ==> #[trigger] decimal_text2(n)[k] != ':' && !is_space(
                decimal_text2(n)[k],
            ),
{
    lemma_decimal_text_digits(n);
    let t = decimal_text2(n);
    if n < 10 {
        assert(t.drop_last() =~= seq!['0']);
        assert(seq!['0'].drop_last() =~= Seq::<char>::empty());
        assert(digits_value(Seq::<char>::empty()) == 0);
        assert(seq!['0'].last() == '0');
        assert(digit_of('0') == 0);
        assert(digits_value(seq!['0']) == 0);
        assert(digit_of(digit_char_of(n)) == n);
    }
    assert(decimal_body(t) == t);
}

proof fn lemma_no_space_trim(s: Seq<char>)
    requires
        forall|k: int| 0 <= k < s.len() ==> !is_space(#[trigger] s[k]),
    ensures
        trim(s) == s,
{
    if s.len() > 0 {
        assert(!is_space(s[0]));
        assert(!is_space(s.last()));
    }
}

/// Writing a time of day and reading it back gives the same minute count, for
/// every minute of the day.
pub proof fn lemma_hhmm_round_trip(m: u32)
    requires
        m < 24 * 60,
    ensures
        hhmm_minutes(hhmm_text(m)) == Some(m),
{
    let h = (m / 60) as nat;
    let mm = (m % 60) as nat;
    lemma_decimal_text2_value(h);
    lemma_decimal_text2_value(mm);
    let a = decimal_text2(h);
    let b = decimal_text2(mm);
    let s = hhmm_text(m);
    assert(s == a + seq![':'] + b);
    assert forall|k: int| 0 <= k < s.len() implies !is_space(#[trigger] s[k]) by {
        if k < a.len() {
            assert(s[k] == a[k]);
        } else if k > a.len() {
            assert(s[k] == b[k - a.len() - 1]);
        }
    }
    lemma_no_space_trim(s);
    assert forall|k: int| 0 <= k < a.len() implies s[k] != ':' by {
        assert(s[k] == a[k]);
    }
    lemma_find_colon(s, a.len() as int);
    assert(s.take(a.len() as int) =~= a);
    assert(s.skip(a.len() + 1int) =~= b);
}

proof fn lemma_find_colon(s: Seq<char>, i: int)
    requires
        0 <= i < s.len(),
        s[i] == ':',
        forall|k: int| 0 <= k < i ==> s[k] != ':',
    ensures
        find_char(s, ':') == Some(i as nat),
    decreases i,
{
    if i > 0 {
        lemma_find_colon(s.drop_first(), i - 1);
    }
}

/// A window that wraps midnight is the complement of the daytime window with the
/// same ends swapped, and a window whose ends are equal is empty.
pub proof fn lemma_wrapped_window_is_the_complement(now: u32, start: u32, end: u32)
    ensures
        start > end ==> (within(now, start, end) <==> !within(now, end, start)),
        !within(now, start, start),
{
}

/// A window holds its start minute and not its end minute (unless the two are
/// equal, when it is empty); a daytime window also holds nothing before its
/// start. A time of day that reads back at all is a minute of the day.
pub proof fn lemma_window_edges(now: u32, start: u32, end: u32, s: Seq<char>)
    ensures
        start != end ==> within(start, start, end) && !within(end, start, end),
        (start < end && now < start) ==> !within(now, start, end),
        hhmm_minutes(s) matches Some(m) ==> m < 24 * 60,
{
}

} // verus!
