//! The settings editor's text logic: turning preset file names into display names
//! and back, the import/export path field, and the per-variant palette the color
//! fields edit (a field edits the variant being shown; the shared keys edit both).
use vstd::prelude::*;

use crate::color::{color_hex, lemma_hex_round_trip, parse_color};
use crate::greeter::owned;
use crate::text::{
    chars_of, has_prefix, is_space, slice_chars, string_of, trim, trim_end, trim_start, trimmed,
    views,
};
use crate::theme::Theme;

verus! {

/// A word separator: `-`, and `_` too unless `dash_only`.
pub open spec fn is_separator(c: char, dash_only: bool) -> bool {
    c == '-' || (!dash_only && c == '_')
}

/// The non-empty runs of `s` between separators, `cur` being the run in progress.
pub open spec fn runs_from(s: Seq<char>, cur: Seq<char>, dash_only: bool) -> Seq<Seq<char>>
    decreases s.len(),
{
    if s.len() == 0 {
        if cur.len() > 0 {
            seq![cur]
        } else {
            Seq::empty()
        }
    } else if is_separator(s[0], dash_only) {
        if cur.len() > 0 {
            seq![cur] + runs_from(s.drop_first(), Seq::empty(), dash_only)
        } else {
            runs_from(s.drop_first(), Seq::empty(), dash_only)
        }
    } else {
        runs_from(s.drop_first(), cur.push(s[0]), dash_only)
    }
}

/// The non-empty runs of `s` between separators, in order.
pub open spec fn runs(s: Seq<char>, dash_only: bool) -> Seq<Seq<char>> {
    runs_from(s, Seq::empty(), dash_only)
}

/// `ws` with `sep` between consecutive items.
pub open spec fn joined(ws: Seq<Seq<char>>, sep: char) -> Seq<char>
    decreases ws.len(),
{
    if ws.len() == 0 {
        Seq::empty()
    } else if ws.len() == 1 {
        ws[0]
    } else {
        joined(ws.drop_last(), sep).push(sep) + ws.last()
    }
}

/// What `char::to_uppercase` yields for `c` (one or more characters).
pub uninterp spec fn uppercase_of(c: char) -> Seq<char>;

/// What `str::to_lowercase` returns for `s`.
pub uninterp spec fn lowercase_of(s: Seq<char>) -> Seq<char>;

/// Joining `rest` onto `base` as `Path::join` does on Unix: an absolute `rest`
/// replaces `base`; otherwise `rest` is appended, after a `/` unless `base` is
/// empty or already ends in one.
pub open spec fn path_join(base: Seq<char>, rest: Seq<char>) -> Seq<char> {
    if rest.len() > 0 && rest[0] == '/' {
        rest
    } else if base.len() == 0 || base.last() == '/' {
        base + rest
    } else {
        base.push('/') + rest
    }
}

/// An ASCII character.
pub open spec fn is_ascii_char(c: char) -> bool {
    (c as u32) < 128
}

/// Text of ASCII characters only.
pub open spec fn all_ascii(s: Seq<char>) -> bool {
    forall|i: int| 0 <= i < s.len() ==> is_ascii_char(#[trigger] s[i])
}

/// A character lower-cased if it is an ASCII capital letter.
pub open spec fn ascii_lower(c: char) -> char {
    if 'A' <= c && c <= 'Z' {
        (((c as u8) + 32) as u8) as char
    } else {
        c
    }
}

/// Text with its ASCII capital letters lower-cased.
pub open spec fn ascii_lowered(s: Seq<char>) -> Seq<char> {
    s.map_values(|c: char| ascii_lower(c))
}

/// `char::to_uppercase`, collected. An ASCII character maps to its ASCII capital
/// (itself when it is not a lowercase letter).
#[verifier::external_body]
fn to_uppercase(c: char) -> (r: Vec<char>)
    ensures
        r@ == uppercase_of(c),
        is_ascii_char(c) ==> r@ == seq![ascii_upper(c)],
{
    c.to_uppercase().collect()
}

/// `str::to_lowercase`. ASCII text is lower-cased character by character.
#[verifier::external_body]
fn to_lowercase(s: &str) -> (r: String)
    ensures
        r@ == lowercase_of(s@),
        all_ascii(s@) ==> r@ == ascii_lowered(s@),
{
    s.to_lowercase()
}

/// Join `rest` onto `base` as `Path::join` does on Unix.
fn join_path(base: &str, rest: &str) -> (r: String)
    ensures
        r@ == path_join(base@, rest@),
{
    let b = chars_of(base);
    let t = chars_of(rest);
    if t.len() > 0 && t[0] == '/' {
        return owned(rest);
    }
    let mut out = b;
    if out.len() > 0 && out[out.len() - 1] != '/' {
        out.push('/');
    }
    let ghost start = out@;
    let mut i: usize = 0;
    while i < t.len()
        invariant
            i <= t.len(),
            out@ == start + t@.take(i as int),
        decreases t.len() - i,
    {
        out.push(t[i]);
        proof {
            assert(t@.take(i + 1) =~= t@.take(i as int).push(t@[i as int]));
        }
        i += 1;
    }
    proof {
        assert(t@.take(t.len() as int) =~= t@);
    }
    string_of(&out)
}

/// Splitting keeps a property of characters: if every character of `cur`, and
/// every character of `s` that is not a separator, has `prop`, so does every
/// character of every run.
proof fn lemma_runs_keep(s: Seq<char>, cur: Seq<char>, dash_only: bool, prop: spec_fn(char) -> bool)
    requires
        forall|k: int| 0 <= k < cur.len() ==> prop(#[trigger] cur[k]),
        forall|k: int| 0 <= k < s.len() ==> prop(#[trigger] s[k]) || is_separator(s[k], dash_only),
    ensures
        forall|i: int, k: int|
            0 <= i < runs_from(s, cur, dash_only).len() && 0 <= k < runs_from(
                s,
                cur,
                dash_only,
            )[i].len() ==> prop(#[trigger] runs_from(s, cur, dash_only)[i][k]),
    decreases s.len(),
{
    let r = runs_from(s, cur, dash_only);
    if s.len() == 0 {
        if cur.len() > 0 {
            assert(r =~= seq![cur]);
            assert forall|i: int, k: int| 0 <= i < r.len() && 0 <= k < r[i].len() implies prop(
                #[trigger] r[i][k],
            ) by {
                assert(r[i] == cur);
            }
        }
    } else {
        let t = s.drop_first();
        assert forall|k: int| 0 <= k < t.len() implies prop(#[trigger] t[k]) || is_separator(
            t[k],
            dash_only,
        ) by {
            assert(t[k] == s[k + 1]);
        }
        if is_separator(s[0], dash_only) {
            lemma_runs_keep(t, Seq::empty(), dash_only, prop);
            let rest = runs_from(t, Seq::empty(), dash_only);
            if cur.len() > 0 {
                assert(r =~= seq![cur] + rest);
                assert forall|i: int, k: int| 0 <= i < r.len() && 0 <= k < r[i].len() implies prop(
                    #[trigger] r[i][k],
                ) by {
                    if i > 0 {
                        assert(r[i] == rest[i - 1]);
                    } else {
                        assert(r[i] == cur);
                    }
                }
            } else {
                assert(r =~= rest);
            }
        } else {
            let c2 = cur.push(s[0]);
            assert forall|k: int| 0 <= k < c2.len() implies prop(#[trigger] c2[k]) by {
                if k < cur.len() {
                    assert(c2[k] == cur[k]);
                }
            }
            lemma_runs_keep(t, c2, dash_only, prop);
            assert(r == runs_from(t, c2, dash_only));
        }
    }
}

/// Every run is non-empty.
proof fn lemma_runs_nonempty(s: Seq<char>, cur: Seq<char>, dash_only: bool)
    ensures
        forall|i: int|
            0 <= i < runs_from(s, cur, dash_only).len() ==> #[trigger] runs_from(
                s,
                cur,
                dash_only,
            )[i].len() > 0,
    decreases s.len(),
{
    let r = runs_from(s, cur, dash_only);
    if s.len() == 0 {
        if cur.len() > 0 {
            assert(r =~= seq![cur]);
            assert(r[0] == cur);
        }
    } else if is_separator(s[0], dash_only) {
        lemma_runs_nonempty(s.drop_first(), Seq::empty(), dash_only);
        let rest = runs_from(s.drop_first(), Seq::empty(), dash_only);
        if cur.len() > 0 {
            assert(r =~= seq![cur] + rest);
            assert forall|i: int| 0 <= i < r.len() implies #[trigger] r[i].len() > 0 by {
                if i > 0 {
                    assert(r[i] == rest[i - 1]);
                } else {
                    assert(r[i] == cur);
                }
            }
        } else {
            assert(r =~= rest);
            assert forall|i: int| 0 <= i < r.len() implies #[trigger] r[i].len() > 0 by {
                assert(r[i] == rest[i]);
            }
        }
    } else {
        lemma_runs_nonempty(s.drop_first(), cur.push(s[0]), dash_only);
        let rest = runs_from(s.drop_first(), cur.push(s[0]), dash_only);
        assert(r == rest);
        assert forall|i: int| 0 <= i < r.len() implies #[trigger] r[i].len() > 0 by {
            assert(r[i] == rest[i]);
        }
    }
}

/// The runs of `v` between separators.
fn runs_of(v: &Vec<char>, dash_only: bool) -> (r: Vec<Vec<char>>)
    ensures
        views(r@) == runs(v@, dash_only),
{
    let mut out: Vec<Vec<char>> = Vec::new();
    let mut cur: Vec<char> = Vec::new();
    let mut i: usize = 0;
    proof {
        assert(v@.skip(0) =~= v@);
        assert(views(out@) + runs(v@, dash_only) =~= runs(v@, dash_only));
    }
    while i < v.len()
        invariant
            i <= v.len(),
            views(out@) + runs_from(v@.skip(i as int), cur@, dash_only) == runs(v@, dash_only),
        decreases v.len() - i,
    {
        let c = v[i];
        proof {
            assert(v@.skip(i as int)[0] == c);
            assert(v@.skip(i as int).drop_first() =~= v@.skip(i + 1));
        }
        let ghost rest = runs_from(v@.skip(i + 1), Seq::empty(), dash_only);
        if c == '-' || (!dash_only && c == '_') {
            if cur.len() > 0 {
                proof {
                    assert(runs_from(v@.skip(i as int), cur@, dash_only) == seq![cur@] + rest);
                    assert(views(out@.push(cur)) =~= views(out@) + seq![cur@]);
                    assert(views(out@) + (seq![cur@] + rest) =~= (views(out@) + seq![cur@])
                        + rest);
                }
                out.push(cur);
                cur = Vec::new();
            } else {
                proof {
                    assert(runs_from(v@.skip(i as int), cur@, dash_only) == rest);
                    assert(cur@ =~= Seq::<char>::empty());
                }
            }
        } else {
            proof {
                assert(runs_from(v@.skip(i as int), cur@, dash_only) == runs_from(
                    v@.skip(i + 1),
                    cur@.push(c),
                    dash_only,
                ));
            }
            cur.push(c);
        }
        i += 1;
    }
    proof {
        assert(v@.skip(i as int) =~= Seq::<char>::empty());
    }
    if cur.len() > 0 {
        proof {
            assert(views(out@.push(cur)) =~= views(out@) + seq![cur@]);
        }
        out.push(cur);
    }
    proof {
        assert(views(out@) =~= runs(v@, dash_only));
    }
    out
}

/// `ws` with `sep` between consecutive items.
fn join_with(ws: &Vec<Vec<char>>, sep: char) -> (r: Vec<char>)
    ensures
        r@ == joined(views(ws@), sep),
{
    let mut r: Vec<char> = Vec::new();
    let mut i: usize = 0;
    while i < ws.len()
        invariant
            i <= ws.len(),
            r@ == joined(views(ws@).take(i as int), sep),
        decreases ws.len() - i,
    {
        let ghost before = r@;
        if i > 0 {
            r.push(sep);
        }
        let w = &ws[i];
        let mut k: usize = 0;
        let ghost mid = r@;
        while k < w.len()
            invariant
                k <= w.len(),
                r@ == mid + w@.take(k as int),
            decreases w.len() - k,
        {
            r.push(w[k]);
            proof {
                assert(w@.take(k + 1) =~= w@.take(k as int).push(w@[k as int]));
            }
            k += 1;
        }
        proof {
            assert(w@.take(w.len() as int) =~= w@);
            let t = views(ws@).take(i + 1);
            assert(t.drop_last() =~= views(ws@).take(i as int));
            assert(t.last() == w@);
            if i == 0 {
                assert(r@ =~= w@);
            }
        }
        i += 1;
    }
    proof {
        assert(views(ws@).take(ws.len() as int) =~= views(ws@));
    }
    r
}

/// A word with its first character upper-cased.
pub open spec fn title_word(w: Seq<char>) -> Seq<char> {
    uppercase_of(w[0]) + w.drop_first()
}

/// `tokyo-night` → `Tokyo Night`: the words between `-` and `_`, each with its
/// first character upper-cased, joined by single spaces.
pub open spec fn prettified(stem: Seq<char>) -> Seq<char> {
    joined(runs(stem, false).map_values(|w: Seq<char>| title_word(w)), ' ')
}

/// Words whose first characters were upper-cased into `heads`: each word with its
/// first character replaced by its head, joined by single spaces.
pub fn title_words(words: &Vec<Vec<char>>, heads: &Vec<Vec<char>>) -> (r: String)
    requires
        words.len() == heads.len(),
        forall|i: int| 0 <= i < words.len() ==> #[trigger] words@[i]@.len() > 0,
    ensures
        r@ == joined(
            Seq::new(words.len() as nat, |i: int| heads@[i]@ + words@[i]@.drop_first()),
            ' ',
        ),
{
    let mut titled: Vec<Vec<char>> = Vec::new();
    let mut i: usize = 0;
    while i < words.len()
        invariant
            i <= words.len(),
            words.len() == heads.len(),
            forall|j: int| 0 <= j < words.len() ==> #[trigger] words@[j]@.len() > 0,
            titled.len() == i,
            forall|j: int|
                0 <= j < i ==> #[trigger] titled@[j]@ == heads@[j]@ + words@[j]@.drop_first(),
        decreases words.len() - i,
    {
        let w = &words[i];
        let mut t: Vec<char> = Vec::new();
        let h = &heads[i];
        let mut k: usize = 0;
        while k < h.len()
            invariant
                k <= h.len(),
                t@ == h@.take(k as int),
            decreases h.len() - k,
        {
            t.push(h[k]);
            proof {
                assert(h@.take(k + 1) =~= h@.take(k as int).push(h@[k as int]));
            }
            k += 1;
        }
        let mut m: usize = 1;
        proof {
            assert(h@.take(h.len() as int) =~= h@);
            assert(w@.drop_first().take(0) =~= Seq::<char>::empty());
            assert(t@ =~= h@ + w@.drop_first().take(0));
        }
        while m < w.len()
            invariant
                1 <= m <= w.len(),
                t@ == h@ + w@.drop_first().take(m - 1),
            decreases w.len() - m,
        {
            t.push(w[m]);
            proof {
                assert(w@.drop_first().take(m as int) =~= w@.drop_first().take(m - 1).push(
                    w@[m as int],
                ));
            }
            m += 1;
        }
        proof {
            assert(w@.drop_first().take(w.len() - 1) =~= w@.drop_first());
        }
        titled.push(t);
        i += 1;
    }
    let r = join_with(&titled, ' ');
    proof {
        assert(views(titled@) =~= Seq::new(
            words.len() as nat,
            |i: int| heads@[i]@ + words@[i]@.drop_first(),
        ));
    }
    string_of(&r)
}

/// `tokyo-night` → `Tokyo Night` (a preset's file stem → its display name).
pub fn prettify(stem: &str) -> (r: String)
    ensures
        r@ == prettified(stem@),
        all_ascii(stem@) ==> r@ == prettified_ascii(stem@),
{
    let v = chars_of(stem);
    let words = runs_of(&v, false);
    proof {
        lemma_runs_nonempty(v@, Seq::empty(), false);
        if all_ascii(v@) {
            lemma_runs_keep(v@, Seq::empty(), false, |c: char| is_ascii_char(c));
            assert forall|j: int, k: int| 0 <= j < words.len() && 0 <= k < words@[j]@.len()
                implies is_ascii_char(#[trigger] words@[j]@[k]) by {
                assert(views(words@)[j] == words@[j]@);
                assert(runs(v@, false)[j][k] == words@[j]@[k]);
            }
        }
        assert forall|j: int| 0 <= j < words.len() implies #[trigger] words@[j]@.len() > 0 by {
            assert(views(words@)[j] == words@[j]@);
        }
    }
    let mut heads: Vec<Vec<char>> = Vec::new();
    let mut i: usize = 0;
    while i < words.len()
        invariant
            i <= words.len(),
            views(words@) == runs(v@, false),
            forall|j: int| 0 <= j < words.len() ==> #[trigger] words@[j]@.len() > 0,
            heads.len() == i,
            forall|j: int| 0 <= j < i ==> #[trigger] heads@[j]@ == uppercase_of(words@[j]@[0]),
            v@ == stem@,
            all_ascii(v@) ==> forall|j: int, k: int|
                0 <= j < words.len() && 0 <= k < words@[j]@.len() ==> is_ascii_char(
                    #[trigger] words@[j]@[k],
                ),
            all_ascii(v@) ==> forall|j: int|
                0 <= j < i ==> #[trigger] heads@[j]@ == seq![ascii_upper(words@[j]@[0])],
        decreases words.len() - i,
    {
        proof {
            assert(views(words@)[i as int] == words@[i as int]@);
        }
        let head = to_uppercase(words[i][0]);
        heads.push(head);
        i += 1;
    }
    proof {
        assert forall|j: int| 0 <= j < words.len() implies #[trigger] words@[j]@.len() > 0 by {
            assert(views(words@)[j] == words@[j]@);
        }
    }
    let r = title_words(&words, &heads);
    proof {
        let ws = runs(stem@, false);
        assert(Seq::new(words.len() as nat, |i: int| heads@[i]@ + words@[i]@.drop_first())
            =~= ws.map_values(|w: Seq<char>| title_word(w))) by {
            assert forall|j: int| 0 <= j < words.len() implies #[trigger] views(words@)[j]
                == words@[j]@ by {}
        }
        if all_ascii(stem@) {
            assert(Seq::new(words.len() as nat, |i: int| heads@[i]@ + words@[i]@.drop_first())
                =~= ws.map_values(|w: Seq<char>| title_ascii(w))) by {
                assert forall|j: int| 0 <= j < words.len() implies #[trigger] views(words@)[j]
                    == words@[j]@ by {}
            }
        }
    }
    r
}

/// A word with its first character upper-cased, for ASCII text.
pub open spec fn title_ascii(w: Seq<char>) -> Seq<char> {
    seq![ascii_upper(w[0])] + w.drop_first()
}

/// What `prettify` gives for ASCII text: each word's first letter capitalised.
pub open spec fn prettified_ascii(stem: Seq<char>) -> Seq<char> {
    joined(runs(stem, false).map_values(|w: Seq<char>| title_ascii(w)), ' ')
}

/// An ASCII letter or digit.
pub open spec fn is_ascii_alnum(c: char) -> bool {
    ('0' <= c && c <= '9') || ('a' <= c && c <= 'z') || ('A' <= c && c <= 'Z')
}

/// A character of a slug: itself if an ASCII letter or digit, else `-`.
pub open spec fn slug_char(c: char) -> char {
    if is_ascii_alnum(c) {
        c
    } else {
        '-'
    }
}

/// The slug of an already lower-cased name: every character that is not an ASCII
/// letter or digit becomes `-`, then the non-empty runs are joined by single `-`.
pub open spec fn slug_of(lowered: Seq<char>) -> Seq<char> {
    joined(runs(lowered.map_values(|c: char| slug_char(c)), true), '-')
}

/// `My Theme!` → `my-theme`: the name trimmed, lower-cased, then slugged.
pub open spec fn slugified(name: Seq<char>) -> Seq<char> {
    slug_of(lowercase_of(trim(name)))
}

/// What `slugify` gives for ASCII text.
pub open spec fn ascii_slug(name: Seq<char>) -> Seq<char> {
    slug_of(ascii_lowered(trim(name)))
}

/// Trimming ASCII text leaves ASCII text.
proof fn lemma_trim_keeps_ascii(s: Seq<char>)
    requires
        all_ascii(s),
    ensures
        all_ascii(trim(s)),
{
    lemma_trim_start_keeps_ascii(s);
    lemma_trim_end_keeps_ascii(trim_start(s));
}

proof fn lemma_trim_start_keeps_ascii(s: Seq<char>)
    requires
        all_ascii(s),
    ensures
        all_ascii(trim_start(s)),
    decreases s.len(),
{
    if s.len() > 0 && is_space(s[0]) {
        let t = s.drop_first();
        assert forall|i: int| 0 <= i < t.len() implies is_ascii_char(#[trigger] t[i]) by {
            assert(t[i] == s[i + 1]);
        }
        lemma_trim_start_keeps_ascii(t);
    }
}

proof fn lemma_trim_end_keeps_ascii(s: Seq<char>)
    requires
        all_ascii(s),
    ensures
        all_ascii(trim_end(s)),
    decreases s.len(),
{
    if s.len() > 0 && is_space(s.last()) {
        let t = s.drop_last();
        assert forall|i: int| 0 <= i < t.len() implies is_ascii_char(#[trigger] t[i]) by {
            assert(t[i] == s[i]);
        }
        lemma_trim_end_keeps_ascii(t);
    }
}

/// The slug of an already lower-cased name.
pub fn slug_from_lowercase(lowered: &str) -> (r: String)
    ensures
        r@ == slug_of(lowered@),
{
    let v = chars_of(lowered);
    let mut m: Vec<char> = Vec::new();
    let mut i: usize = 0;
    while i < v.len()
        invariant
            i <= v.len(),
            v@ == lowered@,
            m@ == v@.take(i as int).map_values(|c: char| slug_char(c)),
        decreases v.len() - i,
    {
        let c = v[i];
        if ('0' <= c && c <= '9') || ('a' <= c && c <= 'z') || ('A' <= c && c <= 'Z') {
            m.push(c);
        } else {
            m.push('-');
        }
        proof {
            assert(v@.take(i + 1).map_values(|c: char| slug_char(c)) =~= v@.take(
                i as int,
            ).map_values(|c: char| slug_char(c)).push(slug_char(c)));
        }
        i += 1;
    }
    proof {
        assert(v@.take(v.len() as int) =~= v@);
    }
    let words = runs_of(&m, true);
    let r = join_with(&words, '-');
    string_of(&r)
}

/// `My Theme!` → `my-theme` (a display name → a safe file stem).
pub fn slugify(name: &str) -> (r: String)
    ensures
        r@ == slugified(name@),
        all_ascii(name@) ==> r@ == ascii_slug(name@),
{
    let t = string_of(&trimmed(&chars_of(name)));
    proof {
        if all_ascii(name@) {
            lemma_trim_keeps_ascii(name@);
        }
    }
    let lowered = to_lowercase(t.as_str());
    slug_from_lowercase(lowered.as_str())
}

/// A character upper-cased if it is an ASCII lowercase letter.
pub open spec fn ascii_upper(c: char) -> char {
    if 'a' <= c && c <= 'z' {
        (((c as u8) - 32) as u8) as char
    } else {
        c
    }
}

/// `s` with its first character upper-cased (ASCII only).
pub open spec fn capitalized(s: Seq<char>) -> Seq<char> {
    if s.len() == 0 {
        Seq::empty()
    } else {
        seq![ascii_upper(s[0])] + s.drop_first()
    }
}

/// `s` with its first character upper-cased (ASCII only): a scene's name as shown.
pub fn capitalize(s: &str) -> (r: String)
    ensures
        r@ == capitalized(s@),
{
    let v = chars_of(s);
    if v.len() == 0 {
        return String::new();
    }
    let mut out: Vec<char> = Vec::new();
    let c = v[0];
    if 'a' <= c && c <= 'z' {
        let u: u8 = (c as u8) - 32;
        out.push(u as char);
    } else {
        out.push(c);
    }
    let mut i: usize = 1;
    while i < v.len()
        invariant
            1 <= i <= v.len(),
            v@ == s@,
            v@.len() > 0,
            out@ == seq![ascii_upper(v@[0])] + v@.drop_first().take(i - 1),
        decreases v.len() - i,
    {
        out.push(v[i]);
        proof {
            assert(v@.drop_first().take(i as int) =~= v@.drop_first().take(i - 1).push(
                v@[i as int],
            ));
        }
        i += 1;
    }
    proof {
        assert(v@.drop_first().take(v.len() - 1) =~= v@.drop_first());
    }
    string_of(&out)
}

/// The import/export path field with a leading `~/` taken from `home` (when known):
/// the rest joined onto it; any other text as it is.
pub open spec fn expanded(s: Seq<char>, home: Option<Seq<char>>) -> Seq<char> {
    if has_prefix(s, seq!['~', '/']) && home is Some {
        path_join(home->0, s.skip(2))
    } else {
        s
    }
}

/// A leading `~/` is replaced by the home directory and nothing else moves: the
/// rest of the path is joined under the home directory (after a `/` when the home
/// does not end in one); without a home directory, or without a leading `~/`, the
/// text is kept as it is.
pub proof fn lemma_tilde_expansion(s: Seq<char>, home: Seq<char>, rest: Seq<char>)
    ensures
        expanded(s, None) == s,
        !has_prefix(s, seq!['~', '/']) ==> expanded(s, Some(home)) == s,
        (home.len() > 0 && home.last() != '/' && !(rest.len() > 0 && rest[0] == '/'))
            ==> expanded(seq!['~', '/'] + rest, Some(home)) == home + seq!['/'] + rest,
{
    let t = seq!['~', '/'] + rest;
    assert(t.take(2) =~= seq!['~', '/']);
    assert(t.skip(2) =~= rest);
    assert(home.push('/') + rest =~= home + seq!['/'] + rest);
}

/// Expand a leading `~/` to `home` (the `$HOME` the caller read, if set).
pub fn expand_tilde(s: &str, home: Option<&str>) -> (r: String)
    ensures
        r@ == expanded(
            s@,
            match home {
                Some(h) => Some(h@),
                None => None,
            },
        ),
{
    let v = chars_of(s);
    if v.len() >= 2 && v[0] == '~' && v[1] == '/' {
        proof {
            assert(s@.take(2) =~= seq!['~', '/']);
        }
        match home {
            Some(h) => {
                let rest = string_of(&slice_chars(&v, 2, v.len()));
                proof {
                    assert(rest@ =~= s@.skip(2));
                }
                join_path(h, rest.as_str())
            },
            None => owned(s),
        }
    } else {
        proof {
            if has_prefix(s@, seq!['~', '/']) {
                assert(s@.take(2)[0] == s@[0]);
                assert(s@.take(2)[1] == s@[1]);
            }
        }
        owned(s)
    }
}

/// A field of the editor: the per-variant palette keys route to the variant being
/// edited; the rest are shared by both variants.
#[derive(Debug, Clone, Copy, PartialEq, Eq, Structural)]
pub enum Param {
    Wallpaper,
    Background,
    Card,
    Field,
    Accent,
    Foreground,
    Muted,
    Logo,
    SpinnerComet,
    SpinnerTrack,
    SkyComet,
    GlowColor,
    ErrorColor,
    LogoBox,
    Font,
    CornerRadius,
    CardWidth,
    DayStart,
    DayEnd,
}

/// The color fields.
pub open spec fn is_color_param(p: Param) -> bool {
    match p {
        Param::Background | Param::Card | Param::Field | Param::Accent | Param::Foreground
        | Param::Muted | Param::SpinnerComet | Param::SpinnerTrack | Param::SkyComet
        | Param::GlowColor | Param::ErrorColor | Param::LogoBox => true,
        _ => false,
    }
}

/// The fields shared by both variants.
pub open spec fn is_shared_param(p: Param) -> bool {
    match p {
        Param::Font | Param::CornerRadius | Param::CardWidth | Param::DayStart
        | Param::DayEnd => true,
        _ => false,
    }
}

/// A color field's display name (the picker's header).
pub open spec fn param_label(p: Param) -> Seq<char> {
    match p {
        Param::Background => "Background"@,
        Param::Card => "Card"@,
        Param::Field => "Field"@,
        Param::Accent => "Accent"@,
        Param::Foreground => "Foreground"@,
        Param::Muted => "Muted"@,
        Param::SpinnerComet => "Spinner comet"@,
        Param::SpinnerTrack => "Spinner track"@,
        Param::SkyComet => "Sky comet"@,
        Param::GlowColor => "Glow"@,
        Param::ErrorColor => "Error"@,
        Param::LogoBox => "Logo box"@,
        _ => "Color"@,
    }
}

/// The display name of a color field, for the picker header.
pub fn param_name(param: Param) -> (s: &'static str)
    ensures
        s@ == param_label(param),
{
    match param {
        Param::Background => "Background",
        Param::Card => "Card",
        Param::Field => "Field",
        Param::Accent => "Accent",
        Param::Foreground => "Foreground",
        Param::Muted => "Muted",
        Param::SpinnerComet => "Spinner comet",
        Param::SpinnerTrack => "Spinner track",
        Param::SkyComet => "Sky comet",
        Param::GlowColor => "Glow",
        Param::ErrorColor => "Error",
        Param::LogoBox => "Logo box",
        _ => "Color",
    }
}

/// A variant's palette as the editor holds it: colors as hex text, paths as text
/// (empty when unset), strengths as binary32 bit patterns.
pub struct Palette {
    pub wallpaper: String,
    pub background: String,
    pub card: String,
    pub field: String,
    pub accent: String,
    pub foreground: String,
    pub muted: String,
    pub logo: String,
    pub comet: String,
    pub track: String,
    pub trail: u32,
    pub glow: u32,
    pub comet_color: String,
    pub glow_color: String,
    pub sky_glow: u32,
    pub error_color: String,
    pub logo_box: String,
}

/// A palette as plain values.
pub struct PaletteView {
    pub wallpaper: Seq<char>,
    pub background: Seq<char>,
    pub card: Seq<char>,
    pub field: Seq<char>,
    pub accent: Seq<char>,
    pub foreground: Seq<char>,
    pub muted: Seq<char>,
    pub logo: Seq<char>,
    pub comet: Seq<char>,
    pub track: Seq<char>,
    pub trail: u32,
    pub glow: u32,
    pub comet_color: Seq<char>,
    pub glow_color: Seq<char>,
    pub sky_glow: u32,
    pub error_color: Seq<char>,
    pub logo_box: Seq<char>,
}

impl View for Palette {
    type V = PaletteView;

    open spec fn view(&self) -> PaletteView {
        PaletteView {
            wallpaper: self.wallpaper@,
            background: self.background@,
            card: self.card@,
            field: self.field@,
            accent: self.accent@,
            foreground: self.foreground@,
            muted: self.muted@,
            logo: self.logo@,
            comet: self.comet@,
            track: self.track@,
            trail: self.trail,
            glow: self.glow,
            comet_color: self.comet_color@,
            glow_color: self.glow_color@,
            sky_glow: self.sky_glow,
            error_color: self.error_color@,
            logo_box: self.logo_box@,
        }
    }
}

/// A path as the editor's text field shows it: empty when unset.
pub open spec fn path_text(p: Option<String>) -> Seq<char> {
    match p {
        Some(s) => s@,
        None => Seq::empty(),
    }
}

/// The palette the editor shows for a theme.
pub open spec fn palette_of(t: Theme) -> PaletteView {
    PaletteView {
        wallpaper: path_text(t.wallpaper),
        background: color_hex(t.background),
        card: color_hex(t.card),
        field: color_hex(t.field),
        accent: color_hex(t.accent),
        foreground: color_hex(t.foreground),
        muted: color_hex(t.muted),
        logo: path_text(t.logo),
        comet: color_hex(t.spinner_comet),
        track: color_hex(t.spinner_track),
        trail: t.spinner_trail,
        glow: t.spinner_glow,
        comet_color: color_hex(t.comet_color),
        glow_color: color_hex(t.glow_color),
        sky_glow: t.sky_glow,
        error_color: color_hex(t.error_color),
        logo_box: color_hex(t.logo_box),
    }
}

/// The text of an optional path, empty when unset.
fn path_field(p: &Option<String>) -> (r: String)
    ensures
        r@ == path_text(*p),
{
    match p {
        Some(s) => s.clone(),
        None => String::new(),
    }
}

impl Palette {
    /// The palette the editor shows for a theme.
    pub fn from_theme(t: &Theme) -> (p: Palette)
        ensures
            p@ == palette_of(*t),
    {
        Palette {
            wallpaper: path_field(&t.wallpaper),
            background: t.background.to_hex(),
            card: t.card.to_hex(),
            field: t.field.to_hex(),
            accent: t.accent.to_hex(),
            foreground: t.foreground.to_hex(),
            muted: t.muted.to_hex(),
            logo: path_field(&t.logo),
            comet: t.spinner_comet.to_hex(),
            track: t.spinner_track.to_hex(),
            trail: t.spinner_trail,
            glow: t.spinner_glow,
            comet_color: t.comet_color.to_hex(),
            glow_color: t.glow_color.to_hex(),
            sky_glow: t.sky_glow,
            error_color: t.error_color.to_hex(),
            logo_box: t.logo_box.to_hex(),
        }
    }

    /// Set a palette field (the shared fields are not the palette's: unchanged).
    fn put(&mut self, param: Param, value: String)
        ensures
            final(self)@ == palette_set(old(self)@, param, value@),
    {
        match param {
            Param::Wallpaper => self.wallpaper = value,
            Param::Background => self.background = value,
            Param::Card => self.card = value,
            Param::Field => self.field = value,
            Param::Accent => self.accent = value,
            Param::Foreground => self.foreground = value,
            Param::Muted => self.muted = value,
            Param::Logo => self.logo = value,
            Param::SpinnerComet => self.comet = value,
            Param::SpinnerTrack => self.track = value,
            Param::SkyComet => self.comet_color = value,
            Param::GlowColor => self.glow_color = value,
            Param::ErrorColor => self.error_color = value,
            Param::LogoBox => self.logo_box = value,
            _ => {},
        }
    }

    /// The hex text of a color field; empty for any other field.
    fn hex(&self, param: Param) -> (s: &str)
        ensures
            s@ == palette_hex(self@, param),
    {
        match param {
            Param::Background => self.background.as_str(),
            Param::Card => self.card.as_str(),
            Param::Field => self.field.as_str(),
            Param::Accent => self.accent.as_str(),
            Param::Foreground => self.foreground.as_str(),
            Param::Muted => self.muted.as_str(),
            Param::SpinnerComet => self.comet.as_str(),
            Param::SpinnerTrack => self.track.as_str(),
            Param::SkyComet => self.comet_color.as_str(),
            Param::GlowColor => self.glow_color.as_str(),
            Param::ErrorColor => self.error_color.as_str(),
            Param::LogoBox => self.logo_box.as_str(),
            _ => {
                proof {
                    reveal_strlit("");
                }
                ""
            },
        }
    }
}

/// A palette with one of its fields set (the shared fields are not the palette's).
pub open spec fn palette_set(p: PaletteView, param: Param, v: Seq<char>) -> PaletteView {
    match param {
        Param::Wallpaper => PaletteView { wallpaper: v, ..p },
        Param::Background => PaletteView { background: v, ..p },
        Param::Card => PaletteView { card: v, ..p },
        Param::Field => PaletteView { field: v, ..p },
        Param::Accent => PaletteView { accent: v, ..p },
        Param::Foreground => PaletteView { foreground: v, ..p },
        Param::Muted => PaletteView { muted: v, ..p },
        Param::Logo => PaletteView { logo: v, ..p },
        Param::SpinnerComet => PaletteView { comet: v, ..p },
        Param::SpinnerTrack => PaletteView { track: v, ..p },
        Param::SkyComet => PaletteView { comet_color: v, ..p },
        Param::GlowColor => PaletteView { glow_color: v, ..p },
        Param::ErrorColor => PaletteView { error_color: v, ..p },
        Param::LogoBox => PaletteView { logo_box: v, ..p },
        _ => p,
    }
}

/// The hex text of a palette's color field; empty for any other field.
pub open spec fn palette_hex(p: PaletteView, param: Param) -> Seq<char> {
    match param {
        Param::Background => p.background,
        Param::Card => p.card,
        Param::Field => p.field,
        Param::Accent => p.accent,
        Param::Foreground => p.foreground,
        Param::Muted => p.muted,
        Param::SpinnerComet => p.comet,
        Param::SpinnerTrack => p.track,
        Param::SkyComet => p.comet_color,
        Param::GlowColor => p.glow_color,
        Param::ErrorColor => p.error_color,
        Param::LogoBox => p.logo_box,
        _ => Seq::empty(),
    }
}

/// The scene colors shared by both variants, as the editor's hex text fields.
pub struct SceneColors {
    pub sun_color: String,
    pub cloud_lit: String,
    pub cloud_shadow: String,
    pub synthwave_grid_color: String,
    pub synthwave_sky_top: String,
    pub synthwave_sky_bottom: String,
    pub storm_bolt_color: String,
    pub storm_flash_color: String,
    pub rain_color: String,
    pub snow_color: String,
    pub fire_flame_color: String,
    pub fire_tip_color: String,
    pub aurora_green: String,
    pub aurora_magenta: String,
    pub plasma_tint: String,
    pub water_caustic_color: String,
    pub water_deep: String,
    pub water_shallow: String,
}

/// The scene colors as plain values.
pub struct SceneColorsView {
    pub sun_color: Seq<char>,
    pub cloud_lit: Seq<char>,
    pub cloud_shadow: Seq<char>,
    pub synthwave_grid_color: Seq<char>,
    pub synthwave_sky_top: Seq<char>,
    pub synthwave_sky_bottom: Seq<char>,
    pub storm_bolt_color: Seq<char>,
    pub storm_flash_color: Seq<char>,
    pub rain_color: Seq<char>,
    pub snow_color: Seq<char>,
    pub fire_flame_color: Seq<char>,
    pub fire_tip_color: Seq<char>,
    pub aurora_green: Seq<char>,
    pub aurora_magenta: Seq<char>,
    pub plasma_tint: Seq<char>,
    pub water_caustic_color: Seq<char>,
    pub water_deep: Seq<char>,
    pub water_shallow: Seq<char>,
}

impl View for SceneColors {
    type V = SceneColorsView;

    open spec fn view(&self) -> SceneColorsView {
        SceneColorsView {
            sun_color: self.sun_color@,
            cloud_lit: self.cloud_lit@,
            cloud_shadow: self.cloud_shadow@,
            synthwave_grid_color: self.synthwave_grid_color@,
            synthwave_sky_top: self.synthwave_sky_top@,
            synthwave_sky_bottom: self.synthwave_sky_bottom@,
            storm_bolt_color: self.storm_bolt_color@,
            storm_flash_color: self.storm_flash_color@,
            rain_color: self.rain_color@,
            snow_color: self.snow_color@,
            fire_flame_color: self.fire_flame_color@,
            fire_tip_color: self.fire_tip_color@,
            aurora_green: self.aurora_green@,
            aurora_magenta: self.aurora_magenta@,
            plasma_tint: self.plasma_tint@,
            water_caustic_color: self.water_caustic_color@,
            water_deep: self.water_deep@,
            water_shallow: self.water_shallow@,
        }
    }
}

/// The scene colors the editor shows for a theme.
pub open spec fn scene_colors_of(t: Theme) -> SceneColorsView {
    SceneColorsView {
        sun_color: color_hex(t.sun_color),
        cloud_lit: color_hex(t.cloud_lit),
        cloud_shadow: color_hex(t.cloud_shadow),
        synthwave_grid_color: color_hex(t.synthwave_grid_color),
        synthwave_sky_top: color_hex(t.synthwave_sky_top),
        synthwave_sky_bottom: color_hex(t.synthwave_sky_bottom),
        storm_bolt_color: color_hex(t.storm_bolt_color),
        storm_flash_color: color_hex(t.storm_flash_color),
        rain_color: color_hex(t.rain_color),
        snow_color: color_hex(t.snow_color),
        fire_flame_color: color_hex(t.fire_flame_color),
        fire_tip_color: color_hex(t.fire_tip_color),
        aurora_green: color_hex(t.aurora_green),
        aurora_magenta: color_hex(t.aurora_magenta),
        plasma_tint: color_hex(t.plasma_tint),
        water_caustic_color: color_hex(t.water_caustic_color),
        water_deep: color_hex(t.water_deep),
        water_shallow: color_hex(t.water_shallow),
    }
}

impl SceneColors {
    /// The scene colors the editor shows for a theme.
    pub fn from_theme(t: &Theme) -> (c: SceneColors)
        ensures
            c@ == scene_colors_of(*t),
    {
        SceneColors {
            sun_color: t.sun_color.to_hex(),
            cloud_lit: t.cloud_lit.to_hex(),
            cloud_shadow: t.cloud_shadow.to_hex(),
            synthwave_grid_color: t.synthwave_grid_color.to_hex(),
            synthwave_sky_top: t.synthwave_sky_top.to_hex(),
            synthwave_sky_bottom: t.synthwave_sky_bottom.to_hex(),
            storm_bolt_color: t.storm_bolt_color.to_hex(),
            storm_flash_color: t.storm_flash_color.to_hex(),
            rain_color: t.rain_color.to_hex(),
            snow_color: t.snow_color.to_hex(),
            fire_flame_color: t.fire_flame_color.to_hex(),
            fire_tip_color: t.fire_tip_color.to_hex(),
            aurora_green: t.aurora_green.to_hex(),
            aurora_magenta: t.aurora_magenta.to_hex(),
            plasma_tint: t.plasma_tint.to_hex(),
            water_caustic_color: t.water_caustic_color.to_hex(),
            water_deep: t.water_deep.to_hex(),
            water_shallow: t.water_shallow.to_hex(),
        }
    }
}
/// The editor's text fields: both palettes, the shared keys, and which variant is
/// being edited.
pub struct Draft {
    pub night: Palette,
    pub day: Palette,
    pub font: String,
    pub corner_radius: String,
    pub card_width: String,
    pub day_start: String,
    pub day_end: String,
    pub clock_format: String,
    pub scene: SceneColors,
    pub editing_day: bool,
}

/// The editor's text fields as plain values.
pub struct DraftView {
    pub night: PaletteView,
    pub day: PaletteView,
    pub font: Seq<char>,
    pub corner_radius: Seq<char>,
    pub card_width: Seq<char>,
    pub day_start: Seq<char>,
    pub day_end: Seq<char>,
    pub clock_format: Seq<char>,
    pub scene: SceneColorsView,
    pub editing_day: bool,
}

impl View for Draft {
    type V = DraftView;

    open spec fn view(&self) -> DraftView {
        DraftView {
            night: self.night@,
            day: self.day@,
            font: self.font@,
            corner_radius: self.corner_radius@,
            card_width: self.card_width@,
            day_start: self.day_start@,
            day_end: self.day_end@,
            clock_format: self.clock_format@,
            scene: self.scene@,
            editing_day: self.editing_day,
        }
    }
}

/// The palette being edited.
pub open spec fn active(d: DraftView) -> PaletteView {
    if d.editing_day {
        d.day
    } else {
        d.night
    }
}

/// The editor with one field set: a palette field in the variant being edited, a
/// shared field for both.
pub open spec fn draft_set(d: DraftView, param: Param, v: Seq<char>) -> DraftView {
    match param {
        Param::Font => DraftView { font: v, ..d },
        Param::CornerRadius => DraftView { corner_radius: v, ..d },
        Param::CardWidth => DraftView { card_width: v, ..d },
        Param::DayStart => DraftView { day_start: v, ..d },
        Param::DayEnd => DraftView { day_end: v, ..d },
        _ => if d.editing_day {
            DraftView { day: palette_set(d.day, param, v), ..d }
        } else {
            DraftView { night: palette_set(d.night, param, v), ..d }
        },
    }
}

impl Draft {
    /// The palette of the variant being edited.
    pub fn active(&self) -> (p: &Palette)
        ensures
            p@ == active(self@),
    {
        if self.editing_day {
            &self.day
        } else {
            &self.night
        }
    }

    /// Set a field: a palette field in the variant being edited, a shared field for
    /// both.
    pub fn set(&mut self, param: Param, value: String)
        ensures
            final(self)@ == draft_set(old(self)@, param, value@),
    {
        match param {
            Param::Font => self.font = value,
            Param::CornerRadius => self.corner_radius = value,
            Param::CardWidth => self.card_width = value,
            Param::DayStart => self.day_start = value,
            Param::DayEnd => self.day_end = value,
            _ => {
                if self.editing_day {
                    self.day.put(param, value);
                } else {
                    self.night.put(param, value);
                }
            },
        }
    }

    /// The current hex text of a color field in the variant being edited — what
    /// [`set`](Self::set) wrote; empty for a field that is not a color.
    pub fn color_hex(&self, param: Param) -> (s: &str)
        ensures
            s@ == palette_hex(active(self@), param),
    {
        if self.editing_day {
            self.day.hex(param)
        } else {
            self.night.hex(param)
        }
    }
}

/// A color field reads back what was last written to it, in the variant being
/// edited; a field that is not a color reads as empty.
pub proof fn lemma_color_reads_back(d: DraftView, p: Param, v: Seq<char>)
    ensures
        is_color_param(p) ==> palette_hex(active(draft_set(d, p, v)), p) == v,
        !is_color_param(p) ==> palette_hex(active(d), p) == Seq::<char>::empty(),
{
}

/// Setting a field changes nothing else: the other variant's palette is untouched,
/// every other color reads as before, and the variant being edited stays the same.
pub proof fn lemma_set_changes_one_field(d: DraftView, p: Param, q: Param, v: Seq<char>)
    requires
        p != q,
    ensures
        ({
            let e = draft_set(d, p, v);
            &&& e.editing_day == d.editing_day
            &&& d.editing_day ==> e.night == d.night
            &&& !d.editing_day ==> e.day == d.day
            &&& palette_hex(active(e), q) == palette_hex(active(d), q)
            &&& !is_shared_param(p) ==> (e.font == d.font && e.day_start == d.day_start
                && e.day_end == d.day_end)
        }),
{
}

/// A palette taken from a theme reads back as that theme's colors.
pub proof fn lemma_palette_reads_back(t: Theme)
    ensures
        ({
            let p = palette_of(t);
            &&& parse_color(p.background) == Some(t.background)
            &&& parse_color(p.card) == Some(t.card)
            &&& parse_color(p.field) == Some(t.field)
            &&& parse_color(p.accent) == Some(t.accent)
            &&& parse_color(p.foreground) == Some(t.foreground)
            &&& parse_color(p.muted) == Some(t.muted)
            &&& parse_color(p.comet) == Some(t.spinner_comet)
            &&& parse_color(p.track) == Some(t.spinner_track)
            &&& parse_color(p.comet_color) == Some(t.comet_color)
            &&& parse_color(p.glow_color) == Some(t.glow_color)
            &&& parse_color(p.error_color) == Some(t.error_color)
            &&& parse_color(p.logo_box) == Some(t.logo_box)
        }),
{
    lemma_hex_round_trip(t.background);
    lemma_hex_round_trip(t.card);
    lemma_hex_round_trip(t.field);
    lemma_hex_round_trip(t.accent);
    lemma_hex_round_trip(t.foreground);
    lemma_hex_round_trip(t.muted);
    lemma_hex_round_trip(t.spinner_comet);
    lemma_hex_round_trip(t.spinner_track);
    lemma_hex_round_trip(t.comet_color);
    lemma_hex_round_trip(t.glow_color);
    lemma_hex_round_trip(t.error_color);
    lemma_hex_round_trip(t.logo_box);
}

/// A slug: ASCII letters, digits and `-`, with no `-` at either end and none doubled.
pub open spec fn is_slug(s: Seq<char>) -> bool {
    &&& forall|i: int| 0 <= i < s.len() ==> is_ascii_alnum(#[trigger] s[i]) || s[i] == '-'
    &&& s.len() > 0 ==> s[0] != '-' && s.last() != '-'
    &&& forall|i: int| 0 <= i < s.len() - 1 ==> !(#[trigger] s[i] == '-' && s[i + 1] == '-')
}

/// Every character of a word is an ASCII letter or digit.
pub open spec fn is_word(w: Seq<char>) -> bool {
    forall|k: int| 0 <= k < w.len() ==> is_ascii_alnum(#[trigger] w[k])
}

/// Splitting letters, digits and dashes on `-` gives words of letters and digits.
proof fn lemma_runs_are_words(s: Seq<char>, cur: Seq<char>)
    requires
        is_word(cur),
        forall|k: int| 0 <= k < s.len() ==> is_ascii_alnum(#[trigger] s[k]) || s[k] == '-',
    ensures
        forall|i: int| 0 <= i < runs_from(s, cur, true).len() ==> is_word(
            #[trigger] runs_from(s, cur, true)[i],
        ),
    decreases s.len(),
{
    let r = runs_from(s, cur, true);
    if s.len() == 0 {
        if cur.len() > 0 {
            assert(r =~= seq![cur]);
        }
    } else {
        let t = s.drop_first();
        assert forall|k: int| 0 <= k < t.len() implies is_ascii_alnum(#[trigger] t[k]) || t[k]
            == '-' by {
            assert(t[k] == s[k + 1]);
        }
        if s[0] == '-' {
            lemma_runs_are_words(t, Seq::empty());
            let rest = runs_from(t, Seq::empty(), true);
            if cur.len() > 0 {
                assert(r =~= seq![cur] + rest);
                assert forall|i: int| 0 <= i < r.len() implies is_word(#[trigger] r[i]) by {
                    if i > 0 {
                        assert(r[i] == rest[i - 1]);
                    } else {
                        assert(r[i] == cur);
                    }
                }
            } else {
                assert(r =~= rest);
            }
        } else {
            let c2 = cur.push(s[0]);
            assert(is_ascii_alnum(s[0]));
            assert forall|k: int| 0 <= k < c2.len() implies is_ascii_alnum(#[trigger] c2[k]) by {
                if k < cur.len() {
                    assert(c2[k] == cur[k]);
                }
            }
            lemma_runs_are_words(t, c2);
            assert(r == runs_from(t, c2, true));
        }
    }
}

/// Non-empty words of letters and digits joined by `-` make a slug.
proof fn lemma_joined_words_are_a_slug(ws: Seq<Seq<char>>)
    requires
        forall|i: int| 0 <= i < ws.len() ==> is_word(#[trigger] ws[i]) && ws[i].len() > 0,
    ensures
        is_slug(joined(ws, '-')),
        ws.len() > 0 ==> joined(ws, '-').len() > 0,
    decreases ws.len(),
{
    let j = joined(ws, '-');
    if ws.len() == 0 {
    } else if ws.len() == 1 {
        let w = ws[0];
        assert(j == w);
        assert forall|i: int| 0 <= i < j.len() implies is_ascii_alnum(#[trigger] j[i]) || j[i]
            == '-' by {}
        assert(is_ascii_alnum(w[0]) && is_ascii_alnum(w[w.len() - 1]));
        assert forall|i: int| 0 <= i < j.len() - 1 implies !(#[trigger] j[i] == '-' && j[i + 1]
            == '-') by {}
    } else {
        let init = ws.drop_last();
        let last = ws.last();
        assert forall|i: int| 0 <= i < init.len() implies is_word(#[trigger] init[i])
            && init[i].len() > 0 by {
            assert(init[i] == ws[i]);
        }
        lemma_joined_words_are_a_slug(init);
        let p = joined(init, '-');
        assert(j == p.push('-') + last);
        assert(is_word(ws[ws.len() - 1]));
        let n = p.len();
        assert forall|i: int| 0 <= i < j.len() implies is_ascii_alnum(#[trigger] j[i]) || j[i]
            == '-' by {
            if i < n {
                assert(j[i] == p[i]);
            } else if i > n {
                assert(j[i] == last[i - n - 1]);
            }
        }
        assert(j[0] == p[0]);
        assert(j.last() == last[last.len() - 1]);
        assert(is_ascii_alnum(last[last.len() - 1]));
        assert forall|i: int| 0 <= i < j.len() - 1 implies !(#[trigger] j[i] == '-' && j[i + 1]
            == '-') by {
            if i < n - 1 {
                assert(j[i] == p[i] && j[i + 1] == p[i + 1]);
            } else if i == n - 1 {
                assert(j[i] == p.last());
            } else if i == n {
                assert(j[i + 1] == last[0]);
                assert(is_ascii_alnum(last[0]));
            } else {
                assert(j[i] == last[i - n - 1]);
                assert(is_ascii_alnum(last[i - n - 1]));
            }
        }
    }
}

/// Whatever name it is given, the slug is made of ASCII letters, digits and single
/// inner dashes: no `-` at either end and none doubled.
pub proof fn lemma_slug_is_safe(lowered: Seq<char>)
    ensures
        is_slug(slug_of(lowered)),
{
    let m = lowered.map_values(|c: char| slug_char(c));
    assert forall|k: int| 0 <= k < m.len() implies is_ascii_alnum(#[trigger] m[k]) || m[k]
        == '-' by {}
    lemma_runs_are_words(m, Seq::empty());
    lemma_runs_nonempty(m, Seq::empty(), true);
    let ws = runs(m, true);
    assert forall|i: int| 0 <= i < ws.len() implies is_word(#[trigger] ws[i]) && ws[i].len()
        > 0 by {}
    lemma_joined_words_are_a_slug(ws);
}

/// Whatever name it is given, `slugify` gives a slug.
pub proof fn lemma_slugify_is_safe(name: Seq<char>)
    ensures
        is_slug(slugified(name)),
{
    lemma_slug_is_safe(lowercase_of(trim(name)));
}

/// Joining a leading word onto a non-empty list puts a separator after it.
proof fn lemma_joined_cons(w: Seq<char>, ws: Seq<Seq<char>>, sep: char)
    requires
        ws.len() > 0,
    ensures
        joined(seq![w] + ws, sep) == w.push(sep) + joined(ws, sep),
    decreases ws.len(),
{
    let all = seq![w] + ws;
    if ws.len() == 1 {
        assert(all.drop_last() =~= seq![w]);
        assert(all.last() == ws[0]);
        assert(joined(seq![w], sep) == w);
        assert(joined(ws, sep) == ws[0]);
        assert(joined(all, sep) =~= w.push(sep) + ws[0]);
    } else {
        lemma_joined_cons(w, ws.drop_last(), sep);
        assert(all.drop_last() =~= seq![w] + ws.drop_last());
        assert(all.last() == ws.last());
        assert(joined(all, sep) =~= w.push(sep) + joined(ws, sep));
    }
}

/// Splitting the rest of a slug on `-`, with the word in progress `cur`, and
/// joining the words back gives `cur` and the rest.
proof fn lemma_runs_rejoin(s: Seq<char>, cur: Seq<char>)
    requires
        is_slug(cur + s),
        is_word(cur),
        cur.len() == 0 ==> (s.len() == 0 || s[0] != '-'),
    ensures
        joined(runs_from(s, cur, true), '-') == cur + s,
        (cur + s).len() > 0 ==> runs_from(s, cur, true).len() > 0,
    decreases s.len(),
{
    let all = cur + s;
    if s.len() == 0 {
        assert(all =~= cur);
        if cur.len() > 0 {
            assert(runs_from(s, cur, true) =~= seq![cur]);
        }
    } else {
        let t = s.drop_first();
        if s[0] == '-' {
            assert(cur.len() > 0);
            let k = cur.len() as int;
            assert(all[k] == '-');
            assert(t.len() > 0) by {
                if t.len() == 0 {
                    assert(all.last() == '-');
                }
            }
            assert(t[0] != '-') by {
                assert(all[k + 1] == t[0]);
                assert(!(all[k] == '-' && all[k + 1] == '-'));
            }
            assert(Seq::<char>::empty() + t =~= t);
            assert forall|i: int| 0 <= i < t.len() implies is_ascii_alnum(#[trigger] t[i]) || t[i]
                == '-' by {
                assert(all[k + 1 + i] == t[i]);
            }
            assert forall|i: int| 0 <= i < t.len() - 1 implies !(#[trigger] t[i] == '-' && t[i + 1]
                == '-') by {
                assert(all[k + 1 + i] == t[i]);
                assert(all[k + 2 + i] == t[i + 1]);
            }
            assert(t.last() == all.last());
            lemma_runs_rejoin(t, Seq::empty());
            let rest = runs_from(t, Seq::empty(), true);
            assert(runs_from(s, cur, true) == seq![cur] + rest);
            lemma_joined_cons(cur, rest, '-');
            assert(cur.push('-') + t =~= all);
        } else {
            let c2 = cur.push(s[0]);
            assert(all[cur.len() as int] == s[0]);
            assert(c2 + t =~= all);
            assert(is_ascii_alnum(s[0]));
            assert forall|i: int| 0 <= i < c2.len() implies is_ascii_alnum(#[trigger] c2[i]) by {
                if i < cur.len() {
                    assert(c2[i] == cur[i]);
                }
            }
            lemma_runs_rejoin(t, c2);
        }
    }
}

/// A slug is its own slug, so slugging twice is slugging once.
pub proof fn lemma_slug_of_slug(lowered: Seq<char>)
    ensures
        slug_of(slug_of(lowered)) == slug_of(lowered),
{
    let s = slug_of(lowered);
    lemma_slug_is_safe(lowered);
    let m = s.map_values(|c: char| slug_char(c));
    assert(m =~= s);
    assert(Seq::<char>::empty() + s =~= s);
    lemma_runs_rejoin(s, Seq::empty());
}

/// Mapping the characters of joined words maps each word and the separator.
proof fn lemma_joined_map(ws: Seq<Seq<char>>, sep: char, f: spec_fn(char) -> char)
    ensures
        joined(ws, sep).map_values(f) == joined(
            ws.map_values(|w: Seq<char>| w.map_values(f)),
            f(sep),
        ),
    decreases ws.len(),
{
    let g = |w: Seq<char>| w.map_values(f);
    let ms = ws.map_values(g);
    if ws.len() == 0 {
        assert(joined(ws, sep).map_values(f) =~= Seq::<char>::empty());
    } else if ws.len() == 1 {
        assert(ms[0] == ws[0].map_values(f));
    } else {
        let init = ws.drop_last();
        lemma_joined_map(init, sep, f);
        assert(init.map_values(g) =~= ms.drop_last());
        assert(ms.last() == ws.last().map_values(f));
        assert((joined(init, sep).push(sep) + ws.last()).map_values(f) =~= joined(init, sep).map_values(
            f,
        ).push(f(sep)) + ws.last().map_values(f));
    }
}

/// Joining keeps a property of characters that the words and the separator have.
proof fn lemma_joined_keep(ws: Seq<Seq<char>>, sep: char, prop: spec_fn(char) -> bool)
    requires
        prop(sep),
        forall|i: int, k: int| 0 <= i < ws.len() && 0 <= k < ws[i].len() ==> prop(#[trigger] ws[i][k]),
    ensures
        forall|k: int| 0 <= k < joined(ws, sep).len() ==> prop(#[trigger] joined(ws, sep)[k]),
    decreases ws.len(),
{
    if ws.len() == 1 {
        assert forall|k: int| 0 <= k < joined(ws, sep).len() implies prop(
            #[trigger] joined(ws, sep)[k],
        ) by {
            assert(joined(ws, sep)[k] == ws[0][k]);
        }
    } else if ws.len() > 1 {
        let init = ws.drop_last();
        assert forall|i: int, k: int| 0 <= i < init.len() && 0 <= k < init[i].len() implies prop(
            #[trigger] init[i][k],
        ) by {
            assert(init[i] == ws[i]);
        }
        lemma_joined_keep(init, sep, prop);
        let p = joined(init, sep);
        let last = ws.last();
        assert(joined(ws, sep) == p.push(sep) + last);
        assert forall|k: int| 0 <= k < joined(ws, sep).len() implies prop(
            #[trigger] joined(ws, sep)[k],
        ) by {
            if k < p.len() {
                assert(joined(ws, sep)[k] == p[k]);
            } else if k > p.len() {
                assert(joined(ws, sep)[k] == ws[ws.len() - 1][k - p.len() - 1]);
            }
        }
    }
}

/// A digit or an ASCII lowercase letter.
pub open spec fn is_lower_alnum(c: char) -> bool {
    ('0' <= c && c <= '9') || ('a' <= c && c <= 'z')
}

/// No ASCII capital letters.
pub open spec fn no_capitals(s: Seq<char>) -> bool {
    forall|i: int| 0 <= i < s.len() ==> !('A' <= #[trigger] s[i] && s[i] <= 'Z')
}

/// Splitting on separators in text without `_` treats `_` as an ordinary
/// character or a separator alike.
proof fn lemma_runs_without_underscore(s: Seq<char>, cur: Seq<char>)
    requires
        forall|k: int| 0 <= k < s.len() ==> #[trigger] s[k] != '_',
    ensures
        runs_from(s, cur, false) == runs_from(s, cur, true),
    decreases s.len(),
{
    if s.len() > 0 {
        let t = s.drop_first();
        assert forall|k: int| 0 <= k < t.len() implies #[trigger] t[k] != '_' by {
            assert(t[k] == s[k + 1]);
        }
        lemma_runs_without_underscore(t, Seq::empty());
        lemma_runs_without_underscore(t, cur.push(s[0]));
    }
}

/// A slug has no surrounding whitespace.
proof fn lemma_slug_is_trimmed(s: Seq<char>)
    requires
        is_slug(s),
    ensures
        trim(s) == s,
{
    if s.len() > 0 {
        assert(is_ascii_alnum(s[0]));
        assert(is_ascii_alnum(s.last()));
        assert(trim_start(s) == s);
        assert(trim_end(s) == s);
    }
}

/// Lower-casing text without capitals leaves it as it is.
proof fn lemma_lowered_without_capitals(s: Seq<char>)
    requires
        no_capitals(s),
    ensures
        ascii_lowered(s) == s,
{
    assert(ascii_lowered(s) =~= s);
}

/// Slugging text without capitals gives a slug without capitals.
proof fn lemma_slug_keeps_lowercase(x: Seq<char>)
    requires
        no_capitals(x),
    ensures
        no_capitals(slug_of(x)),
{
    let prop = |c: char| !('A' <= c && c <= 'Z');
    let m = x.map_values(|c: char| slug_char(c));
    assert forall|k: int| 0 <= k < m.len() implies prop(#[trigger] m[k]) || is_separator(
        m[k],
        true,
    ) by {}
    lemma_runs_keep(m, Seq::empty(), true, prop);
    let ws = runs(m, true);
    lemma_joined_keep(ws, '-', prop);
    assert forall|k: int| 0 <= k < slug_of(x).len() implies !('A' <= #[trigger] slug_of(x)[k]
        && slug_of(x)[k] <= 'Z') by {
        assert(prop(joined(ws, '-')[k]));
    }
}

/// For ASCII names, slugging a slug gives the same slug: `slugify` is idempotent.
pub proof fn lemma_slugify_is_idempotent(name: Seq<char>)
    requires
        all_ascii(name),
    ensures
        all_ascii(ascii_slug(name)),
        ascii_slug(ascii_slug(name)) == ascii_slug(name),
{
    let x = ascii_lowered(trim(name));
    assert(no_capitals(x));
    let s = slug_of(x);
    lemma_slug_is_safe(x);
    lemma_slug_keeps_lowercase(x);
    lemma_slug_is_trimmed(s);
    lemma_lowered_without_capitals(s);
    lemma_slug_of_slug(x);
    assert forall|i: int| 0 <= i < s.len() implies is_ascii_char(#[trigger] s[i]) by {}
}

/// A stem of lowercase words joined by single `-`, made a display name by
/// `prettify` and slugged again by `slugify`, comes back as it was.
pub proof fn lemma_prettified_stem_slugs_back(stem: Seq<char>)
    requires
        is_slug(stem),
        no_capitals(stem),
    ensures
        all_ascii(stem),
        all_ascii(prettified_ascii(stem)),
        ascii_slug(prettified_ascii(stem)) == stem,
{
    assert forall|i: int| 0 <= i < stem.len() implies is_ascii_char(#[trigger] stem[i]) by {}
    assert forall|k: int| 0 <= k < stem.len() implies #[trigger] stem[k] != '_' by {}
    lemma_runs_without_underscore(stem, Seq::empty());
    let ws = runs(stem, true);
    assert(runs(stem, false) == ws);
    assert(Seq::<char>::empty() + stem =~= stem);
    lemma_runs_rejoin(stem, Seq::empty());
    lemma_runs_nonempty(stem, Seq::empty(), true);
    let lower = |c: char| is_lower_alnum(c);
    let low = |c: char| ascii_lower(c);
    let sl = |c: char| slug_char(c);
    assert forall|k: int| 0 <= k < stem.len() implies lower(#[trigger] stem[k]) || is_separator(
        stem[k],
        true,
    ) by {}
    lemma_runs_keep(stem, Seq::empty(), true, lower);
    // the display name: each word capitalised, joined by spaces
    let ts = ws.map_values(|w: Seq<char>| title_ascii(w));
    let p = joined(ts, ' ');
    assert(p == prettified_ascii(stem));
    // lower-casing it gives the words joined by spaces
    lemma_joined_map(ts, ' ', low);
    assert(ts.map_values(|w: Seq<char>| w.map_values(low)) =~= ws) by {
        assert forall|i: int| 0 <= i < ws.len() implies #[trigger] ts[i].map_values(
            low,
        ) == ws[i] by {
            let w = ws[i];
            assert(w.len() > 0);
            assert(lower(w[0]));
            assert(ts[i].map_values(low) =~= w) by {
                assert forall|k: int| 0 <= k < w.len() implies lower(#[trigger] w[k]) by {}
            }
        }
    }
    assert(p.map_values(low) == joined(ws, ' '));
    // the display name is ASCII and has no surrounding whitespace
    let ascii = |c: char| is_ascii_char(c) && (c == ' ' || is_ascii_alnum(c));
    assert forall|i: int, k: int| 0 <= i < ts.len() && 0 <= k < ts[i].len() implies ascii(
        #[trigger] ts[i][k],
    ) by {
        assert(lower(ws[i][0]));
        if k > 0 {
            assert(ts[i][k] == ws[i][k]);
            assert(lower(ws[i][k]));
        }
    }
    lemma_joined_keep(ts, ' ', ascii);
    assert forall|k: int| 0 <= k < p.len() implies is_ascii_char(#[trigger] p[k]) by {
        assert(ascii(p[k]));
    }
    if ws.len() > 0 {
        assert(p.len() > 0) by {
            assert(ts[0].len() > 0);
            if ws.len() > 1 {
                assert(joined(ts, ' ') == joined(ts.drop_last(), ' ').push(' ') + ts.last());
            }
        }
        assert(ascii(p[0]) && p[0] != ' ') by {
            lemma_joined_first(ts, ' ');
            assert(ascii(ts[0][0]));
            assert(ts[0][0] == ascii_upper(ws[0][0]));
        }
        assert(ascii(p.last()) && p.last() != ' ') by {
            lemma_joined_last(ts, ' ');
            let w = ws[ws.len() - 1];
            let t = ts[ts.len() - 1];
            assert(lower(w[w.len() - 1]));
            assert(t.last() == if w.len() == 1 { ascii_upper(w[0]) } else { w[w.len() - 1] });
        }
        assert(trim_start(p) == p);
        assert(trim_end(p) == p);
    } else {
        assert(p =~= Seq::<char>::empty());
    }
    assert(trim(p) == p);
    // slugging the spaced words turns the spaces back into dashes
    lemma_joined_map(ws, ' ', sl);
    assert(ws.map_values(|w: Seq<char>| w.map_values(sl)) =~= ws) by {
        assert forall|i: int| 0 <= i < ws.len() implies #[trigger] ws[i].map_values(
            sl,
        ) == ws[i] by {
            let w = ws[i];
            assert(w.map_values(sl) =~= w) by {
                assert forall|k: int| 0 <= k < w.len() implies lower(#[trigger] w[k]) by {}
            }
        }
    }
    assert(joined(ws, ' ').map_values(sl) == stem);
}

/// The first character of joined non-empty words is the first word's first.
proof fn lemma_joined_first(ws: Seq<Seq<char>>, sep: char)
    requires
        ws.len() > 0,
        ws[0].len() > 0,
    ensures
        joined(ws, sep).len() > 0,
        joined(ws, sep)[0] == ws[0][0],
    decreases ws.len(),
{
    if ws.len() > 1 {
        lemma_joined_first(ws.drop_last(), sep);
        let p = joined(ws.drop_last(), sep);
        assert(joined(ws, sep) == p.push(sep) + ws.last());
        assert(joined(ws, sep)[0] == p[0]);
    }
}

/// The last character of joined words, the last being non-empty, is its last.
proof fn lemma_joined_last(ws: Seq<Seq<char>>, sep: char)
    requires
        ws.len() > 0,
        ws.last().len() > 0,
    ensures
        joined(ws, sep).len() > 0,
        joined(ws, sep).last() == ws.last().last(),
{
    if ws.len() > 1 {
        let p = joined(ws.drop_last(), sep);
        assert(joined(ws, sep) == p.push(sep) + ws.last());
    }
}

} // verus!
