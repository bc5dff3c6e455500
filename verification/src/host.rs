//! Local host reads shared by the auth surfaces (the greeter and the lock
//! screen): the pre-auth asset vetting, the keyboard-layout, Caps Lock and
//! battery indicators, and the wall-clock texts. The reads themselves (files
//! under `/sys` and `/etc`, the environment, the C library's clock, the image
//! header probe) are done by the caller; this module decides what they mean.
use vstd::prelude::*;

use crate::text::{
    chars_of, contains, decimal_text, decimal_text2, decimal_value, ends_with, has_infix, has_prefix, has_suffix,
    literal, parse_unsigned, pieces, push_decimal, push_decimal2, push_signed, push_signed2, push_str,
    same_chars, signed_text, signed_text2, slice_chars, split_on, starts_with, string_of,
    strip_both, strip_char, trim, trimmed, views,
};

verus! {

// ---------------------------------------------------------------------------
// Paths

/// A path component worth keeping: not empty (a doubled or trailing `/`) and not `.`.
pub open spec fn kept(p: Seq<char>) -> bool {
    p.len() > 0 && p != seq!['.']
}

/// The kept components among `ps`, in order.
pub open spec fn kept_pieces(ps: Seq<Seq<char>>) -> Seq<Seq<char>>
    decreases ps.len(),
{
    if ps.len() == 0 {
        Seq::empty()
    } else if kept(ps[0]) {
        seq![ps[0]] + kept_pieces(ps.drop_first())
    } else {
        kept_pieces(ps.drop_first())
    }
}

/// The named components of a path (`Path::components` without the root, `.`
/// entries and empty parts).
pub open spec fn path_segments(s: Seq<char>) -> Seq<Seq<char>> {
    kept_pieces(pieces(s, '/'))
}

/// ASCII lowercase of one character.
pub open spec fn lower(c: char) -> char {
    if 'A' <= c && c <= 'Z' {
        ((c as u32) + 32) as char
    } else {
        c
    }
}

/// A file name whose extension is `svg` in any ASCII case: something before the
/// last dot (a leading dot alone starts a hidden name, not an extension).
pub open spec fn is_svg_name(n: Seq<char>) -> bool {
    n.len() > 4 && n[n.len() - 4] == '.' && lower(n[n.len() - 3]) == 's' && lower(n[n.len() - 2])
        == 'v' && lower(n[n.len() - 1]) == 'g'
}

/// Whether a path names an SVG file.
pub open spec fn path_is_svg(s: Seq<char>) -> bool {
    let segs = path_segments(s);
    segs.len() > 0 && is_svg_name(segs.last())
}

/// Whether an absolute path lies under the root whose components are `root`.
pub open spec fn path_under(s: Seq<char>, root: Seq<Seq<char>>) -> bool {
    s.len() > 0 && s[0] == '/' && root.len() <= path_segments(s).len() && path_segments(s).take(
        root.len() as int,
    ) == root
}

/// The root-owned trees assets may come from: `/usr/share/door` and `/etc/door`.
pub open spec fn in_asset_roots(s: Seq<char>) -> bool {
    path_under(s, seq![seq!['u', 's', 'r'], seq!['s', 'h', 'a', 'r', 'e'], seq!['d', 'o', 'o', 'r']])
        || path_under(s, seq![seq!['e', 't', 'c'], seq!['d', 'o', 'o', 'r']])
}

fn keep_components(ps: Vec<Vec<char>>) -> (r: Vec<Vec<char>>)
    ensures
        views(r@) == kept_pieces(views(ps@)),
{
    let mut out: Vec<Vec<char>> = Vec::new();
    let mut i: usize = 0;
    let n = ps.len();
    let ghost all = views(ps@);
    proof {
        assert(all.skip(0) =~= all);
        assert(views(out@) + kept_pieces(all) =~= kept_pieces(all));
    }
    while i < n
        invariant
            n == ps.len(),
            i <= n,
            all == views(ps@),
            views(out@) + kept_pieces(all.skip(i as int)) == kept_pieces(all),
        decreases n - i,
    {
        let p = &ps[i];
        let keep = p.len() > 0 && !(p.len() == 1 && p[0] == '.');
        proof {
            assert(all.skip(i as int).drop_first() =~= all.skip(i + 1));
            assert(all.skip(i as int)[0] == p@);
            if p@.len() == 1 && p@[0] == '.' {
                assert(p@ =~= seq!['.']);
            }
            assert(keep == kept(p@));
        }
        if keep {
            out.push(p.clone());
            proof {
                assert(views(out@) =~= views(out@.drop_last()) + seq![p@]);
            }
        }
        i += 1;
    }
    proof {
        assert(all.skip(n as int) =~= Seq::<Seq<char>>::empty());
    }
    out
}

fn segments_of(v: &Vec<char>) -> (r: Vec<Vec<char>>)
    ensures
        views(r@) == path_segments(v@),
{
    keep_components(split_on(v, '/'))
}

fn lower_char(c: char) -> (r: char)
    ensures
        r == lower(c),
{
    if 'A' <= c && c <= 'Z' {
        ((c as u8) + 32) as char
    } else {
        c
    }
}

/// Whether a logo path is an SVG (case-insensitive `.svg`) — chooses the vector
/// renderer over the raster one.
pub fn is_svg(path: &str) -> (b: bool)
    ensures
        b == path_is_svg(path@),
{
    let segs = segments_of(&chars_of(path));
    if segs.len() == 0 {
        return false;
    }
    let n = &segs[segs.len() - 1];
    proof {
        assert(views(segs@).last() == n@);
    }
    let k = n.len();
    k > 4 && n[k - 4] == '.' && lower_char(n[k - 3]) == 's' && lower_char(n[k - 2]) == 'v'
        && lower_char(n[k - 1]) == 'g'
}

fn under_root(segs: &Vec<Vec<char>>, root: &Vec<Vec<char>>) -> (b: bool)
    ensures
        b == (root@.len() <= segs@.len() && views(segs@).take(root@.len() as int) == views(root@)),
{
    if root.len() > segs.len() {
        return false;
    }
    let mut i: usize = 0;
    while i < root.len()
        invariant
            root.len() <= segs.len(),
            i <= root.len(),
            forall|k: int| 0 <= k < i ==> segs@[k]@ == root@[k]@,
        decreases root.len() - i,
    {
        let a = &segs[i];
        let b = &root[i];
        let same = a.len() == b.len() && starts_with(a, b);
        if !same {
            proof {
                assert(views(segs@).take(root@.len() as int)[i as int] != views(root@)[i as int]) by {
                    if a@ == b@ {
                        assert(a@.take(b@.len() as int) =~= a@);
                    }
                }
            }
            return false;
        }
        proof {
            assert(a@.take(b@.len() as int) =~= a@);
        }
        i += 1;
    }
    proof {
        assert(views(segs@).take(root@.len() as int) =~= views(root@));
    }
    true
}

/// Whether a canonical asset path lies inside the root-owned trees assets may be
/// loaded from (`/usr/share/door`, `/etc/door`), compared by path component.
pub fn in_trusted_roots(canonical: &str) -> (b: bool)
    ensures
        b == in_asset_roots(canonical@),
{
    let v = chars_of(canonical);
    if v.len() == 0 || v[0] != '/' {
        return false;
    }
    let segs = segments_of(&v);
    let u1 = literal("usr");
    let u2 = literal("share");
    let u3 = literal("door");
    let e1 = literal("etc");
    let e2 = literal("door");
    proof {
        reveal_strlit("usr");
        reveal_strlit("share");
        reveal_strlit("door");
        reveal_strlit("etc");
        assert(u1@ =~= seq!['u', 's', 'r']);
        assert(u2@ =~= seq!['s', 'h', 'a', 'r', 'e']);
        assert(u3@ =~= seq!['d', 'o', 'o', 'r']);
        assert(e1@ =~= seq!['e', 't', 'c']);
        assert(e2@ =~= seq!['d', 'o', 'o', 'r']);
    }
    let usr = vec![u1, u2, u3];
    let etc = vec![e1, e2];
    proof {
        assert(views(usr@) =~= seq![
            seq!['u', 's', 'r'],
            seq!['s', 'h', 'a', 'r', 'e'],
            seq!['d', 'o', 'o', 'r'],
        ]);
        assert(views(etc@) =~= seq![seq!['e', 't', 'c'], seq!['d', 'o', 'o', 'r']]);
    }
    under_root(&segs, &usr) || under_root(&segs, &etc)
}

/// What to do next with a configured asset once its path has been resolved.
#[derive(Debug, Clone, Copy, PartialEq, Eq, Structural)]
pub enum AssetStep {
    /// Load it as it is (a trusted vector image: it has no raster size to check).
    Accept,
    /// Probe the raster header and check the size cap before loading.
    Probe,
    /// Outside the trusted roots: refuse it.
    Refuse,
}

/// The largest raster side an asset may have, in pixels.
pub const MAX_ASSET_DIM: u32 = 8192;
/// The largest raster area an asset may have, in pixels.
pub const MAX_ASSET_PIXELS: u64 = 40_000_000;

/// The first gate of asset vetting: the canonical path must resolve inside the
/// trusted roots, unless a developer config (`DOORD_GREETER_CONFIG`) is in use; an
/// SVG then needs nothing more, a raster image needs its size checked.
pub fn vet_location(canonical: &str, dev: bool) -> (step: AssetStep)
    ensures
        step == (if !dev && !in_asset_roots(canonical@) {
            AssetStep::Refuse
        } else if path_is_svg(canonical@) {
            AssetStep::Accept
        } else {
            AssetStep::Probe
        }),
{
    if !dev && !in_trusted_roots(canonical) {
        AssetStep::Refuse
    } else if is_svg(canonical) {
        AssetStep::Accept
    } else {
        AssetStep::Probe
    }
}

/// The second gate for a raster asset, given its probed header size (`None` when
/// it could not be decoded): a decompression-bomb guard on each side and the area.
pub fn vet_dimensions(dims: Option<(u32, u32)>) -> (ok: bool)
    ensures
        ok == (match dims {
            Some((w, h)) => w <= MAX_ASSET_DIM && h <= MAX_ASSET_DIM && (w as int) * (h as int)
                <= MAX_ASSET_PIXELS,
            None => false,
        }),
{
    match dims {
        Some((w, h)) => {
            if w > MAX_ASSET_DIM || h > MAX_ASSET_DIM {
                return false;
            }
            proof {
                assert((w as int) * (h as int) <= 8192 * 8192) by (nonlinear_arith)
                    requires
                        w <= 8192,
                        h <= 8192,
                ;
            }
            let area = (w as u64) * (h as u64);
            area <= MAX_ASSET_PIXELS
        },
        None => false,
    }
}

// ---------------------------------------------------------------------------
// Keyboard layout

/// The primary layout named by a value such as `"us,de"`: the value trimmed and
/// unquoted, its first comma-separated entry, trimmed; `None` when that is empty.
pub open spec fn primary_layout(v: Seq<char>) -> Option<Seq<char>> {
    let t = strip_both(trim(v), '"');
    let first = pieces(t, ',')[0];
    let r = trim(first);
    if r.len() > 0 {
        Some(r)
    } else {
        None
    }
}

pub open spec fn option_word() -> Seq<char> {
    seq!['O', 'p', 't', 'i', 'o', 'n']
}

pub open spec fn xkb_layout_word() -> Seq<char> {
    seq!['X', 'k', 'b', 'L', 'a', 'y', 'o', 'u', 't']
}

pub open spec fn vconsole_key() -> Seq<char> {
    seq!['X', 'K', 'B', 'L', 'A', 'Y', 'O', 'U', 'T', '=']
}

/// The layout an `xorg.conf` line sets: a trimmed `Option` line mentioning
/// `XkbLayout`, whose value is the last quoted token.
pub open spec fn xorg_line_layout(line: Seq<char>) -> Option<Seq<char>> {
    let l = trim(line);
    if has_prefix(l, option_word()) && has_infix(l, xkb_layout_word()) {
        let q = pieces(l, '"');
        if q.len() >= 2 {
            primary_layout(q[q.len() - 2])
        } else {
            None
        }
    } else {
        None
    }
}

/// The layout a `vconsole.conf` line sets: `XKBLAYOUT=` and a value.
pub open spec fn vconsole_line_layout(line: Seq<char>) -> Option<Seq<char>> {
    let l = trim(line);
    if has_prefix(l, vconsole_key()) {
        primary_layout(l.skip(10))
    } else {
        None
    }
}

/// The first line, in order, that names a layout under `f`.
pub open spec fn first_line_layout(
    lines: Seq<Seq<char>>,
    f: spec_fn(Seq<char>) -> Option<Seq<char>>,
) -> Option<Seq<char>>
    decreases lines.len(),
{
    if lines.len() == 0 {
        None
    } else {
        match f(lines[0]) {
            Some(l) => Some(l),
            None => first_line_layout(lines.drop_first(), f),
        }
    }
}

/// The configured layout from the three local sources in priority order: the
/// `XKB_DEFAULT_LAYOUT` environment value, the X11 keymap file, the console config.
pub open spec fn layout_from(
    env: Option<Seq<char>>,
    xorg: Option<Seq<char>>,
    vconsole: Option<Seq<char>>,
) -> Option<Seq<char>> {
    let from_env = match env {
        Some(e) => primary_layout(e),
        None => None,
    };
    let from_xorg = match xorg {
        Some(x) => first_line_layout(pieces(x, '\n'), |l: Seq<char>| xorg_line_layout(l)),
        None => None,
    };
    let from_vc = match vconsole {
        Some(v) => first_line_layout(pieces(v, '\n'), |l: Seq<char>| vconsole_line_layout(l)),
        None => None,
    };
    if from_env is Some {
        from_env
    } else if from_xorg is Some {
        from_xorg
    } else {
        from_vc
    }
}

fn primary_of(v: &Vec<char>) -> (r: Option<Vec<char>>)
    ensures
        match r {
            Some(x) => primary_layout(v@) == Some(x@),
            None => primary_layout(v@) is None,
        },
{
    let t = strip_char(&trimmed(v), '"');
    let parts = split_on(&t, ',');
    proof {
        assert(views(parts@)[0] == parts@[0]@);
    }
    let r = trimmed(&parts[0]);
    if r.len() > 0 {
        Some(r)
    } else {
        None
    }
}

fn xorg_line(line: &Vec<char>, opt: &Vec<char>, word: &Vec<char>) -> (r: Option<Vec<char>>)
    requires
        opt@ == option_word(),
        word@ == xkb_layout_word(),
    ensures
        match r {
            Some(x) => xorg_line_layout(line@) == Some(x@),
            None => xorg_line_layout(line@) is None,
        },
{
    let l = trimmed(line);
    if starts_with(&l, opt) && contains(&l, word) {
        let q = split_on(&l, '"');
        if q.len() >= 2 {
            proof {
                assert(views(q@)[q@.len() - 2] == q@[q@.len() - 2]@);
            }
            primary_of(&q[q.len() - 2])
        } else {
            None
        }
    } else {
        None
    }
}

fn vconsole_line(line: &Vec<char>, key: &Vec<char>) -> (r: Option<Vec<char>>)
    requires
        key@ == vconsole_key(),
    ensures
        match r {
            Some(x) => vconsole_line_layout(line@) == Some(x@),
            None => vconsole_line_layout(line@) is None,
        },
{
    let l = trimmed(line);
    if starts_with(&l, key) {
        let rest = slice_chars(&l, 10, l.len());
        proof {
            assert(rest@ =~= trim(line@).skip(10));
        }
        primary_of(&rest)
    } else {
        None
    }
}

fn xorg_layout(text: &str) -> (r: Option<Vec<char>>)
    ensures
        match r {
            Some(x) => first_line_layout(
                pieces(text@, '\n'),
                |l: Seq<char>| xorg_line_layout(l),
            ) == Some(x@),
            None => first_line_layout(pieces(text@, '\n'), |l: Seq<char>| xorg_line_layout(l))
                is None,
        },
{
    let opt = literal("Option");
    let word = literal("XkbLayout");
    proof {
        reveal_strlit("Option");
        reveal_strlit("XkbLayout");
        assert(opt@ =~= option_word());
        assert(word@ =~= xkb_layout_word());
    }
    let lines = split_on(&chars_of(text), '\n');
    let ghost f = |l: Seq<char>| xorg_line_layout(l);
    let ghost all = views(lines@);
    let mut i: usize = 0;
    proof {
        assert(all.skip(0) =~= all);
    }
    while i < lines.len()
        invariant
            i <= lines.len(),
            all == views(lines@),
            all == pieces(text@, '\n'),
            opt@ == option_word(),
            word@ == xkb_layout_word(),
            f == (|l: Seq<char>| xorg_line_layout(l)),
            first_line_layout(all, f) == first_line_layout(all.skip(i as int), f),
        decreases lines.len() - i,
    {
        let found = xorg_line(&lines[i], &opt, &word);
        proof {
            assert(all.skip(i as int)[0] == lines@[i as int]@);
            assert(all.skip(i as int).drop_first() =~= all.skip(i + 1));
        }
        if found.is_some() {
            return found;
        }
        i += 1;
    }
    proof {
        assert(all.skip(i as int) =~= Seq::<Seq<char>>::empty());
    }
    None
}

fn vconsole_layout(text: &str) -> (r: Option<Vec<char>>)
    ensures
        match r {
            Some(x) => first_line_layout(
                pieces(text@, '\n'),
                |l: Seq<char>| vconsole_line_layout(l),
            ) == Some(x@),
            None => first_line_layout(pieces(text@, '\n'), |l: Seq<char>| vconsole_line_layout(l))
                is None,
        },
{
    let key = literal("XKBLAYOUT=");
    proof {
        reveal_strlit("XKBLAYOUT=");
        assert(key@ =~= vconsole_key());
    }
    let lines = split_on(&chars_of(text), '\n');
    let ghost f = |l: Seq<char>| vconsole_line_layout(l);
    let ghost all = views(lines@);
    let mut i: usize = 0;
    proof {
        assert(all.skip(0) =~= all);
    }
    while i < lines.len()
        invariant
            i <= lines.len(),
            all == views(lines@),
            all == pieces(text@, '\n'),
            key@ == vconsole_key(),
            f == (|l: Seq<char>| vconsole_line_layout(l)),
            first_line_layout(all, f) == first_line_layout(all.skip(i as int), f),
        decreases lines.len() - i,
    {
        let found = vconsole_line(&lines[i], &key);
        proof {
            assert(all.skip(i as int)[0] == lines@[i as int]@);
            assert(all.skip(i as int).drop_first() =~= all.skip(i + 1));
        }
        if found.is_some() {
            return found;
        }
        i += 1;
    }
    proof {
        assert(all.skip(i as int) =~= Seq::<Seq<char>>::empty());
    }
    None
}

pub open spec fn opt_view(o: Option<&str>) -> Option<Seq<char>> {
    match o {
        Some(s) => Some(s@),
        None => None,
    }
}

/// The configured keyboard layout code (e.g. `us`, `de`) from the local sources,
/// in priority order: the `XKB_DEFAULT_LAYOUT` value (`env`), the localectl-managed
/// `/etc/X11/xorg.conf.d/00-keyboard.conf` text (`xorg`), then `/etc/vconsole.conf`
/// (`vconsole`); each `None` when unset or unreadable. Returns the primary (first)
/// layout of a comma-separated list.
pub fn kb_layout(env: Option<&str>, xorg: Option<&str>, vconsole: Option<&str>) -> (r: Option<
    String,
>)
    ensures
        match r {
            Some(l) => layout_from(opt_view(env), opt_view(xorg), opt_view(vconsole)) == Some(l@),
            None => layout_from(opt_view(env), opt_view(xorg), opt_view(vconsole)) is None,
        },
{
    if let Some(e) = env {
        if let Some(l) = primary_of(&chars_of(e)) {
            return Some(string_of(&l));
        }
    }
    if let Some(x) = xorg {
        if let Some(l) = xorg_layout(x) {
            return Some(string_of(&l));
        }
    }
    if let Some(v) = vconsole {
        if let Some(l) = vconsole_layout(v) {
            return Some(string_of(&l));
        }
    }
    None
}

// ---------------------------------------------------------------------------
// Battery

/// Battery charge for the optional indicator — a percent and whether it's charging.
#[derive(Debug, Clone, Copy, PartialEq, Eq, Structural)]
pub struct Battery {
    pub percent: u8,
    pub charging: bool,
}

/// The `type`, `capacity` and `status` files of one `/sys/class/power_supply`
/// entry, each `None` when it could not be read.
#[derive(Debug, Clone, PartialEq, Eq)]
pub struct PowerSupply {
    pub kind: Option<String>,
    pub capacity: Option<String>,
    pub status: Option<String>,
}

pub open spec fn battery_word() -> Seq<char> {
    seq!['B', 'a', 't', 't', 'e', 'r', 'y']
}

pub open spec fn charging_word() -> Seq<char> {
    seq!['C', 'h', 'a', 'r', 'g', 'i', 'n', 'g']
}

pub open spec fn full_word() -> Seq<char> {
    seq!['F', 'u', 'l', 'l']
}

/// What one supply reports: nothing unless its type reads `Battery` and its
/// capacity is a `u8`; the percent is capped at 100, and it is charging when its
/// status reads `Charging` or `Full`.
pub open spec fn supply_battery(p: PowerSupply) -> Option<Battery> {
    let is_battery = match p.kind {
        Some(k) => trim(k@) == battery_word(),
        None => false,
    };
    let charging = match p.status {
        Some(s) => trim(s@) == charging_word() || trim(s@) == full_word(),
        None => false,
    };
    if !is_battery {
        None
    } else {
        match p.capacity {
            Some(c) => match decimal_value(trim(c@)) {
                Some(v) => if v <= 255 {
                    Some(Battery { percent: if v < 100 { v as u8 } else { 100u8 }, charging })
                } else {
                    None
                },
                None => None,
            },
            None => None,
        }
    }
}

/// The first supply, in order, that reports a battery.
pub open spec fn first_battery(ps: Seq<PowerSupply>) -> Option<Battery>
    decreases ps.len(),
{
    if ps.len() == 0 {
        None
    } else {
        match supply_battery(ps[0]) {
            Some(b) => Some(b),
            None => first_battery(ps.drop_first()),
        }
    }
}

/// Whether a supply's type reads `Battery`.
pub open spec fn typed_battery(p: PowerSupply) -> bool {
    p.kind matches Some(k) && trim(k@) == battery_word()
}

/// A reported battery charge is a percent (never above 100), read from a supply
/// whose type is `Battery`.
pub proof fn lemma_battery_reading_is_a_percent(ps: Seq<PowerSupply>)
    ensures
        first_battery(ps) matches Some(b) ==> b.percent <= 100,
        first_battery(ps) is Some ==> exists|i: int|
            0 <= i < ps.len() && typed_battery(#[trigger] ps[i]),
    decreases ps.len(),
{
    if ps.len() > 0 {
        if supply_battery(ps[0]) is Some {
            assert(typed_battery(ps[0]));
        } else {
            lemma_battery_reading_is_a_percent(ps.drop_first());
            if first_battery(ps) is Some {
                let j = choose|j: int|
                    0 <= j < ps.drop_first().len() && typed_battery(#[trigger] ps.drop_first()[j]);
                assert(ps.drop_first()[j] == ps[j + 1]);
            }
        }
    }
}

fn trimmed_is(s: &String, word: &Vec<char>) -> (b: bool)
    ensures
        b == (trim(s@) == word@),
{
    same_chars(&trimmed(&chars_of(s.as_str())), word)
}

fn supply_reading(p: &PowerSupply, battery: &Vec<char>, charging: &Vec<char>, full: &Vec<char>) -> (r: Option<Battery>)
    requires
        battery@ == battery_word(),
        charging@ == charging_word(),
        full@ == full_word(),
    ensures
        r == supply_battery(*p),
{
    let is_battery = match &p.kind {
        Some(k) => trimmed_is(k, battery),
        None => false,
    };
    if !is_battery {
        return None;
    }
    let percent = match &p.capacity {
        Some(c) => parse_unsigned(&trimmed(&chars_of(c.as_str())), 255),
        None => None,
    };
    let Some(v) = percent else {
        return None;
    };
    let is_charging = match &p.status {
        Some(s) => trimmed_is(s, charging) || trimmed_is(s, full),
        None => false,
    };
    Some(Battery { percent: if v < 100 { v as u8 } else { 100 }, charging: is_charging })
}

/// Battery charge as `(percent, charging?)` from the first real battery among the
/// `/sys/class/power_supply/*` readings (its `type` reads `Battery`, skipping
/// AC/USB supplies). `None` on a machine with no battery, so a desktop asserts nothing.
pub fn battery(supplies: &Vec<PowerSupply>) -> (r: Option<Battery>)
    ensures
        r == first_battery(supplies@),
{
    let bw = literal("Battery");
    let cw = literal("Charging");
    let fw = literal("Full");
    proof {
        reveal_strlit("Battery");
        reveal_strlit("Charging");
        reveal_strlit("Full");
        assert(bw@ =~= battery_word());
        assert(cw@ =~= charging_word());
        assert(fw@ =~= full_word());
    }
    let mut i: usize = 0;
    proof {
        assert(supplies@.skip(0) =~= supplies@);
    }
    while i < supplies.len()
        invariant
            i <= supplies.len(),
            bw@ == battery_word(),
            cw@ == charging_word(),
            fw@ == full_word(),
            first_battery(supplies@) == first_battery(supplies@.skip(i as int)),
        decreases supplies.len() - i,
    {
        let found = supply_reading(&supplies[i], &bw, &cw, &fw);
        proof {
            assert(supplies@.skip(i as int)[0] == supplies@[i as int]);
            assert(supplies@.skip(i as int).drop_first() =~= supplies@.skip(i + 1));
        }
        if found.is_some() {
            return found;
        }
        i += 1;
    }
    proof {
        assert(supplies@.skip(i as int) =~= Seq::<PowerSupply>::empty());
    }
    None
}

// ---------------------------------------------------------------------------
// Caps Lock

/// One `/sys/class/leds` entry: its name and, for a Caps Lock LED, its
/// `brightness` file (`None` when not read or unreadable).
#[derive(Debug, Clone, PartialEq, Eq)]
pub struct LedReading {
    pub name: String,
    pub brightness: Option<String>,
}

pub open spec fn capslock_suffix() -> Seq<char> {
    seq![':', ':', 'c', 'a', 'p', 's', 'l', 'o', 'c', 'k']
}

/// Caps Lock from the first LED whose name ends with `::capslock`: on unless its
/// brightness reads `0`; unknown when that LED's brightness could not be read or
/// there is no such LED.
pub open spec fn caps_from(leds: Seq<LedReading>) -> Option<bool>
    decreases leds.len(),
{
    if leds.len() == 0 {
        None
    } else if has_suffix(leds[0].name@, capslock_suffix()) {
        match leds[0].brightness {
            Some(b) => Some(trim(b@) != seq!['0']),
            None => None,
        }
    } else {
        caps_from(leds.drop_first())
    }
}

/// Whether `l` is the Caps Lock LED and its brightness reads as `on` (any value
/// but `0` is on).
pub open spec fn capslock_reads(l: LedReading, on: bool) -> bool {
    &&& has_suffix(l.name@, capslock_suffix())
    &&& l.brightness matches Some(b) && on == (trim(b@) != seq!['0'])
}

/// Caps Lock is reported only from a Caps Lock LED whose brightness was read, as
/// on exactly when that brightness is not `0`; with no such LED it is unknown.
pub proof fn lemma_caps_lock_from_its_led(leds: Seq<LedReading>)
    ensures
        caps_from(leds) matches Some(on) ==> exists|i: int|
            0 <= i < leds.len() && capslock_reads(#[trigger] leds[i], on),
        (forall|i: int|
            0 <= i < leds.len() ==> !has_suffix(#[trigger] leds[i].name@, capslock_suffix()))
            ==> caps_from(leds) is None,
    decreases leds.len(),
{
    if leds.len() > 0 {
        lemma_caps_lock_from_its_led(leds.drop_first());
        if !has_suffix(leds[0].name@, capslock_suffix()) {
            if caps_from(leds) is Some {
                let on = caps_from(leds)->0;
                let j = choose|j: int|
                    0 <= j < leds.drop_first().len() && capslock_reads(
                        #[trigger] leds.drop_first()[j],
                        on,
                    );
                assert(leds.drop_first()[j] == leds[j + 1]);
            }
            if forall|i: int|
                0 <= i < leds.len() ==> !has_suffix(#[trigger] leds[i].name@, capslock_suffix()) {
                assert forall|i: int| 0 <= i < leds.drop_first().len() implies !has_suffix(
                    #[trigger] leds.drop_first()[i].name@,
                    capslock_suffix(),
                ) by {
                    assert(leds.drop_first()[i] == leds[i + 1]);
                }
            }
        } else if caps_from(leds) is Some {
            assert(capslock_reads(leds[0], caps_from(leds)->0));
        }
    }
}

/// Whether a name is the Caps Lock LED's (`…::capslock`), so the caller knows
/// whose brightness to read.
pub fn is_capslock_led(name: &str) -> (b: bool)
    ensures
        b == has_suffix(name@, capslock_suffix()),
{
    let suffix = literal("::capslock");
    proof {
        reveal_strlit("::capslock");
        assert(suffix@ =~= capslock_suffix());
    }
    ends_with(&chars_of(name), &suffix)
}

/// Whether Caps Lock is on, from the keyboard's `capslock` LED. `None` when no such
/// LED exists (or its state cannot be read) so the caller can hide the hint rather
/// than assert a state it cannot know.
pub fn caps_lock_on(leds: &Vec<LedReading>) -> (r: Option<bool>)
    ensures
        r == caps_from(leds@),
{
    let zero = vec!['0'];
    let mut i: usize = 0;
    proof {
        assert(leds@.skip(0) =~= leds@);
        assert(zero@ =~= seq!['0']);
    }
    while i < leds.len()
        invariant
            i <= leds.len(),
            zero@ == seq!['0'],
            caps_from(leds@) == caps_from(leds@.skip(i as int)),
        decreases leds.len() - i,
    {
        let led = &leds[i];
        proof {
            assert(leds@.skip(i as int)[0] == leds@[i as int]);
            assert(leds@.skip(i as int).drop_first() =~= leds@.skip(i + 1));
        }
        if is_capslock_led(led.name.as_str()) {
            return match &led.brightness {
                Some(b) => Some(!same_chars(&trimmed(&chars_of(b.as_str())), &zero)),
                None => None,
            };
        }
        i += 1;
    }
    None
}

// ---------------------------------------------------------------------------
// Wall clock

/// The local broken-down time the C library reports (`struct tm` fields):
/// `month` counts from 0 (January) and `weekday` from 0 (Sunday).
#[derive(Debug, Clone, Copy, PartialEq, Eq, Structural)]
pub struct LocalTime {
    pub hour: i32,
    pub minute: i32,
    pub second: i32,
    pub month: i32,
    pub month_day: i32,
    pub weekday: i32,
}

/// Rust's `%` by 12 (the remainder takes the sign of the dividend).
pub open spec fn rem12(h: int) -> int {
    if h >= 0 {
        h % 12
    } else {
        -((-h) % 12)
    }
}

/// The built-in clock text: `HH:MM` (24-hour) or `H:MM AM/PM` (12-hour, with 0
/// shown as 12), with `:SS` when `seconds`.
pub open spec fn clock_text(tm: LocalTime, clock_24h: bool, seconds: bool) -> Seq<char> {
    if clock_24h {
        let hm = signed_text2(tm.hour as int) + seq![':'] + signed_text2(tm.minute as int);
        if seconds {
            hm + seq![':'] + signed_text2(tm.second as int)
        } else {
            hm
        }
    } else {
        let r = rem12(tm.hour as int);
        let h12 = if r == 0 { 12 } else { r };
        let meridiem = if tm.hour < 12 { seq!['A', 'M'] } else { seq!['P', 'M'] };
        let hm = signed_text(h12) + seq![':'] + signed_text2(tm.minute as int);
        let body = if seconds { hm + seq![':'] + signed_text2(tm.second as int) } else { hm };
        body + seq![' '] + meridiem
    }
}

/// Local wall-clock time with the built-in formatting: `HH:MM` (24-hour) /
/// `H:MM AM/PM` (12-hour), with optional seconds. Empty when the local time could
/// not be read. (A configured `strftime` format is applied by the caller instead.)
pub fn now_hm(tm: Option<LocalTime>, clock_24h: bool, seconds: bool) -> (s: String)
    ensures
        s@ == (match tm {
            Some(t) => clock_text(t, clock_24h, seconds),
            None => Seq::empty(),
        }),
{
    let Some(tm) = tm else {
        return String::new();
    };
    let mut out: Vec<char> = Vec::new();
    if clock_24h {
        push_signed2(&mut out, tm.hour);
        out.push(':');
        push_signed2(&mut out, tm.minute);
        if seconds {
            out.push(':');
            push_signed2(&mut out, tm.second);
        }
    } else {
        let r: i32 = if tm.hour >= 0 {
            tm.hour % 12
        } else {
            let back: i64 = (-(tm.hour as i64)) % 12;
            -(back as i32)
        };
        let h12: i32 = if r == 0 { 12 } else { r };
        push_signed(&mut out, h12);
        out.push(':');
        push_signed2(&mut out, tm.minute);
        if seconds {
            out.push(':');
            push_signed2(&mut out, tm.second);
        }
        out.push(' ');
        if tm.hour < 12 {
            out.push('A');
        } else {
            out.push('P');
        }
        out.push('M');
    }
    proof {
        assert(out@ =~= clock_text(tm, clock_24h, seconds));
    }
    string_of(&out)
}

/// The 12-hour clock ends in " PM" exactly when the hour is 12 or later and in
/// " AM" before; a valid hour (0 to 23) is shown from 1 to 12, midnight and noon as
/// 12, followed by the zero-padded minute. The 24-hour clock of a valid time reads
/// `HH:MM`, both zero-padded to two digits, with no suffix.
pub proof fn lemma_clock_faces(t: LocalTime, seconds: bool)
    ensures
        ({
            let s = clock_text(t, false, seconds);
            &&& s.len() >= 3
            &&& s[s.len() - 3] == ' '
            &&& s[s.len() - 2] == (if t.hour >= 12 { 'P' } else { 'A' })
            &&& s[s.len() - 1] == 'M'
        }),
        (0 <= t.hour < 24 && 0 <= t.minute < 60) ==> clock_text(t, false, false) == decimal_text(
            (if t.hour == 0 || t.hour == 12 {
                12
            } else if t.hour < 12 {
                t.hour as int
            } else {
                t.hour - 12
            }) as nat,
        ) + seq![':'] + decimal_text2(t.minute as nat) + (if t.hour < 12 {
            seq![' ', 'A', 'M']
        } else {
            seq![' ', 'P', 'M']
        }),
        (0 <= t.hour < 24 && 0 <= t.minute < 60) ==> {
            let s = clock_text(t, true, false);
            &&& s == decimal_text2(t.hour as nat) + seq![':'] + decimal_text2(t.minute as nat)
            &&& s.len() == 5
            &&& s[2] == ':'
        },
{
    let s = clock_text(t, false, seconds);
    let r = rem12(t.hour as int);
    let h12 = if r == 0 { 12 } else { r };
    let hm = signed_text(h12) + seq![':'] + signed_text2(t.minute as int);
    let body = if seconds { hm + seq![':'] + signed_text2(t.second as int) } else { hm };
    let meridiem = if t.hour < 12 { seq!['A', 'M'] } else { seq!['P', 'M'] };
    assert(s == body + seq![' '] + meridiem);
    if 0 <= t.hour < 24 && 0 <= t.minute < 60 {
        assert(clock_text(t, false, false) == hm + seq![' '] + meridiem);
        assert(hm + seq![' '] + meridiem =~= hm + (if t.hour < 12 {
            seq![' ', 'A', 'M']
        } else {
            seq![' ', 'P', 'M']
        }));
        let x = t.hour as nat;
        let y = t.minute as nat;
        reveal_with_fuel(decimal_text, 2);
        assert(decimal_text2(x).len() == 2);
        assert(decimal_text2(y).len() == 2);
    }
}

/// Local time as minutes since midnight (for the day/night window), with the hour
/// and minute clamped to their ranges. Noon when the local time could not be read.
pub fn now_minutes(tm: Option<LocalTime>) -> (m: u32)
    ensures
        m == (match tm {
            Some(t) => (clamp_to(t.hour as int, 23) * 60 + clamp_to(t.minute as int, 59)) as u32,
            None => 720u32,
        }),
        m < 24 * 60,
{
    match tm {
        Some(t) => {
            let h: u32 = if t.hour < 0 { 0 } else if t.hour > 23 { 23 } else { t.hour as u32 };
            let mm: u32 = if t.minute < 0 { 0 } else if t.minute > 59 { 59 } else { t.minute as u32 };
            h * 60 + mm
        },
        None => 12 * 60,
    }
}

/// `v` clamped into `[0, hi]`.
pub open spec fn clamp_to(v: int, hi: int) -> int {
    if v < 0 {
        0
    } else if v > hi {
        hi
    } else {
        v
    }
}

/// Local calendar month, 1–12 (for the seasonal scene selector). June when the
/// local time could not be read.
pub fn now_month(tm: Option<LocalTime>) -> (m: u32)
    ensures
        m == (match tm {
            Some(t) => (clamp_to(t.month as int, 11) + 1) as u32,
            None => 6u32,
        }),
        1 <= m <= 12,
{
    match tm {
        Some(t) => {
            let mo: u32 = if t.month < 0 { 0 } else if t.month > 11 { 11 } else { t.month as u32 };
            mo + 1
        },
        None => 6,
    }
}

pub open spec fn day_name(i: int) -> Seq<char> {
    if i == 0 {
        "Sunday"@
    } else if i == 1 {
        "Monday"@
    } else if i == 2 {
        "Tuesday"@
    } else if i == 3 {
        "Wednesday"@
    } else if i == 4 {
        "Thursday"@
    } else if i == 5 {
        "Friday"@
    } else if i == 6 {
        "Saturday"@
    } else {
        Seq::empty()
    }
}

pub open spec fn month_name(i: int) -> Seq<char> {
    if i == 0 {
        "January"@
    } else if i == 1 {
        "February"@
    } else if i == 2 {
        "March"@
    } else if i == 3 {
        "April"@
    } else if i == 4 {
        "May"@
    } else if i == 5 {
        "June"@
    } else if i == 6 {
        "July"@
    } else if i == 7 {
        "August"@
    } else if i == 8 {
        "September"@
    } else if i == 9 {
        "October"@
    } else if i == 10 {
        "November"@
    } else if i == 11 {
        "December"@
    } else {
        Seq::empty()
    }
}

/// The date names exactly the weekdays 0 (Sunday) to 6 and the months 0 (January)
/// to 11: each of those has a name, and any other index shows as empty.
pub proof fn lemma_date_names_cover_the_calendar(weekday: int, month: int)
    ensures
        (day_name(weekday).len() > 0) <==> (0 <= weekday < 7),
        (month_name(month).len() > 0) <==> (0 <= month < 12),
{
    reveal_strlit("Sunday");
    reveal_strlit("Monday");
    reveal_strlit("Tuesday");
    reveal_strlit("Wednesday");
    reveal_strlit("Thursday");
    reveal_strlit("Friday");
    reveal_strlit("Saturday");
    reveal_strlit("January");
    reveal_strlit("February");
    reveal_strlit("March");
    reveal_strlit("April");
    reveal_strlit("May");
    reveal_strlit("June");
    reveal_strlit("July");
    reveal_strlit("August");
    reveal_strlit("September");
    reveal_strlit("October");
    reveal_strlit("November");
    reveal_strlit("December");
}

fn day_str(i: i32) -> (s: &'static str)
    ensures
        s@ == day_name(i as int),
{
    if i == 0 {
        "Sunday"
    } else if i == 1 {
        "Monday"
    } else if i == 2 {
        "Tuesday"
    } else if i == 3 {
        "Wednesday"
    } else if i == 4 {
        "Thursday"
    } else if i == 5 {
        "Friday"
    } else if i == 6 {
        "Saturday"
    } else {
        proof {
            reveal_strlit("");
        }
        ""
    }
}

fn month_str(i: i32) -> (s: &'static str)
    ensures
        s@ == month_name(i as int),
{
    if i == 0 {
        "January"
    } else if i == 1 {
        "February"
    } else if i == 2 {
        "March"
    } else if i == 3 {
        "April"
    } else if i == 4 {
        "May"
    } else if i == 5 {
        "June"
    } else if i == 6 {
        "July"
    } else if i == 7 {
        "August"
    } else if i == 8 {
        "September"
    } else if i == 9 {
        "October"
    } else if i == 10 {
        "November"
    } else if i == 11 {
        "December"
    } else {
        proof {
            reveal_strlit("");
        }
        ""
    }
}

/// Local date as `Weekday, Month D` (e.g. `Friday, June 27`); a weekday or month
/// out of range shows as empty. Empty when the local time could not be read.
pub fn now_date(tm: Option<LocalTime>) -> (s: String)
    ensures
        s@ == (match tm {
            Some(t) => day_name(t.weekday as int) + seq![',', ' '] + month_name(t.month as int)
                + seq![' '] + signed_text(t.month_day as int),
            None => Seq::empty(),
        }),
{
    let Some(t) = tm else {
        return String::new();
    };
    let mut out: Vec<char> = Vec::new();
    push_str(&mut out, day_str(t.weekday));
    out.push(',');
    out.push(' ');
    push_str(&mut out, month_str(t.month));
    out.push(' ');
    push_signed(&mut out, t.month_day);
    proof {
        assert(out@ =~= day_name(t.weekday as int) + seq![',', ' '] + month_name(t.month as int)
            + seq![' '] + signed_text(t.month_day as int));
    }
    string_of(&out)
}

} // verus!
