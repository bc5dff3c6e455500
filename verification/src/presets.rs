//! The settings editor's preset catalog: the preset files found in the preset
//! directories, one per display name (the first directory scanned wins a clash),
//! listed by name.
use vstd::prelude::*;

use crate::color::Color;
use crate::text::{chars_of, same_chars};
use crate::theme::Theme;

verus! {

/// The handful of colors a preset thumbnail shows (its night variant).
#[derive(Debug, Clone, Copy, PartialEq, Eq, Structural)]
pub struct PresetSwatch {
    pub background: Color,
    pub card: Color,
    pub field: Color,
    pub accent: Color,
    pub foreground: Color,
}

impl PresetSwatch {
    /// The thumbnail colors of a preset's night variant.
    pub fn of(night: &Theme) -> (s: PresetSwatch)
        ensures
            s == (PresetSwatch {
                background: night.background,
                card: night.card,
                field: night.field,
                accent: night.accent,
                foreground: night.foreground,
            }),
    {
        PresetSwatch {
            background: night.background,
            card: night.card,
            field: night.field,
            accent: night.accent,
            foreground: night.foreground,
        }
    }
}

/// A saved theme preset: its display name, its file, and its thumbnail colors
/// (`None` when the file did not parse).
#[derive(Debug, PartialEq, Eq)]
pub struct Preset {
    pub name: String,
    pub path: String,
    pub swatch: Option<PresetSwatch>,
}

impl Preset {
    /// A copy of this preset.
    pub fn duplicate(&self) -> (p: Preset)
        ensures
            p == *self,
    {
        Preset { name: self.name.clone(), path: self.path.clone(), swatch: self.swatch }
    }
}

/// Whether `a` sorts strictly before `b`: character by character, by code point,
/// a proper prefix first — the order of `str` (its UTF-8 bytes compare the same way).
pub open spec fn name_before(a: Seq<char>, b: Seq<char>) -> bool
    decreases a.len(),
{
    if a.len() == 0 {
        b.len() > 0
    } else if b.len() == 0 {
        false
    } else if a[0] != b[0] {
        a[0] < b[0]
    } else {
        name_before(a.drop_first(), b.drop_first())
    }
}

/// The order is transitive.
proof fn lemma_name_before_transitive(a: Seq<char>, b: Seq<char>, c: Seq<char>)
    requires
        name_before(a, b),
        name_before(b, c),
    ensures
        name_before(a, c),
    decreases a.len(),
{
    if a.len() > 0 && b.len() > 0 && c.len() > 0 && a[0] == b[0] && b[0] == c[0] {
        lemma_name_before_transitive(a.drop_first(), b.drop_first(), c.drop_first());
    }
}

/// Nothing sorts before itself.
proof fn lemma_name_before_irreflexive(a: Seq<char>)
    ensures
        !name_before(a, a),
    decreases a.len(),
{
    if a.len() > 0 {
        lemma_name_before_irreflexive(a.drop_first());
    }
}

/// Whether `a` sorts strictly before `b` (their names).
fn before(a: &String, b: &String) -> (r: bool)
    ensures
        r == name_before(a@, b@),
{
    let x = chars_of(a.as_str());
    let y = chars_of(b.as_str());
    let mut i: usize = 0;
    proof {
        assert(x@.skip(0) =~= x@);
        assert(y@.skip(0) =~= y@);
    }
    while i < x.len() && i < y.len() && x[i] == y[i]
        invariant
            i <= x.len(),
            i <= y.len(),
            name_before(x@, y@) == name_before(x@.skip(i as int), y@.skip(i as int)),
        decreases x.len() - i,
    {
        proof {
            assert(x@.skip(i as int).drop_first() =~= x@.skip(i + 1));
            assert(y@.skip(i as int).drop_first() =~= y@.skip(i + 1));
        }
        i += 1;
    }
    if i == x.len() {
        i < y.len()
    } else if i == y.len() {
        false
    } else {
        proof {
            assert(x@.skip(i as int)[0] == x@[i as int]);
            assert(y@.skip(i as int)[0] == y@[i as int]);
        }
        x[i] < y[i]
    }
}

/// The names of a list of presets.
pub open spec fn names_of(s: Seq<Preset>) -> Set<Seq<char>> {
    Set::new(|n: Seq<char>| exists|j: int| 0 <= j < s.len() && #[trigger] s[j].name@ == n)
}

/// The presets of `s` whose name is not in `seen` and not held by an earlier one,
/// in order.
pub open spec fn first_of_each_from(s: Seq<Preset>, seen: Set<Seq<char>>) -> Seq<Preset>
    decreases s.len(),
{
    if s.len() == 0 {
        Seq::empty()
    } else if seen.contains(s[0].name@) {
        first_of_each_from(s.drop_first(), seen)
    } else {
        seq![s[0]] + first_of_each_from(s.drop_first(), seen.insert(s[0].name@))
    }
}

/// The first preset of each name, in the order found.
pub open spec fn first_of_each(s: Seq<Preset>) -> Seq<Preset> {
    first_of_each_from(s, Set::empty())
}

/// Whether some preset of `kept` has the name `name`.
fn has_name(kept: &Vec<Preset>, name: &String) -> (b: bool)
    ensures
        b == names_of(kept@).contains(name@),
{
    let want = chars_of(name.as_str());
    let mut j: usize = 0;
    while j < kept.len()
        invariant
            j <= kept.len(),
            want@ == name@,
            forall|k: int| 0 <= k < j ==> #[trigger] kept@[k].name@ != name@,
        decreases kept.len() - j,
    {
        if same_chars(&chars_of(kept[j].name.as_str()), &want) {
            proof {
                assert(kept@[j as int].name@ == name@);
            }
            return true;
        }
        j += 1;
    }
    false
}

/// Keep the first preset of each display name, in the order found: the directories
/// are scanned in priority order, so a user's preset wins over a packaged one.
pub fn keep_first_of_each_name(found: &Vec<Preset>) -> (r: Vec<Preset>)
    ensures
        r@ == first_of_each(found@),
{
    let mut kept: Vec<Preset> = Vec::new();
    let mut i: usize = 0;
    proof {
        assert(found@.skip(0) =~= found@);
        assert(names_of(kept@) =~= Set::<Seq<char>>::empty());
        assert(kept@ + first_of_each(found@) =~= first_of_each(found@));
    }
    while i < found.len()
        invariant
            i <= found.len(),
            kept@ + first_of_each_from(found@.skip(i as int), names_of(kept@)) == first_of_each(
                found@,
            ),
        decreases found.len() - i,
    {
        let p = &found[i];
        let ghost rest = found@.skip(i + 1);
        proof {
            assert(found@.skip(i as int)[0] == *p);
            assert(found@.skip(i as int).drop_first() =~= rest);
        }
        if !has_name(&kept, &p.name) {
            let ghost before = kept@;
            kept.push(p.duplicate());
            proof {
                assert(names_of(kept@) =~= names_of(before).insert(p.name@)) by {
                    assert forall|n: Seq<char>| names_of(kept@).contains(n) implies names_of(
                        before,
                    ).insert(p.name@).contains(n) by {
                        let j = choose|j: int| 0 <= j < kept@.len() && #[trigger] kept@[j].name@ == n;
                        if j < before.len() {
                            assert(before[j] == kept@[j]);
                        }
                    }
                    assert forall|n: Seq<char>| names_of(before).insert(p.name@).contains(
                        n,
                    ) implies names_of(kept@).contains(n) by {
                        if n == p.name@ {
                            assert(kept@[before.len() as int].name@ == n);
                        } else {
                            let j = choose|j: int| 0 <= j < before.len() && #[trigger] before[j].name@ == n;
                            assert(kept@[j] == before[j]);
                        }
                    }
                }
                assert(before + (seq![*p] + first_of_each_from(rest, names_of(kept@))) =~= kept@
                    + first_of_each_from(rest, names_of(kept@)));
            }
        }
        i += 1;
    }
    proof {
        assert(found@.skip(i as int) =~= Seq::<Preset>::empty());
        assert(kept@ + Seq::<Preset>::empty() =~= kept@);
    }
    kept
}

/// Sorted by name: no preset sorts before an earlier one.
pub open spec fn sorted_by_name(s: Seq<Preset>) -> bool {
    forall|i: int, j: int| 0 <= i < j < s.len() ==> !name_before(#[trigger] s[j].name@, #[trigger] s[i].name@)
}

/// The presets listed by name, keeping the found order among equal names (a
/// stable sort).
pub fn sort_by_name(presets: &Vec<Preset>) -> (r: Vec<Preset>)
    ensures
        sorted_by_name(r@),
        r@.to_multiset() == presets@.to_multiset(),
{
    let mut out: Vec<Preset> = Vec::new();
    let mut i: usize = 0;
    proof {
        assert(presets@.take(0) =~= Seq::<Preset>::empty());
    }
    while i < presets.len()
        invariant
            i <= presets.len(),
            sorted_by_name(out@),
            out@.to_multiset() == presets@.take(i as int).to_multiset(),
        decreases presets.len() - i,
    {
        let x = presets[i].duplicate();
        let mut k: usize = 0;
        while k < out.len() && !before(&x.name, &out[k].name)
            invariant
                k <= out.len(),
                i < presets.len(),
                x == presets@[i as int],
                sorted_by_name(out@),
                out@.to_multiset() == presets@.take(i as int).to_multiset(),
                forall|m: int| 0 <= m < k ==> !name_before(x.name@, #[trigger] out@[m].name@),
            decreases out.len() - k,
        {
            k += 1;
        }
        let ghost old_out = out@;
        out.insert(k, x);
        proof {
            assert(out@ == old_out.insert(k as int, x));
            vstd::seq_lib::to_multiset_insert(old_out, k as int, x);
            assert(k < old_out.len() ==> name_before(x.name@, old_out[k as int].name@));
            assert forall|a: int, b: int| 0 <= a < b < out@.len() implies !name_before(
                #[trigger] out@[b].name@,
                #[trigger] out@[a].name@,
            ) by {
                if b < k {
                    assert(out@[a] == old_out[a] && out@[b] == old_out[b]);
                } else if b == k {
                    assert(out@[a] == old_out[a]);
                } else if a == k {
                    // x sorts before old_out[k], which does not sort after old_out[b - 1]
                    assert(out@[b] == old_out[b - 1]);
                    assert(name_before(x.name@, old_out[k as int].name@));
                    if name_before(old_out[b - 1].name@, x.name@) {
                        lemma_name_before_transitive(
                            old_out[b - 1].name@,
                            x.name@,
                            old_out[k as int].name@,
                        );
                        if k < b - 1 {
                            assert(!name_before(old_out[b - 1].name@, old_out[k as int].name@));
                        } else {
                            lemma_name_before_irreflexive(old_out[k as int].name@);
                        }
                    }
                } else if a < k {
                    assert(out@[a] == old_out[a] && out@[b] == old_out[b - 1]);
                } else {
                    assert(out@[a] == old_out[a - 1] && out@[b] == old_out[b - 1]);
                }
            }
            assert(presets@.take(i + 1) =~= presets@.take(i as int).push(presets@[i as int]));
            vstd::seq_lib::to_multiset_build(presets@.take(i as int), presets@[i as int]);
        }
        i += 1;
    }
    proof {
        assert(presets@.take(presets.len() as int) =~= presets@);
    }
    out
}

/// The preset catalog: the first preset of each display name, in the order found,
/// then listed by name.
pub fn catalog(found: &Vec<Preset>) -> (r: Vec<Preset>)
    ensures
        sorted_by_name(r@),
        r@.to_multiset() == first_of_each(found@).to_multiset(),
{
    let kept = keep_first_of_each_name(found);
    sort_by_name(&kept)
}

/// What keeping the first of each name gives, from a point of the scan where the
/// names in `seen` are taken: distinct names, none of them in `seen`, exactly the
/// names found that are not in `seen`, and each kept preset the first found with
/// its name.
proof fn lemma_first_of_each_from(s: Seq<Preset>, seen: Set<Seq<char>>)
    ensures
        ({
            let r = first_of_each_from(s, seen);
            &&& forall|i: int, j: int|
                0 <= i < j < r.len() ==> #[trigger] r[i].name@ != #[trigger] r[j].name@
            &&& forall|i: int| 0 <= i < r.len() ==> !seen.contains(#[trigger] r[i].name@)
            &&& forall|n: Seq<char>|
                #[trigger] names_of(r).contains(n) <==> (names_of(s).contains(n) && !seen.contains(
                    n,
                ))
            &&& forall|i: int|
                0 <= i < r.len() ==> exists|j: int|
                    0 <= j < s.len() && s[j] == #[trigger] r[i] && forall|m: int|
                        0 <= m < j ==> #[trigger] s[m].name@ != r[i].name@
        }),
    decreases s.len(),
{
    let r = first_of_each_from(s, seen);
    if s.len() == 0 {
        assert forall|n: Seq<char>| names_of(r).contains(n) <==> (names_of(s).contains(n)
            && !seen.contains(n)) by {}
    } else {
        let t = s.drop_first();
        let h = s[0];
        if seen.contains(h.name@) {
            lemma_first_of_each_from(t, seen);
            assert(r == first_of_each_from(t, seen));
            assert forall|n: Seq<char>| names_of(r).contains(n) <==> (names_of(s).contains(n)
                && !seen.contains(n)) by {
                if names_of(s).contains(n) && !seen.contains(n) {
                    let j = choose|j: int| 0 <= j < s.len() && #[trigger] s[j].name@ == n;
                    assert(j > 0);
                    assert(t[j - 1].name@ == n);
                }
                if names_of(t).contains(n) {
                    let j = choose|j: int| 0 <= j < t.len() && #[trigger] t[j].name@ == n;
                    assert(s[j + 1].name@ == n);
                }
            }
            assert forall|i: int| 0 <= i < r.len() implies exists|j: int|
                0 <= j < s.len() && s[j] == #[trigger] r[i] && forall|m: int|
                    0 <= m < j ==> #[trigger] s[m].name@ != r[i].name@ by {
                let j = choose|j: int|
                    0 <= j < t.len() && t[j] == #[trigger] r[i] && forall|m: int|
                        0 <= m < j ==> #[trigger] t[m].name@ != r[i].name@;
                assert(s[j + 1] == r[i]);
                assert forall|m: int| 0 <= m < j + 1 implies #[trigger] s[m].name@ != r[i].name@ by {
                    if m > 0 {
                        assert(s[m] == t[m - 1]);
                    }
                }
            }
        } else {
            let seen2 = seen.insert(h.name@);
            let rest = first_of_each_from(t, seen2);
            lemma_first_of_each_from(t, seen2);
            assert(r == seq![h] + rest);
            assert forall|i: int, j: int| 0 <= i < j < r.len() implies #[trigger] r[i].name@
                != #[trigger] r[j].name@ by {
                if i == 0 {
                    assert(r[j] == rest[j - 1]);
                    assert(!seen2.contains(rest[j - 1].name@));
                } else {
                    assert(r[i] == rest[i - 1] && r[j] == rest[j - 1]);
                }
            }
            assert forall|i: int| 0 <= i < r.len() implies !seen.contains(#[trigger] r[i].name@) by {
                if i > 0 {
                    assert(r[i] == rest[i - 1]);
                    assert(!seen2.contains(rest[i - 1].name@));
                }
            }
            assert forall|n: Seq<char>| names_of(r).contains(n) <==> (names_of(s).contains(n)
                && !seen.contains(n)) by {
                if names_of(r).contains(n) {
                    let j = choose|j: int| 0 <= j < r.len() && #[trigger] r[j].name@ == n;
                    if j == 0 {
                        assert(s[0].name@ == n);
                    } else {
                        assert(r[j] == rest[j - 1]);
                        assert(names_of(rest).contains(n));
                        let k = choose|k: int| 0 <= k < t.len() && #[trigger] t[k].name@ == n;
                        assert(s[k + 1].name@ == n);
                    }
                }
                if names_of(s).contains(n) && !seen.contains(n) {
                    if n == h.name@ {
                        assert(r[0].name@ == n);
                    } else {
                        let j = choose|j: int| 0 <= j < s.len() && #[trigger] s[j].name@ == n;
                        assert(j > 0);
                        assert(t[j - 1].name@ == n);
                        assert(names_of(t).contains(n));
                        assert(!seen2.contains(n));
                        assert(names_of(rest).contains(n));
                        let k = choose|k: int| 0 <= k < rest.len() && #[trigger] rest[k].name@ == n;
                        assert(r[k + 1].name@ == n);
                    }
                }
            }
            assert forall|i: int| 0 <= i < r.len() implies exists|j: int|
                0 <= j < s.len() && s[j] == #[trigger] r[i] && forall|m: int|
                    0 <= m < j ==> #[trigger] s[m].name@ != r[i].name@ by {
                if i == 0 {
                    assert(s[0] == r[0]);
                    assert forall|m: int| 0 <= m < 0 implies #[trigger] s[m].name@ != r[i].name@ by {}
                } else {
                    assert(r[i] == rest[i - 1]);
                    let j = choose|j: int|
                        0 <= j < t.len() && t[j] == #[trigger] rest[i - 1] && forall|m: int|
                            0 <= m < j ==> #[trigger] t[m].name@ != rest[i - 1].name@;
                    assert(!seen2.contains(rest[i - 1].name@));
                    assert(s[j + 1] == r[i]);
                    assert forall|m: int| 0 <= m < j + 1 implies #[trigger] s[m].name@
                        != r[i].name@ by {
                        if m > 0 {
                            assert(s[m] == t[m - 1]);
                        }
                    }
                }
            }
        }
    }
}

/// The catalog keeps one preset per display name: its names are distinct, they are
/// exactly the names found, and each kept preset is the first found with its name
/// (so the directory scanned first wins a clash).
pub proof fn lemma_first_of_each_name_wins(found: Seq<Preset>)
    ensures
        ({
            let r = first_of_each(found);
            &&& forall|i: int, j: int|
                0 <= i < j < r.len() ==> #[trigger] r[i].name@ != #[trigger] r[j].name@
            &&& names_of(r) == names_of(found)
            &&& forall|i: int|
                0 <= i < r.len() ==> exists|j: int|
                    0 <= j < found.len() && found[j] == #[trigger] r[i] && forall|m: int|
                        0 <= m < j ==> #[trigger] found[m].name@ != r[i].name@
        }),
{
    lemma_first_of_each_from(found, Set::empty());
    let r = first_of_each(found);
    assert forall|n: Seq<char>| names_of(r).contains(n) == names_of(found).contains(n) by {
        assert(names_of(r).contains(n) <==> (names_of(found).contains(n) && !Set::<
            Seq<char>,
        >::empty().contains(n)));
    }
    assert(names_of(r) =~= names_of(found));
}

} // verus!
