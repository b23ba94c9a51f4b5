//! The model of a category, a fixed row of sections, and the bounded
//! random choice of which of them are installed.
use vstd::multiset::Multiset;
use vstd::prelude::*;

use crate::chance;
use crate::section::common::{
    flag, lemma_all_inactive, lemma_section_power_down_idempotent, section_break_outcome,
    section_status_text, SectionView,
};
use crate::station::components::{sum_counts, sum_prefix, BreakError};
use crate::terminalisp::station::{decimal_text, quoted, status_text};

pub use crate::station::components::SectionCounts;

verus! {

broadcast use vstd::seq_lib::group_to_multiset_ensures;

pub trait SectionsAvailable {
    const SECTIONS_AVAILABLE: u16;
}

/// How many entries of `s` are true.
pub open spec fn trues(s: Seq<bool>) -> nat {
    s.to_multiset().count(true)
}

/// How many entries of `s` are false.
pub open spec fn falses(s: Seq<bool>) -> nat {
    s.to_multiset().count(false)
}

/// How many entries `random_bools` sets to true before it shuffles: `min_count`
/// where that is below `count`, none otherwise.
pub open spec fn forced_true(count: u16, min_count: u16) -> int {
    if min_count < count {
        min_count as int
    } else {
        0
    }
}

/// How many entries `random_bools` sets to false before it shuffles:
/// `count - max_count` where `max_count` is below `count`, but no more than
/// the entries left after the forced true ones.
pub open spec fn forced_false(count: u16, min_count: u16, max_count: u16) -> int {
    if max_count < count {
        let wanted = count - max_count;
        let left = count - forced_true(count, min_count);
        if wanted <= left {
            wanted
        } else {
            left
        }
    } else {
        0
    }
}

/// `s` is one of the results that `random_bools(count, min_count, max_count)` can have.
pub open spec fn installation_bounded(
    s: Seq<bool>,
    count: u16,
    min_count: u16,
    max_count: u16,
) -> bool {
    &&& s.len() == count
    &&& trues(s) >= forced_true(count, min_count)
    &&& falses(s) >= forced_false(count, min_count, max_count)
}

/// Every entry of a sequence of booleans is true or false, and the true ones
/// are those that `flag` counts.
pub proof fn lemma_trues_falses(s: Seq<bool>)
    ensures
        trues(s) + falses(s) == s.len(),
        trues(s) == sum_counts(s.map_values(|b: bool| flag(b))),
    decreases s.len(),
{
    if s.len() > 0 {
        let t = s.drop_last();
        lemma_trues_falses(t);
        assert(s =~= t.push(s.last()));
        lemma_sum_prefix_agree(
            s.map_values(|b: bool| flag(b)),
            t.map_values(|b: bool| flag(b)),
            t.len() as int,
        );
    } else {
        assert(s.to_multiset() =~= Multiset::empty());
    }
}

/// Prefix sums depend on the prefix alone.
pub proof fn lemma_sum_prefix_agree(a: Seq<int>, b: Seq<int>, n: int)
    requires
        0 <= n <= a.len(),
        n <= b.len(),
        forall|i: int| 0 <= i < n ==> a[i] == b[i],
    ensures
        sum_prefix(a, n) == sum_prefix(b, n),
    decreases n,
{
    if n > 0 {
        lemma_sum_prefix_agree(a, b, n - 1);
    }
}

/// What `random_bools` returns holds at least `min_count` true entries, or
/// all of them where there are fewer, as long as `min_count` is below
/// `count` or `count` is zero; and never more than `max_count` or `count`,
/// whichever is larger.
pub proof fn lemma_random_bools_bounds(s: Seq<bool>, count: u16, min_count: u16, max_count: u16)
    requires
        installation_bounded(s, count, min_count, max_count),
        min_count < count || count == 0,
    ensures
        trues(s) >= if min_count <= count { min_count } else { count },
        trues(s) <= if max_count >= count { max_count } else { count },
{
    lemma_trues_falses(s);
}

/// Returns `count` booleans: `min_count` of them true where `min_count` is
/// below `count`, then `count - max_count` false where `max_count` is below
/// `count` (as many as are left), the rest fair coin flips; shuffled, so that
/// no position is bound to a forced value.
pub fn random_bools(count: u16, min_count: u16, max_count: u16) -> (r: Vec<bool>)
    ensures
        installation_bounded(r@, count, min_count, max_count),
{
    let mut result: Vec<bool> = Vec::new();
    let mut random_count: u16 = count;

    let forced: u16 = if min_count < count {
        min_count
    } else {
        0
    };
    let mut i: u16 = 0;
    while i < forced
        invariant
            0 <= i <= forced,
            forced == forced_true(count, min_count),
            forced <= count,
            result@.len() == i,
            trues(result@) == i,
            falses(result@) == 0,
        decreases forced - i,
    {
        result.push(true);
        i = i + 1;
    }
    random_count = random_count - forced;

    let extra: u16 = if max_count < count {
        if count - max_count <= random_count {
            count - max_count
        } else {
            random_count
        }
    } else {
        0
    };
    let mut j: u16 = 0;
    while j < extra
        invariant
            0 <= j <= extra,
            extra == forced_false(count, min_count, max_count),
            extra <= random_count,
            random_count == count - forced,
            result@.len() == forced + j,
            trues(result@) == forced,
            falses(result@) == j,
        decreases extra - j,
    {
        result.push(false);
        j = j + 1;
    }
    random_count = random_count - extra;

    let mut k: u16 = 0;
    while k < random_count
        invariant
            0 <= k <= random_count,
            random_count == count - forced - extra,
            result@.len() == forced + extra + k,
            trues(result@) >= forced,
            falses(result@) >= extra,
        decreases random_count - k,
    {
        let coin: bool = rand::random();
        result.push(coin);
        k = k + 1;
    }

    let ghost before = result@;
    chance::shuffle(&mut result);
    proof {
        assert(result@.len() == result@.to_multiset().len());
        assert(before.len() == before.to_multiset().len());
    }
    result
}

/// Returns between `min_count` and `max_count - 1` positions, each drawn
/// from `1..=max_count`.
pub fn random_positions(min_count: u8, max_count: u8) -> (r: Vec<u8>)
    requires
        min_count < max_count,
    ensures
        min_count <= r@.len() < max_count,
        forall|i: int| 0 <= i < r@.len() ==> 1 <= #[trigger] r@[i] <= max_count,
{
    let count: u8 = min_count + (chance::pick((max_count - min_count) as usize) - 1) as u8;

    let mut positions: Vec<u8> = Vec::new();
    let mut i: u8 = 0;
    while i < count
        invariant
            0 <= i <= count,
            count < max_count,
            positions@.len() == i,
            forall|k: int| 0 <= k < positions@.len() ==> 1 <= #[trigger] positions@[k] <= max_count,
        decreases count - i,
    {
        let position = chance::pick(max_count as usize) as u8;
        positions.push(position);
        i = i + 1;
    }
    positions
}

/// Sections as they are built, installed where `installation` says.
pub open spec fn fresh_sections(installation: Seq<bool>, sizes: Seq<nat>) -> Seq<SectionView> {
    Seq::new(sizes.len(), |i: int| SectionView::fresh(installation[i], sizes[i]))
}

/// Whether each section is installed.
pub open spec fn installation_of(v: Seq<SectionView>) -> Seq<bool> {
    v.map_values(|s: SectionView| s.installed)
}

/// How many sections are installed.
pub open spec fn category_installed(v: Seq<SectionView>) -> nat {
    sum_counts(v.map_values(|s: SectionView| flag(s.installed))) as nat
}

/// How many modules the installed sections hold.
pub open spec fn category_total(v: Seq<SectionView>) -> nat {
    sum_counts(v.map_values(|s: SectionView| if s.installed { s.total() as int } else { 0 })) as nat
}

/// The active-module count of each section.
pub open spec fn section_actives(v: Seq<SectionView>) -> Seq<int> {
    v.map_values(|s: SectionView| s.active() as int)
}

/// A sum of zeros is zero.
pub proof fn lemma_sum_zeros(s: Seq<int>)
    requires
        forall|i: int| 0 <= i < s.len() ==> s[i] == 0,
    ensures
        sum_counts(s) == 0,
{
    lemma_sum_prefix_zeros(s, s.len() as int);
}

proof fn lemma_sum_prefix_zeros(s: Seq<int>, n: int)
    requires
        0 <= n <= s.len(),
        forall|i: int| 0 <= i < s.len() ==> s[i] == 0,
    ensures
        sum_prefix(s, n) == 0,
    decreases n,
{
    if n > 0 {
        lemma_sum_prefix_zeros(s, n - 1);
    }
}

/// Changing one section, but not whether it is installed nor how many
/// modules it holds, keeps the category's section and module totals.
pub proof fn lemma_same_shape(before: Seq<SectionView>, i: int, s: SectionView)
    requires
        0 <= i < before.len(),
        s.installed == before[i].installed,
        s.modules.len() == before[i].modules.len(),
    ensures
        category_total(before.update(i, s)) == category_total(before),
        category_installed(before.update(i, s)) == category_installed(before),
{
    let after = before.update(i, s);
    assert(after.map_values(|s: SectionView| if s.installed { s.total() as int } else { 0 })
        =~= before.map_values(|s: SectionView| if s.installed { s.total() as int } else { 0 }));
    assert(after.map_values(|s: SectionView| flag(s.installed)) =~= before.map_values(
        |s: SectionView| flag(s.installed),
    ));
}

/// Powering down keeps the category's section and module totals.
pub proof fn lemma_powered_down_shape(v: Seq<SectionView>)
    ensures
        category_total(category_powered_down(v)) == category_total(v),
        category_installed(category_powered_down(v)) == category_installed(v),
        category_powered_down(v).len() == v.len(),
{
    let p = category_powered_down(v);
    assert(p.map_values(|s: SectionView| if s.installed { s.total() as int } else { 0 })
        =~= v.map_values(|s: SectionView| if s.installed { s.total() as int } else { 0 }));
    assert(p.map_values(|s: SectionView| flag(s.installed)) =~= v.map_values(
        |s: SectionView| flag(s.installed),
    ));
}

/// A repair request keeps the category's section and module totals.
pub proof fn lemma_repaired_shape(v: Seq<SectionView>, section: int, module: int)
    ensures
        category_total(category_repaired(v, section, module)) == category_total(v),
        category_installed(category_repaired(v, section, module)) == category_installed(v),
        category_repaired(v, section, module).len() == v.len(),
{
    if 0 <= section < v.len() && v[section].needs_repair() {
        lemma_same_shape(v, section, v[section].repaired(module));
    }
}

/// Powering a category down twice leaves it as powering it down once, with
/// no module active.
pub proof fn lemma_category_power_down_idempotent(v: Seq<SectionView>)
    ensures
        category_powered_down(category_powered_down(v)) == category_powered_down(v),
        category_active(category_powered_down(v)) == 0,
{
    let p = category_powered_down(v);
    assert forall|i: int| 0 <= i < p.len() implies #[trigger] category_powered_down(p)[i] == p[i]
        by {
        lemma_section_power_down_idempotent(v[i]);
    }
    assert(category_powered_down(p) =~= p);
    lemma_powered_down_inactive(v);
}

/// A powered-down category has no active module.
pub proof fn lemma_powered_down_inactive(v: Seq<SectionView>)
    ensures
        category_active(category_powered_down(v)) == 0,
{
    let p = category_powered_down(v);
    assert forall|i: int| 0 <= i < p.len() implies #[trigger] section_actives(p)[i] == 0 by {
        lemma_all_inactive(p[i]);
    }
    lemma_sum_zeros(section_actives(p));
}

/// How many modules are active, over all sections.
pub open spec fn category_active(v: Seq<SectionView>) -> nat {
    sum_counts(section_actives(v)) as nat
}

pub open spec fn category_powered_down(v: Seq<SectionView>) -> Seq<SectionView> {
    v.map_values(|s: SectionView| s.powered_down())
}

/// The category after a request to repair module `module` of section
/// `section`: only where that section is repairable does anything change.
pub open spec fn category_repaired(
    v: Seq<SectionView>,
    section: int,
    module: int,
) -> Seq<SectionView> {
    if 0 <= section < v.len() && v[section].needs_repair() {
        v.update(section, v[section].repaired(module))
    } else {
        v
    }
}

/// Breaking a category: one section, any of them, is broken as a section
/// breaks, and the others stay as they were.
pub open spec fn category_break_outcome(
    before: Seq<SectionView>,
    module_names: Seq<Seq<Seq<char>>>,
    after: Seq<SectionView>,
    outcome: Result<Seq<char>, BreakError>,
) -> bool {
    exists|i: int|
        0 <= i < before.len() && after == before.update(i, after[i])
            && #[trigger] section_break_outcome(before[i], module_names[i], after[i], outcome)
}

/// The status blocks of the installed sections among the first `n`.
pub open spec fn installed_section_texts(
    v: Seq<SectionView>,
    section_names: Seq<Seq<char>>,
    module_names: Seq<Seq<Seq<char>>>,
    indent: nat,
    n: int,
) -> Seq<Seq<char>>
    decreases n,
{
    if n <= 0 {
        Seq::empty()
    } else if v[n - 1].installed {
        installed_section_texts(v, section_names, module_names, indent, n - 1).push(
            section_status_text(section_names[n - 1], module_names[n - 1], v[n - 1], indent),
        )
    } else {
        installed_section_texts(v, section_names, module_names, indent, n - 1)
    }
}

/// The status block of a category: its name and counts, then the blocks of
/// its installed sections.
pub open spec fn category_status_text(
    name: Seq<char>,
    section_names: Seq<Seq<char>>,
    module_names: Seq<Seq<Seq<char>>>,
    v: Seq<SectionView>,
    indent: nat,
) -> Seq<char> {
    status_text(
        "category"@,
        true,
        seq![":name"@, ":installed-sections"@, ":total-modules"@, ":active-modules"@],
        seq![
            quoted(name),
            decimal_text(category_installed(v)),
            decimal_text(category_total(v)),
            decimal_text(category_active(v)),
        ],
        true,
        ":sections"@,
        installed_section_texts(v, section_names, module_names, indent + 2, v.len() as int),
        indent,
    )
}

} // verus!
