//! The model of a section: whether it is installed, and which of its
//! modules are active, in their fixed order.
use vstd::prelude::*;

use crate::module::common::module_status_text;
use crate::station::components::{sum_counts, sum_prefix, BreakError};
use crate::terminalisp::station::{quoted, status_text};

verus! {

pub trait ModulesContained {
    const MODULES_CONTAINED: u16;
}

pub trait Installed {
    /// Whether the section was installed when it was built.
    spec fn is_installed(&self) -> bool;

    fn installed(&self) -> (r: bool)
        ensures
            r == self.is_installed(),
    ;
}

/// An active module counts one, an inactive one nothing.
pub open spec fn flag(b: bool) -> int {
    if b {
        1
    } else {
        0
    }
}

pub fn flag_of(b: bool) -> (r: u16)
    ensures
        r as int == flag(b),
{
    if b {
        1
    } else {
        0
    }
}

#[verifier::ext_equal]
pub struct SectionView {
    pub installed: bool,
    /// Whether each module is active, in the section's fixed order.
    pub modules: Seq<bool>,
}

impl SectionView {
    /// A section as it is built: every module active if installed, none otherwise.
    pub open spec fn fresh(installed: bool, n: nat) -> SectionView {
        SectionView { installed, modules: Seq::new(n, |i: int| installed) }
    }

    pub open spec fn counts(self) -> Seq<int> {
        self.modules.map_values(|b: bool| flag(b))
    }

    /// How many modules are active.
    pub open spec fn active(self) -> nat {
        sum_counts(self.counts()) as nat
    }

    /// How many modules the section holds.
    pub open spec fn total(self) -> nat {
        self.modules.len()
    }

    /// A section that is not installed has no active module.
    pub open spec fn well_formed(self) -> bool {
        !self.installed ==> self.active() == 0
    }

    pub open spec fn needs_repair(self) -> bool {
        self.installed && self.active() < self.total()
    }

    /// Whether the module at `i` is installed and broken.
    pub open spec fn module_repairable(self, i: int) -> bool {
        self.installed && !self.modules[i]
    }

    pub open spec fn powered_down(self) -> SectionView {
        SectionView {
            installed: self.installed,
            modules: Seq::new(self.modules.len(), |i: int| false),
        }
    }

    pub open spec fn broken_at(self, i: int) -> SectionView {
        SectionView { installed: self.installed, modules: self.modules.update(i, false) }
    }

    pub open spec fn repaired_at(self, i: int) -> SectionView {
        SectionView { installed: self.installed, modules: self.modules.update(i, true) }
    }

    /// The section after a request to repair the module at `slot`: repaired
    /// where it is installed and broken, unchanged otherwise.
    pub open spec fn repaired(self, slot: int) -> SectionView {
        if 0 <= slot < self.modules.len() && self.module_repairable(slot) {
            self.repaired_at(slot)
        } else {
            self
        }
    }
}

proof fn lemma_flag_prefix(s: Seq<bool>, n: int)
    requires
        0 <= n <= s.len(),
    ensures
        0 <= sum_prefix(s.map_values(|b: bool| flag(b)), n) <= n,
        (forall|i: int| 0 <= i < n ==> !s[i]) ==> sum_prefix(
            s.map_values(|b: bool| flag(b)),
            n,
        ) == 0,
    decreases n,
{
    if n > 0 {
        lemma_flag_prefix(s, n - 1);
    }
}

/// A section has at most as many active modules as it holds.
pub proof fn lemma_active_le_total(v: SectionView)
    ensures
        v.active() <= v.total(),
        v.active() == sum_counts(v.counts()),
{
    lemma_flag_prefix(v.modules, v.modules.len() as int);
}

/// A section whose modules are all inactive has no active module.
pub proof fn lemma_all_inactive(v: SectionView)
    requires
        forall|i: int| 0 <= i < v.modules.len() ==> !v.modules[i],
    ensures
        v.active() == 0,
{
    lemma_flag_prefix(v.modules, v.modules.len() as int);
}

/// Repairing a broken module of an installed section and then breaking that
/// same module gives back the section as it was.
pub proof fn lemma_repair_then_break(v: SectionView, i: int)
    requires
        0 <= i < v.modules.len(),
        v.module_repairable(i),
    ensures
        v.repaired(i).broken_at(i) == v,
{
    assert(v.repaired(i).broken_at(i) =~= v);
}

/// Powering a section down twice leaves it as powering it down once, with
/// no module active.
pub proof fn lemma_section_power_down_idempotent(v: SectionView)
    ensures
        v.powered_down().powered_down() == v.powered_down(),
        v.powered_down().active() == 0,
{
    assert(v.powered_down().powered_down() =~= v.powered_down());
    lemma_all_inactive(v.powered_down());
}

/// The status block of a section: its name, then its modules one by one.
pub open spec fn section_status_text(
    name: Seq<char>,
    module_names: Seq<Seq<char>>,
    v: SectionView,
    indent: nat,
) -> Seq<char> {
    status_text(
        "section"@,
        true,
        seq![":name"@],
        seq![quoted(name)],
        true,
        ":modules"@,
        Seq::new(
            v.modules.len(),
            |i: int| module_status_text(module_names[i], v.modules[i], indent + 2),
        ),
        indent,
    )
}

/// Breaking a section: an error where it is not installed, and nothing
/// changes; otherwise one of its modules, reported by name, is now inactive.
pub open spec fn section_break_outcome(
    before: SectionView,
    module_names: Seq<Seq<char>>,
    after: SectionView,
    outcome: Result<Seq<char>, BreakError>,
) -> bool {
    &&& after.installed == before.installed
    &&& after.modules.len() == before.modules.len()
    &&& match outcome {
        Err(e) => !before.installed && after == before && e == BreakError::NotInstalled,
        Ok(name) => before.installed && exists|i: int|
            0 <= i < before.modules.len() && after == #[trigger] before.broken_at(i) && name
                == module_names[i],
    }
}

} // verus!
