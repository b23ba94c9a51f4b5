//! The behaviour that every level of the station tree shares.
use vstd::prelude::*;

use crate::terminalisp::station::{decimal, decimal_text};

verus! {

/// The sum of the first `n` entries of `s`.
pub open spec fn sum_prefix(s: Seq<int>, n: int) -> int
    decreases n,
{
    if n <= 0 {
        0
    } else {
        sum_prefix(s, n - 1) + s[n - 1]
    }
}

/// A vector of counts, as integers.
pub open spec fn counts_view(v: Seq<u16>) -> Seq<int> {
    v.map_values(|x: u16| x as int)
}

/// The sum of all entries of `s`.
pub open spec fn sum_counts(s: Seq<int>) -> int {
    sum_prefix(s, s.len() as int)
}

/// A prefix sum never exceeds a longer prefix sum, and none is negative.
pub proof fn lemma_sum_prefix_monotone(s: Seq<int>, i: int, j: int)
    requires
        0 <= i <= j <= s.len(),
        forall|k: int| 0 <= k < s.len() ==> s[k] >= 0,
    ensures
        0 <= sum_prefix(s, i) <= sum_prefix(s, j),
    decreases j,
{
    if j > i {
        lemma_sum_prefix_monotone(s, i, j - 1);
    } else if i > 0 {
        lemma_sum_prefix_monotone(s, i - 1, i - 1);
    }
}

/// A sum of entries that are each no larger than those of another sequence
/// is no larger than its sum.
pub proof fn lemma_sum_le(a: Seq<int>, b: Seq<int>)
    requires
        a.len() == b.len(),
        forall|i: int| 0 <= i < a.len() ==> a[i] <= b[i],
    ensures
        sum_counts(a) <= sum_counts(b),
{
    lemma_sum_prefix_le(a, b, a.len() as int);
}

proof fn lemma_sum_prefix_le(a: Seq<int>, b: Seq<int>, n: int)
    requires
        a.len() == b.len(),
        0 <= n <= a.len(),
        forall|i: int| 0 <= i < a.len() ==> a[i] <= b[i],
    ensures
        sum_prefix(a, n) <= sum_prefix(b, n),
    decreases n,
{
    if n > 0 {
        lemma_sum_prefix_le(a, b, n - 1);
    }
}

pub trait Name {
    /// The text that `name` returns.
    spec fn name_view(&self) -> Seq<char>;

    fn name(&self) -> (r: String)
        ensures
            r@ == self.name_view(),
    ;
}

} // verus!

verus! {

/// Why breaking something did not break a module.
#[derive(Debug, Clone, Copy, PartialEq, Eq, Structural)]
pub enum BreakError {
    /// The part that was picked is not installed.
    NotInstalled,
}

/// The outcome of breaking something, with the name as text.
pub open spec fn outcome_view(r: Result<String, BreakError>) -> Result<Seq<char>, BreakError> {
    match r {
        Ok(name) => Ok(name@),
        Err(e) => Err(e),
    }
}

/// `name (active/total)`: how a part is offered for repair.
pub open spec fn repair_label(name: Seq<char>, active: nat, total: nat) -> Seq<char> {
    name + " ("@ + decimal_text(active) + "/"@ + decimal_text(total) + ")"@
}

pub trait ModuleCounts: Name {
    /// The cached counts agree with the parts below, which are well formed too.
    spec fn well_formed(&self) -> bool;

    /// How many modules this part counts: at a section all of its own, above
    /// that those of installed sections.
    spec fn total_count(&self) -> nat;

    /// How many of those modules are active.
    spec fn active_count(&self) -> nat;

    fn total_modules(&self) -> (r: u16)
        requires
            self.well_formed(),
        ensures
            r == self.total_count(),
    ;

    fn active_modules(&self) -> (r: u16)
        requires
            self.well_formed(),
        ensures
            r == self.active_count(),
    ;

    fn repair_display(&self) -> (r: String)
        requires
            self.well_formed(),
        ensures
            r@ == repair_label(self.name_view(), self.active_count(), self.total_count()),
    {
        let active = self.active_modules();
        let total = self.total_modules();
        let mut label = self.name();
        label.append(" (");
        label.append(decimal(active).as_str());
        label.append("/");
        label.append(decimal(total).as_str());
        label.append(")");
        label
    }
}

pub trait UpdateModules: ModuleCounts + View {
    /// The active-module counts of the parts one level down, in order.
    spec fn child_counts(&self) -> Seq<int>;

    /// Well formed but for the cached active count.
    spec fn counts_well_formed(&self) -> bool;

    fn active_module_counts(&self) -> (r: Vec<u16>)
        requires
            self.counts_well_formed(),
        ensures
            counts_view(r@) == self.child_counts(),
    ;

    fn update_active_modules(&mut self)
        requires
            old(self).counts_well_formed(),
        ensures
            final(self).well_formed(),
            final(self)@ == old(self)@,
    ;

    fn active_module_sum(&self) -> (r: u16)
        requires
            self.counts_well_formed(),
            sum_counts(self.child_counts()) <= u16::MAX,
        ensures
            r == sum_counts(self.child_counts()),
    {
        let counts = self.active_module_counts();
        let ghost s = counts_view(counts@);
        proof {
            lemma_sum_prefix_monotone(s, 0, s.len() as int);
        }
        let mut sum: u16 = 0;
        let mut i: usize = 0;
        while i < counts.len()
            invariant
                s == counts_view(counts@),
                0 <= i <= s.len(),
                sum == sum_prefix(s, i as int),
                sum_prefix(s, s.len() as int) <= u16::MAX,
            decreases s.len() - i,
        {
            proof {
                lemma_sum_prefix_monotone(s, i + 1, s.len() as int);
            }
            sum = sum + counts[i];
            i = i + 1;
        }
        sum
    }
}

pub trait Status: ModuleCounts {
    /// The text that `status` renders at `indent`.
    spec fn status_view(&self, indent: nat) -> Seq<char>;

    /// The deepest indent at which the parts below can still be rendered.
    spec fn indent_limit(&self) -> nat;

    fn status(&self, indent: u8) -> (r: String)
        requires
            self.well_formed(),
            indent <= self.indent_limit(),
        ensures
            r@ == self.status_view(indent as nat),
    ;
}

pub trait BreakSomething: ModuleCounts + View {
    /// Whether `after` is this part with one thing broken, reported as `outcome`.
    spec fn break_outcome(&self, after: Self::V, outcome: Result<Seq<char>, BreakError>) -> bool;

    /// Breaks a module picked at random; `Err` where the pick lands on
    /// something that is not installed.
    fn break_something(&mut self) -> (r: Result<String, BreakError>)
        requires
            old(self).well_formed(),
        ensures
            final(self).well_formed(),
            old(self).break_outcome(final(self)@, outcome_view(r)),
    ;
}

/// A part that can be picked for repair: its position and its label.
pub struct RepairOption {
    pub slot: usize,
    pub label: String,
}

/// The position and label of an option.
pub open spec fn option_view(o: RepairOption) -> (int, Seq<char>) {
    (o.slot as int, o.label@)
}

/// The options that `repair_options` offers among the first `n` parts.
pub open spec fn repair_choices(repairable: Seq<bool>, labels: Seq<Seq<char>>, n: int) -> Seq<
    (int, Seq<char>),
>
    decreases n,
{
    if n <= 0 {
        Seq::empty()
    } else if repairable[n - 1] {
        repair_choices(repairable, labels, n - 1).push((n - 1, labels[n - 1]))
    } else {
        repair_choices(repairable, labels, n - 1)
    }
}

pub trait Repair: ModuleCounts + View {
    /// Whether something below is installed and broken.
    spec fn is_repairable(&self) -> bool;

    /// How many parts there are one level down.
    spec fn slot_count(&self) -> nat;

    /// Whether the part at `slot` can be repaired.
    spec fn slot_repairable(&self, slot: int) -> bool;

    /// How the part at `slot` is offered for repair.
    spec fn slot_label(&self, slot: int) -> Seq<char>;

    fn repairable(&self) -> (r: bool)
        requires
            self.well_formed(),
        ensures
            r == self.is_repairable(),
    ;

    fn slots(&self) -> (r: usize)
        ensures
            r == self.slot_count(),
    ;

    fn slot_is_repairable(&self, slot: usize) -> (r: bool)
        requires
            self.well_formed(),
            slot < self.slot_count(),
        ensures
            r == self.slot_repairable(slot as int),
    ;

    fn slot_display(&self, slot: usize) -> (r: String)
        requires
            self.well_formed(),
            slot < self.slot_count(),
        ensures
            r@ == self.slot_label(slot as int),
    ;

    /// The parts one level down that can be repaired, in order, with their labels.
    fn repair_options(&self) -> (r: Vec<RepairOption>)
        requires
            self.well_formed(),
        ensures
            r@.map_values(|o: RepairOption| option_view(o)) == repair_choices(
                Seq::new(self.slot_count(), |i: int| self.slot_repairable(i)),
                Seq::new(self.slot_count(), |i: int| self.slot_label(i)),
                self.slot_count() as int,
            ),
    {
        let n = self.slots();
        let mut options: Vec<RepairOption> = Vec::new();
        let mut i: usize = 0;
        while i < n
            invariant
                n == self.slot_count(),
                0 <= i <= n,
                self.well_formed(),
                options@.map_values(|o: RepairOption| option_view(o)) == repair_choices(
                    Seq::new(self.slot_count(), |j: int| self.slot_repairable(j)),
                    Seq::new(self.slot_count(), |j: int| self.slot_label(j)),
                    i as int,
                ),
            decreases n - i,
        {
            if self.slot_is_repairable(i) {
                let label = self.slot_display(i);
                let ghost before = options@;
                options.push(RepairOption { slot: i, label });
                assert(options@.map_values(|o: RepairOption| option_view(o)) =~= before.map_values(
                    |o: RepairOption| option_view(o),
                ).push((i as int, self.slot_label(i as int))));
            }
            i = i + 1;
        }
        options
    }
}

pub trait PowerDown: ModuleCounts + View {
    /// The state that powering down leads to.
    spec fn powered_down_view(&self) -> Self::V;

    fn power_down(&mut self)
        requires
            old(self).well_formed(),
        ensures
            final(self).well_formed(),
            final(self)@ == old(self).powered_down_view(),
    ;
}

pub trait SectionCounts: ModuleCounts {
    /// How many sections there are below, installed or not.
    spec fn section_count(&self) -> nat;

    /// How many of them are installed.
    spec fn installed_section_count(&self) -> nat;

    fn total_sections(&self) -> (r: u16)
        requires
            self.well_formed(),
        ensures
            r == self.section_count(),
    ;

    fn installed_sections(&self) -> (r: u16)
        requires
            self.well_formed(),
        ensures
            r == self.installed_section_count(),
    ;
}

} // verus!
