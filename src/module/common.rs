//! What every module offers: it is active or not, it can be broken,
//! repaired and powered down, and it renders its own status.
use vstd::prelude::*;

use crate::station::components::Name;
use crate::terminalisp::station::{quote, quoted, status_text, texts};
use crate::terminalisp::station as tl_station;
use crate::terminalisp::symbols;

verus! {

pub trait Active: Name {
    /// Whether the module is working.
    spec fn is_active(&self) -> bool;

    fn active(&self) -> (r: bool)
        ensures
            r == self.is_active(),
    ;

    fn activate(&mut self)
        ensures
            final(self).is_active(),
            final(self).name_view() == old(self).name_view(),
    ;

    fn deactivate(&mut self)
        ensures
            !final(self).is_active(),
            final(self).name_view() == old(self).name_view(),
    ;
}

/// The one-line status block of a module.
pub open spec fn module_status_text(name: Seq<char>, active: bool, indent: nat) -> Seq<char> {
    status_text(
        "module"@,
        true,
        seq![":name"@, ":status"@],
        seq![quoted(name), if active { symbols::OK@ } else { symbols::INACTIVE@ }],
        false,
        ""@,
        Seq::empty(),
        indent,
    )
}

pub trait StatusModule: Active {
    fn status(&self, indent: u8) -> (r: String)
        ensures
            r@ == module_status_text(self.name_view(), self.is_active(), indent as nat),
    {
        let status = if self.active() {
            symbols::OK
        } else {
            symbols::INACTIVE
        };
        let keys = vec![String::from_str(":name"), String::from_str(":status")];
        let name = self.name();
        let values = vec![quote(name.as_str()), String::from_str(status)];
        let inner: Vec<String> = Vec::new();
        let r = tl_station::status(
            String::from_str("module"),
            true,
            keys,
            values,
            false,
            String::from_str(""),
            inner,
            indent,
        );
        proof {
            assert(texts(keys@) =~= seq![":name"@, ":status"@]);
            assert(texts(values@) =~= seq![
                quoted(self.name_view()),
                if self.is_active() { symbols::OK@ } else { symbols::INACTIVE@ },
            ]);
            assert(texts(inner@) =~= Seq::<Seq<char>>::empty());
        }
        r
    }
}

pub trait BreakModule: Active {
    /// Deactivates the module and returns its name.
    fn break_something(&mut self) -> (r: String)
        ensures
            !final(self).is_active(),
            final(self).name_view() == old(self).name_view(),
            r@ == old(self).name_view(),
    {
        self.deactivate();
        self.name()
    }
}

pub trait RepairModule: Active {
    fn repairable(&self) -> (r: bool)
        ensures
            r == !self.is_active(),
    {
        !self.active()
    }

    /// Activates the module and returns its name.
    fn repair(&mut self) -> (r: String)
        ensures
            final(self).is_active(),
            final(self).name_view() == old(self).name_view(),
            r@ == old(self).name_view(),
    {
        self.activate();
        self.name()
    }

    fn repair_display(&self) -> (r: String)
        ensures
            r@ == self.name_view(),
    {
        self.name()
    }
}

pub trait PowerDownModule: Active {
    fn power_down(&mut self)
        ensures
            !final(self).is_active(),
            final(self).name_view() == old(self).name_view(),
    {
        self.deactivate();
    }
}

} // verus!
