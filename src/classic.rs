//! The first station: a flat list of sections, each working or broken, that
//! fail one at a time until none is left.
use vstd::prelude::*;

use crate::chance;
use crate::section::section::{section_name_at, Section, SectionName};
use crate::terminalisp::station::{decimal, decimal_text, quote, quoted};

verus! {

#[derive(Debug, Clone, Copy, PartialEq, Eq, Structural)]
pub enum Name {
    Akira,
    California,
    Daedalus,
    Eisenberg,
    Intrepid,
    Miranda,
    Nova,
    Reliant,
    Sagan,
}

impl Name {
    pub open spec fn text(self) -> Seq<char> {
        match self {
            Name::Akira => "Akira"@,
            Name::California => "California"@,
            Name::Daedalus => "Daedalus"@,
            Name::Eisenberg => "Eisenberg"@,
            Name::Intrepid => "Intrepid"@,
            Name::Miranda => "Miranda"@,
            Name::Nova => "Nova"@,
            Name::Reliant => "Reliant"@,
            Name::Sagan => "Sagan"@,
        }
    }

    pub fn as_str(&self) -> (r: &'static str)
        ensures
            r@ == self.text(),
    {
        match self {
            Name::Akira => "Akira",
            Name::California => "California",
            Name::Daedalus => "Daedalus",
            Name::Eisenberg => "Eisenberg",
            Name::Intrepid => "Intrepid",
            Name::Miranda => "Miranda",
            Name::Nova => "Nova",
            Name::Reliant => "Reliant",
            Name::Sagan => "Sagan",
        }
    }
}

fn name_at(i: u16) -> Name {
    match i {
        0 => Name::Akira,
        1 => Name::California,
        2 => Name::Daedalus,
        3 => Name::Eisenberg,
        4 => Name::Intrepid,
        5 => Name::Miranda,
        6 => Name::Nova,
        7 => Name::Reliant,
        _ => Name::Sagan,
    }
}

/// How many of the first `n` sections work.
pub open spec fn working_count(s: Seq<Section>, n: int) -> nat
    decreases n,
{
    if n <= 0 {
        0
    } else {
        working_count(s, n - 1) + if s[n - 1].active {
            1nat
        } else {
            0nat
        }
    }
}

/// The names of those of the first `n` sections whose state is `active`, in order.
pub open spec fn names_where(s: Seq<Section>, active: bool, n: int) -> Seq<Seq<char>>
    decreases n,
{
    if n <= 0 {
        Seq::empty()
    } else if s[n - 1].active == active {
        names_where(s, active, n - 1).push(s[n - 1].name.text())
    } else {
        names_where(s, active, n - 1)
    }
}

/// Why a section could not be repaired.
#[derive(Debug, Clone, Copy, PartialEq, Eq, Structural)]
pub enum RepairError {
    /// No section has that name.
    NotFound,
}

pub struct Station {
    pub name: Name,
    pub version: u8,
    pub sections: Vec<Section>,
}

impl Station {
    /// A station with a random name and version and ten random sections.
    pub fn new() -> (r: Self)
        ensures
            r.sections@.len() == 10,
    {
        let name = name_at((chance::pick(9) - 1) as u16);
        let version: u8 = rand::random();
        let mut sections: Vec<Section> = Vec::new();
        let mut i: usize = 0;
        while i < 10
            invariant
                0 <= i <= 10,
                sections@.len() == i,
            decreases 10 - i,
        {
            let section_name = section_name_at((chance::pick(9) - 1) as u16);
            let active: bool = rand::random();
            sections.push(Section { name: section_name, active });
            i = i + 1;
        }
        Station { name, version, sections }
    }

    /// How many days are left: one for each working section.
    pub fn days_left(&self) -> (r: usize)
        ensures
            r == working_count(self.sections@, self.sections@.len() as int),
    {
        let mut count: usize = 0;
        let mut i: usize = 0;
        while i < self.sections.len()
            invariant
                0 <= i <= self.sections@.len(),
                count == working_count(self.sections@, i as int),
                count <= i,
            decreases self.sections@.len() - i,
        {
            if self.sections[i].active {
                count = count + 1;
            }
            i = i + 1;
        }
        count
    }

    fn sections_where(&self, active: bool) -> (r: Vec<String>)
        ensures
            r@.map_values(|s: String| s@) == names_where(
                self.sections@,
                active,
                self.sections@.len() as int,
            ),
    {
        let mut names: Vec<String> = Vec::new();
        let mut i: usize = 0;
        while i < self.sections.len()
            invariant
                0 <= i <= self.sections@.len(),
                names@.map_values(|s: String| s@) == names_where(self.sections@, active, i as int),
            decreases self.sections@.len() - i,
        {
            if self.sections[i].active == active {
                let ghost before = names@;
                names.push(String::from_str(self.sections[i].name.as_str()));
                assert(names@.map_values(|s: String| s@) =~= before.map_values(|s: String| s@).push(
                    self.sections@[i as int].name.text(),
                ));
            }
            i = i + 1;
        }
        names
    }

    /// The names of the working sections, in order.
    pub fn working_sections(&self) -> (r: Vec<String>)
        ensures
            r@.map_values(|s: String| s@) == names_where(
                self.sections@,
                true,
                self.sections@.len() as int,
            ),
    {
        self.sections_where(true)
    }

    /// The names of the broken sections, in order.
    pub fn broken_sections(&self) -> (r: Vec<String>)
        ensures
            r@.map_values(|s: String| s@) == names_where(
                self.sections@,
                false,
                self.sections@.len() as int,
            ),
    {
        self.sections_where(false)
    }

    /// A new day breaks a section picked at random.
    pub fn new_day(&mut self) -> (r: Option<SectionName>)
        ensures
            final(self).name == old(self).name,
            final(self).version == old(self).version,
            final(self).sections@.len() == old(self).sections@.len(),
            r is None ==> final(self).sections@ == old(self).sections@,
            r matches Some(n) ==> exists|i: int|
                0 <= i < old(self).sections@.len() && old(self).sections@[i].active
                    && #[trigger] old(self).sections@[i].name == n && final(self).sections@
                    == old(self).sections@.update(i, Section { name: n, active: false }),
    {
        self.break_something()
    }

    /// Breaks a section picked at random: where it works, it stops and its
    /// name comes back; where it is broken already, nothing happens.
    pub fn break_something(&mut self) -> (r: Option<SectionName>)
        ensures
            final(self).name == old(self).name,
            final(self).version == old(self).version,
            final(self).sections@.len() == old(self).sections@.len(),
            r is None ==> final(self).sections@ == old(self).sections@,
            r matches Some(n) ==> exists|i: int|
                0 <= i < old(self).sections@.len() && old(self).sections@[i].active
                    && #[trigger] old(self).sections@[i].name == n && final(self).sections@
                    == old(self).sections@.update(i, Section { name: n, active: false }),
    {
        let n = self.sections.len();
        if n == 0 {
            return None;
        }
        let index = chance::pick(n) - 1;
        let r = self.break_at(index);
        proof {
            if r is Some {
                assert(old(self).sections@[index as int].name == r->Some_0);
            }
        }
        r
    }

    /// Breaks the section at `index` where it works, and returns its name.
    pub fn break_at(&mut self, index: usize) -> (r: Option<SectionName>)
        requires
            index < old(self).sections@.len(),
        ensures
            final(self).name == old(self).name,
            final(self).version == old(self).version,
            old(self).sections@[index as int].active ==> r == Some(
                old(self).sections@[index as int].name,
            ) && final(self).sections@ == old(self).sections@.update(
                index as int,
                Section { name: old(self).sections@[index as int].name, active: false },
            ),
            !old(self).sections@[index as int].active ==> r is None && final(self).sections@
                == old(self).sections@,
    {
        let section = self.sections[index];
        if section.active {
            self.sections.set(index, Section { name: section.name, active: false });
            Some(section.name)
        } else {
            None
        }
    }

    /// Makes the first section named `name` work again.
    pub fn repair(&mut self, name: SectionName) -> (r: Result<(), RepairError>)
        ensures
            final(self).name == old(self).name,
            final(self).version == old(self).version,
            r is Err <==> forall|i: int|
                0 <= i < old(self).sections@.len() ==> #[trigger] old(self).sections@[i].name
                    != name,
            r is Err ==> final(self).sections@ == old(self).sections@,
            r is Ok ==> exists|i: int|
                0 <= i < old(self).sections@.len() && #[trigger] old(self).sections@[i].name == name
                    && (forall|j: int| 0 <= j < i ==> old(self).sections@[j].name != name)
                    && final(self).sections@ == old(self).sections@.update(
                    i,
                    Section { name, active: true },
                ),
    {
        let mut i: usize = 0;
        while i < self.sections.len()
            invariant
                0 <= i <= self.sections@.len(),
                self.sections@ == old(self).sections@,
                self.name == old(self).name,
                self.version == old(self).version,
                forall|j: int| 0 <= j < i ==> #[trigger] self.sections@[j].name != name,
            decreases self.sections@.len() - i,
        {
            if self.sections[i].name == name {
                self.sections.set(i, Section { name, active: true });
                assert(old(self).sections@[i as int].name == name);
                return Ok(());
            }
            i = i + 1;
        }
        Err(RepairError::NotFound)
    }

    /// The title of the station log: `Station "name" vversion`.
    pub fn log_header(&self) -> (r: String)
        ensures
            r@ == "Station "@ + quoted(self.name.text()) + " v"@ + decimal_text(
                self.version as nat,
            ),
    {
        let mut r = String::from_str("Station ");
        r.append(quote(self.name.as_str()).as_str());
        r.append(" v");
        r.append(decimal(self.version as u16).as_str());
        r
    }
}

/// Science breaks something too.
pub fn science(station: &mut Station) -> (r: Option<SectionName>)
    ensures
        final(station).sections@.len() == old(station).sections@.len(),
        r is None ==> final(station).sections@ == old(station).sections@,
        r matches Some(n) ==> exists|i: int|
            0 <= i < old(station).sections@.len() && old(station).sections@[i].active
                && #[trigger] old(station).sections@[i].name == n && final(station).sections@
                == old(station).sections@.update(i, Section { name: n, active: false }),
{
    station.break_something()
}

} // verus!
