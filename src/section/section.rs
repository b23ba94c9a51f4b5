//! A section of the station as the single-level model knows it: a name
//! and whether it works.
use vstd::prelude::*;

verus! {

#[derive(Debug, Clone, Copy, PartialEq, Eq, Structural)]
pub enum SectionName {
    Antenna,
    AstroScience,
    Galley,
    NuclearGenerator,
    RadiationMirrors,
    Sleeping,
    Solar,
    Tracking,
    Transponder,
}

impl SectionName {
    /// The name as it is written.
    pub open spec fn text(self) -> Seq<char> {
        match self {
            SectionName::Antenna => "Antenna"@,
            SectionName::AstroScience => "AstroScience"@,
            SectionName::Galley => "Galley"@,
            SectionName::NuclearGenerator => "NuclearGenerator"@,
            SectionName::RadiationMirrors => "RadiationMirrors"@,
            SectionName::Sleeping => "Sleeping"@,
            SectionName::Solar => "Solar"@,
            SectionName::Tracking => "Tracking"@,
            SectionName::Transponder => "Transponder"@,
        }
    }

    pub fn as_str(&self) -> (r: &'static str)
        ensures
            r@ == self.text(),
    {
        match self {
            SectionName::Antenna => "Antenna",
            SectionName::AstroScience => "AstroScience",
            SectionName::Galley => "Galley",
            SectionName::NuclearGenerator => "NuclearGenerator",
            SectionName::RadiationMirrors => "RadiationMirrors",
            SectionName::Sleeping => "Sleeping",
            SectionName::Solar => "Solar",
            SectionName::Tracking => "Tracking",
            SectionName::Transponder => "Transponder",
        }
    }
}

/// The name at position `i` of the list above; the last one for any
/// position past its end.
pub(crate) fn section_name_at(i: u16) -> SectionName {
    match i {
        0 => SectionName::Antenna,
        1 => SectionName::AstroScience,
        2 => SectionName::Galley,
        3 => SectionName::NuclearGenerator,
        4 => SectionName::RadiationMirrors,
        5 => SectionName::Sleeping,
        6 => SectionName::Solar,
        7 => SectionName::Tracking,
        _ => SectionName::Transponder,
    }
}

#[derive(Debug, Clone, Copy, PartialEq, Eq, Structural)]
pub struct Section {
    pub name: SectionName,
    pub active: bool,
}

} // verus!
