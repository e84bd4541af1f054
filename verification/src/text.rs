//! Fonts, known by the name of their family. Laying out and drawing text happens
//! outside this module.
use vstd::prelude::*;

verus! {

/// A font, known by the name of its family.
pub struct Font {
    name: String,
}

impl Font {
    /// The name of the font's family.
    pub closed spec fn name(self) -> Seq<char> {
        self.name@
    }

    /// The font of the family with the given name.
    pub fn from_str(name: &str) -> (f: Self)
        ensures
            f.name() == name@,
    {
        Self { name: name.to_owned() }
    }

    /// The name of the font's family.
    pub fn get_name(&self) -> (name: &str)
        ensures
            name@ == self.name(),
    {
        self.name.as_str()
    }
}

} // verus!
