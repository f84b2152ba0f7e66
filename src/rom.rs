use vstd::prelude::*;
use crate::paths::{file_stem, file_stem_of};

verus! {

/// What a ROM is, mathematically: its display label and its location.
pub struct RomV {
    pub name: Seq<char>,
    pub path: Seq<char>,
}

/// A ROM file: a label derived from the file's base name, and its path.
/// Two ROMs are the same ROM when their paths are equal.
pub struct Rom {
    name: String,
    path: String,
}

impl View for Rom {
    type V = RomV;

    closed spec fn view(&self) -> RomV {
        RomV { name: self.name@, path: self.path@ }
    }
}

impl Clone for Rom {
    fn clone(&self) -> (r: Self)
        ensures
            r == *self,
    {
        Rom { name: self.name.clone(), path: self.path.clone() }
    }
}

impl PartialEq for Rom {
    fn eq(&self, other: &Rom) -> (r: bool) {
        self.same_path(other)
    }
}

impl vstd::std_specs::cmp::PartialEqSpecImpl for Rom {
    open spec fn obeys_eq_spec() -> bool {
        true
    }

    open spec fn eq_spec(&self, other: &Rom) -> bool {
        self@.path == other@.path
    }
}

impl Rom {
    /// The ROM at `path`, labelled with the path's file stem; `None` where the
    /// path has no file stem.
    pub fn new(path: &str) -> (r: Option<Rom>)
        ensures
            match file_stem_of(path@) {
                Some(stem) => r matches Some(rom) && rom@ == (RomV { name: stem, path: path@ }),
                None => r is None,
            },
    {
        match file_stem(path) {
            Some(name) => Some(Rom { name, path: path.to_owned() }),
            None => None,
        }
    }

    /// A ROM as it was saved: label and path as given.
    pub fn from_saved(name: String, path: String) -> (r: Rom)
        ensures
            r@ == (RomV { name: name@, path: path@ }),
    {
        Rom { name, path }
    }

    /// Whether `self` and `other` are the same ROM.
    pub fn same_path(&self, other: &Rom) -> (r: bool)
        ensures
            r == (self@.path == other@.path),
    {
        self.path == other.path
    }

    pub fn get_path(&self) -> (r: &str)
        ensures
            r@ == self@.path,
    {
        self.path.as_str()
    }

    pub fn name(&self) -> (r: &str)
        ensures
            r@ == self@.name,
    {
        self.name.as_str()
    }
}

} // verus!
