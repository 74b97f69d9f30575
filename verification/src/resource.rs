//! Naming of loadable resources.

use vstd::prelude::*;

verus! {

/// Names a resource a sprite wants loaded.
#[derive(PartialEq, Eq, Debug)]
pub enum Identifier {
    /// An image file, by its path.
    Image(String),
}

impl Identifier {
    /// The file name the identifier names.
    pub open spec fn spec_name(&self) -> Seq<char> {
        match self {
            Identifier::Image(s) => s@,
        }
    }
}

impl Clone for Identifier {
    fn clone(&self) -> (r: Self)
        ensures
            r == *self,
    {
        match self {
            Identifier::Image(s) => Identifier::Image(s.clone()),
        }
    }
}

} // verus!
