//! Identifiers.

use vstd::prelude::*;

verus! {

/// A name as written in the source.
#[derive(Debug, PartialEq, Eq)]
pub struct Ident {
    name: String,
}

impl View for Ident {
    type V = Seq<char>;

    closed spec fn view(&self) -> Seq<char> {
        self.name@
    }
}

impl Ident {
    pub fn new(name: &str) -> (ident: Ident)
        ensures
            ident@ == name@,
    {
        Ident { name: String::from_str(name) }
    }

    pub fn as_str(&self) -> (name: &str)
        ensures
            name@ == self@,
    {
        self.name.as_str()
    }
}

impl Clone for Ident {
    fn clone(&self) -> (copy: Self)
        ensures
            copy == *self,
    {
        Ident { name: self.name.clone() }
    }
}

/// The texts of a sequence of identifiers.
pub open spec fn names_of(idents: Seq<Ident>) -> Seq<Seq<char>> {
    Seq::new(idents.len(), |i: int| idents[i]@)
}

} // verus!
