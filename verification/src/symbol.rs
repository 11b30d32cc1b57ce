//! The names of the attribute arguments that the generator knows.

use crate::ast::Path;
use vstd::prelude::*;
use vstd::std_specs::cmp::PartialEqSpecImpl;
use vstd::string::*;

verus! {

/// A keyword of the attribute language, comparable with a [`Path`].
#[derive(Copy, Clone)]
pub struct Symbol(pub &'static str);

/// The argument that names the protobuf type.
pub fn src() -> (word: Symbol)
    ensures
        word@ == "src"@,
{
    Symbol("src")
}

/// The argument that names the message wrapping the protobuf type.
pub fn wrapper() -> (word: Symbol)
    ensures
        word@ == "wrapper"@,
{
    Symbol("wrapper")
}

impl View for Symbol {
    type V = Seq<char>;

    open spec fn view(&self) -> Seq<char> {
        self.0@
    }
}

impl Symbol {
    /// The keyword as text.
    pub fn to_string(&self) -> (text: String)
        ensures
            text@ == self@,
    {
        String::from_str(self.0)
    }
}

impl PartialEq<Symbol> for Path {
    /// A path equals a keyword when it is that single identifier.
    fn eq(&self, word: &Symbol) -> (same: bool) {
        self.is_ident(word.0)
    }
}

impl PartialEqSpecImpl<Symbol> for Path {
    open spec fn obeys_eq_spec() -> bool {
        true
    }

    open spec fn eq_spec(&self, word: &Symbol) -> bool {
        self@.is_ident(word@)
    }
}

} // verus!
