//! Request identifiers.

use vstd::prelude::*;

verus! {

/// The mathematical value of a request identifier.
pub enum IdView {
    Null,
    Number(u64),
    Str(Seq<char>),
}

/// The identifier of a JSON-RPC request: `null`, a number or a string.
#[derive(Debug, Clone, PartialEq, Eq)]
pub enum Id {
    Null,
    Number(u64),
    Str(String),
}

impl View for Id {
    type V = IdView;

    open spec fn view(&self) -> IdView {
        match self {
            Id::Null => IdView::Null,
            Id::Number(n) => IdView::Number(*n),
            Id::Str(s) => IdView::Str(s@),
        }
    }
}

impl Id {
    /// A copy of the identifier with the same kind and the same contents.
    pub fn duplicate(&self) -> (out: Id)
        ensures
            out@ == self@,
    {
        match self {
            Id::Null => Id::Null,
            Id::Number(n) => Id::Number(*n),
            Id::Str(s) => Id::Str(s.clone()),
        }
    }
}

} // verus!
