//! Diagnostics: the single error object a failed generation pass returns.

use vstd::prelude::*;

verus! {

/// Why a generation pass failed.
#[derive(Debug)]
pub enum ErrorKind {
    /// The declaration is not a record (it is an enum or a union).
    ShapeError,
    /// The record's fields are unnamed (tuple-style).
    UnsupportedFieldsError,
    /// Two requested fragments would define the same member on the type.
    CollisionError,
}

/// The diagnostic a failed pass returns: the reason, the offending
/// declaration's identity, and the name of the requesting derivation.
#[derive(Debug)]
pub struct Diagnostic {
    pub kind: ErrorKind,
    /// The name of the type whose declaration was rejected.
    pub ty_name: String,
    /// The name of the derivation that was being generated.
    pub derivation: String,
}

/// The rendered text of a diagnostic with the given kind and derivation
/// name.
pub open spec fn message_spec(kind: ErrorKind, derivation: Seq<char>) -> Seq<char> {
    match kind {
        ErrorKind::ShapeError => derivation + " can only be derived for structs"@,
        ErrorKind::UnsupportedFieldsError => derivation
            + " can only be derived for structs with named fields"@,
        ErrorKind::CollisionError => derivation
            + " would define the same member twice"@,
    }
}

impl Diagnostic {
    /// The human-readable message the host renders as a compile error.
    pub fn message(&self) -> (r: String)
        ensures
            r@ == message_spec(self.kind, self.derivation@),
    {
        let mut s = self.derivation.clone();
        match self.kind {
            ErrorKind::ShapeError => {
                s.append(" can only be derived for structs");
            },
            ErrorKind::UnsupportedFieldsError => {
                s.append(" can only be derived for structs with named fields");
            },
            ErrorKind::CollisionError => {
                s.append(" would define the same member twice");
            },
        }
        s
    }
}

} // verus!
