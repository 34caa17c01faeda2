//! Compile-time introspection code generator for record types.
//!
//! Given the shape of a type declaration (its name, its kind, and its ordered
//! field list), the library validates that the declaration is a record with
//! named fields, extracts the fields in declaration order, and synthesizes
//! source code for read-only introspection members: a static ordered list of
//! the field names, and an instance method that dumps each field as one
//! `name: value` line. Requested fragments are assembled into a single
//! augmentation for the type, with member-name collisions rejected.

use vstd::prelude::*;

pub mod assemble;
pub mod decl;
pub mod diag;
pub mod laws;
pub mod pipeline;
pub mod semantics;
pub mod synth;
pub mod validate;

verus! {

/// A record with zero fields is valid; only the kind decides record-ness.
pub open spec fn is_record(d: &decl::Declaration) -> bool {
    d.kind is Record
}

/// Whether every field of the declaration carries a name (tuple-style
/// fields do not).
pub open spec fn all_named(d: &decl::Declaration) -> bool {
    forall|i: int| 0 <= i < d.fields@.len() ==> (#[trigger] d.fields@[i]).name is Some
}

} // verus!
