//! The data model of one generation pass: the declaration handed in by the
//! host front end, and the validated record snapshot derived from it.

use vstd::prelude::*;

verus! {

/// The kind of a type declaration, as the host front end reports it.
#[derive(Debug)]
pub enum DeclKind {
    /// A structured type with an ordered field list.
    Record,
    /// A choice between variants.
    Enum,
    /// An overlapping layout.
    Union,
}

/// One field of an incoming declaration. A tuple-style (positional) field
/// has no name.
#[derive(Debug)]
pub struct FieldDecl {
    /// The field's identifier, absent for an unnamed field.
    pub name: Option<String>,
    /// The source text of the field's type, carried along unexamined.
    pub ty: String,
}

/// A type declaration as the host front end hands it in: name, kind, and
/// the fields in source order.
#[derive(Debug)]
pub struct Declaration {
    pub ty_name: String,
    pub kind: DeclKind,
    pub fields: Vec<FieldDecl>,
}

/// One field of a validated record, exactly as declared.
#[derive(Debug)]
pub struct FieldDescriptor {
    /// The field's identifier.
    pub name: String,
    /// The position of the field in the source declaration.
    pub declaration_index: usize,
}

/// A one-time snapshot of a record's shape, produced by validation and
/// consumed by the synthesizers. Field order equals source order.
#[derive(Debug)]
pub struct RecordDefinition {
    pub ty_name: String,
    pub fields: Vec<FieldDescriptor>,
}

impl RecordDefinition {
    /// The field names in declaration order.
    pub open spec fn names(self) -> Seq<Seq<char>> {
        self.fields@.map_values(|f: FieldDescriptor| f.name@)
    }

    /// Each descriptor records the position it was extracted from.
    pub open spec fn wf(self) -> bool {
        forall|i: int| 0 <= i < self.fields@.len()
            ==> (#[trigger] self.fields@[i]).declaration_index == i
    }
}

} // verus!
