//! Shape validation and field extraction: the front half of a generation
//! pass, turning an opaque declaration into a validated record snapshot.

use vstd::prelude::*;
use crate::decl::{Declaration, FieldDecl, FieldDescriptor, RecordDefinition};
use crate::diag::{Diagnostic, ErrorKind};

verus! {

/// Whether a successful validation is owed: the declaration is a record and
/// every field carries a name. A record with zero fields validates.
pub open spec fn validates(d: &Declaration) -> bool {
    crate::is_record(d) && crate::all_named(d)
}

/// The error kind validation owes a declaration it rejects: the kind is
/// checked before the fields.
pub open spec fn validation_error(d: &Declaration) -> ErrorKind {
    if !crate::is_record(d) {
        ErrorKind::ShapeError
    } else {
        ErrorKind::UnsupportedFieldsError
    }
}

/// Walks a validated field list into descriptors, one per field, in
/// declaration order, with no deduplication or reordering.
pub fn extract_fields(fields: &Vec<FieldDecl>) -> (r: Vec<FieldDescriptor>)
    requires
        forall|i: int| 0 <= i < fields@.len() ==> (#[trigger] fields@[i]).name is Some,
    ensures
        r@.len() == fields@.len(),
        forall|i: int| 0 <= i < r@.len()
            ==> (#[trigger] r@[i]).name@ == fields@[i].name->Some_0@,
        forall|i: int| 0 <= i < r@.len() ==> (#[trigger] r@[i]).declaration_index == i,
{
    let mut out: Vec<FieldDescriptor> = Vec::new();
    let mut i: usize = 0;
    while i < fields.len()
        invariant
            i <= fields@.len(),
            out@.len() == i,
            forall|k: int| 0 <= k < fields@.len() ==> (#[trigger] fields@[k]).name is Some,
            forall|k: int| 0 <= k < i as int
                ==> (#[trigger] out@[k]).name@ == fields@[k].name->Some_0@,
            forall|k: int| 0 <= k < i as int ==> (#[trigger] out@[k]).declaration_index == k,
        decreases fields@.len() - i,
    {
        let name = match &fields[i].name {
            Some(n) => n.clone(),
            None => unreached(),
        };
        out.push(FieldDescriptor { name, declaration_index: i });
        i = i + 1;
    }
    out
}

/// Confirms that the declaration is a record with named fields and takes
/// the one-pass snapshot of its shape. Rejects any other kind of
/// declaration with `ShapeError`, and a record with tuple-style fields
/// with `UnsupportedFieldsError`; the diagnostic carries the offending
/// type's name and the requesting derivation's name.
pub fn validate(d: &Declaration, derivation: &String) -> (r: Result<RecordDefinition, Diagnostic>)
    ensures
        r is Ok <==> validates(d),
        r matches Ok(rec) ==> {
            &&& rec.wf()
            &&& rec.ty_name@ == d.ty_name@
            &&& rec.fields@.len() == d.fields@.len()
            &&& forall|i: int| 0 <= i < d.fields@.len()
                ==> rec.names()[i] == (#[trigger] d.fields@[i]).name->Some_0@
        },
        r matches Err(e) ==> {
            &&& e.kind == validation_error(d)
            &&& e.ty_name@ == d.ty_name@
            &&& e.derivation@ == derivation@
        },
{
    let is_rec = match &d.kind {
        crate::decl::DeclKind::Record => true,
        crate::decl::DeclKind::Enum => false,
        crate::decl::DeclKind::Union => false,
    };
    if !is_rec {
        return Err(Diagnostic {
            kind: ErrorKind::ShapeError,
            ty_name: d.ty_name.clone(),
            derivation: derivation.clone(),
        });
    }
    let mut i: usize = 0;
    while i < d.fields.len()
        invariant
            d.kind is Record,
            i <= d.fields@.len(),
            forall|k: int| 0 <= k < i as int ==> (#[trigger] d.fields@[k]).name is Some,
        decreases d.fields@.len() - i,
    {
        if d.fields[i].name.is_none() {
            return Err(Diagnostic {
                kind: ErrorKind::UnsupportedFieldsError,
                ty_name: d.ty_name.clone(),
                derivation: derivation.clone(),
            });
        }
        i = i + 1;
    }
    let fields = extract_fields(&d.fields);
    Ok(RecordDefinition { ty_name: d.ty_name.clone(), fields })
}

} // verus!
