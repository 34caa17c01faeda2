//! One generation pass: Validate, Extract, Synthesize (one or more),
//! Assemble. Every pass is terminal: it returns one augmentation or one
//! diagnostic, never both and never a partial result.

use vstd::prelude::*;
use crate::assemble::{assemble, augmentation_code, has_collision, Augmentation};
use crate::decl::{Declaration, FieldDecl};
use crate::diag::{Diagnostic, ErrorKind};
use crate::synth::{name_list_code, synth_name_list, synth_value_dump, value_dump_code, Member};
use crate::validate::{validate, validates, validation_error};

verus! {

/// Which member a request asks a synthesizer for.
#[derive(Debug)]
pub enum SynthKind {
    /// The static ordered list of field names.
    NameList,
    /// The instance method dumping each field as one `name: value` line.
    ValueDump,
}

/// One requested fragment: the synthesizer to run and the name the
/// resulting member gets on the type.
#[derive(Debug)]
pub struct Request {
    pub kind: SynthKind,
    pub member_name: String,
}

/// The field names of a declaration whose fields all carry one, in
/// declaration order.
pub open spec fn names_of(d: &Declaration) -> Seq<Seq<char>> {
    d.fields@.map_values(|f: FieldDecl| f.name->Some_0@)
}

/// Two requests would put the same member name on the type.
pub open spec fn requests_collide(rs: Seq<Request>) -> bool {
    exists|i: int, j: int| 0 <= i < j < rs.len() && rs[i].member_name@ == rs[j].member_name@
}

/// The source text a request synthesizes for a record with these field
/// names.
pub open spec fn fragment_code(req: Request, names: Seq<Seq<char>>) -> Seq<char> {
    match req.kind {
        SynthKind::NameList => name_list_code(req.member_name@, names),
        SynthKind::ValueDump => value_dump_code(req.member_name@, names),
    }
}

/// The one diagnostic a failing pass owes: the shape is checked before the
/// fields, and the fields before member collisions.
pub open spec fn generate_error(d: &Declaration) -> ErrorKind {
    if !validates(d) {
        validation_error(d)
    } else {
        ErrorKind::CollisionError
    }
}

/// Runs one full generation pass over a declaration: validates its shape,
/// extracts the fields, synthesizes every requested member, and assembles
/// them into one augmentation. Succeeds exactly when the declaration is a
/// record with named fields and the requested member names are pairwise
/// distinct.
pub fn generate(d: &Declaration, derivation: &String, requests: &Vec<Request>) -> (r: Result<
    Augmentation,
    Diagnostic,
>)
    ensures
        r is Ok <==> validates(d) && !requests_collide(requests@),
        r matches Ok(a) ==> {
            &&& a.ty_name@ == d.ty_name@
            &&& a.members@.len() == requests@.len()
            &&& forall|i: int| 0 <= i < requests@.len()
                ==> (#[trigger] a.members@[i]).name@ == requests@[i].member_name@
            &&& forall|i: int| 0 <= i < requests@.len()
                ==> (#[trigger] a.members@[i]).code@ == fragment_code(requests@[i], names_of(d))
            &&& a.code@ == augmentation_code(d.ty_name@, a.members@)
        },
        r matches Err(e) ==> {
            &&& e.kind == generate_error(d)
            &&& e.ty_name@ == d.ty_name@
            &&& e.derivation@ == derivation@
        },
{
    let rec = match validate(d, derivation) {
        Ok(rec) => rec,
        Err(e) => {
            return Err(e);
        },
    };
    proof {
        assert(rec.names() =~= names_of(d));
    }
    let mut members: Vec<Member> = Vec::new();
    let mut i: usize = 0;
    while i < requests.len()
        invariant
            i <= requests@.len(),
            members@.len() == i,
            rec.names() == names_of(d),
            forall|k: int| 0 <= k < i as int
                ==> (#[trigger] members@[k]).name@ == requests@[k].member_name@,
            forall|k: int| 0 <= k < i as int
                ==> (#[trigger] members@[k]).code@ == fragment_code(requests@[k], names_of(d)),
        decreases requests@.len() - i,
    {
        let m = match &requests[i].kind {
            SynthKind::NameList => synth_name_list(&rec, &requests[i].member_name),
            SynthKind::ValueDump => synth_value_dump(&rec, &requests[i].member_name),
        };
        members.push(m);
        i = i + 1;
    }
    proof {
        if has_collision(members@) {
            let (i, j) = choose|i: int, j: int|
                0 <= i < j < members@.len() && members@[i].name@ == members@[j].name@;
            assert(requests@[i].member_name@ == requests@[j].member_name@);
            assert(requests_collide(requests@));
        }
        if requests_collide(requests@) {
            let (i, j) = choose|i: int, j: int|
                0 <= i < j < requests@.len() && requests@[i].member_name@ == requests@[j].member_name@;
            assert(members@[i].name@ == members@[j].name@);
            assert(has_collision(members@));
        }
    }
    assemble(&d.ty_name, members, derivation)
}

/// The requests of the name-list-only derivation.
pub fn struct_keys_requests() -> (r: Vec<Request>)
    ensures
        r@.len() == 1,
        r@[0].kind is NameList,
        r@[0].member_name@ == "field_names"@,
{
    let mut v: Vec<Request> = Vec::new();
    v.push(Request { kind: SynthKind::NameList, member_name: String::from_str("field_names") });
    v
}

/// The requests of the name-list-plus-value-dump derivation.
pub fn struct_keys_values_requests() -> (r: Vec<Request>)
    ensures
        r@.len() == 2,
        r@[0].kind is NameList,
        r@[0].member_name@ == "field_names"@,
        r@[1].kind is ValueDump,
        r@[1].member_name@ == "fields_string"@,
{
    let mut v: Vec<Request> = Vec::new();
    v.push(Request { kind: SynthKind::NameList, member_name: String::from_str("field_names") });
    v.push(Request { kind: SynthKind::ValueDump, member_name: String::from_str("fields_string") });
    v
}

/// The name-list-only derivation: augments a record with `field_names`.
/// Succeeds exactly on records with named fields, a zero-field record
/// included.
pub fn derive_struct_keys(d: &Declaration) -> (r: Result<Augmentation, Diagnostic>)
    ensures
        r is Ok <==> validates(d),
        r matches Ok(a) ==> {
            &&& a.ty_name@ == d.ty_name@
            &&& a.members@.len() == 1
            &&& a.members@[0].name@ == "field_names"@
            &&& a.members@[0].code@ == name_list_code("field_names"@, names_of(d))
            &&& a.code@ == augmentation_code(d.ty_name@, a.members@)
        },
        r matches Err(e) ==> {
            &&& e.kind == validation_error(d)
            &&& e.ty_name@ == d.ty_name@
            &&& e.derivation@ == "StructKeys"@
        },
{
    let derivation = String::from_str("StructKeys");
    let requests = struct_keys_requests();
    generate(d, &derivation, &requests)
}

/// The name-list-plus-value-dump derivation: augments a record with
/// `field_names` and `fields_string`, whose names never collide.
pub fn derive_struct_keys_values(d: &Declaration) -> (r: Result<Augmentation, Diagnostic>)
    ensures
        r is Ok <==> validates(d),
        r matches Ok(a) ==> {
            &&& a.ty_name@ == d.ty_name@
            &&& a.members@.len() == 2
            &&& a.members@[0].name@ == "field_names"@
            &&& a.members@[0].code@ == name_list_code("field_names"@, names_of(d))
            &&& a.members@[1].name@ == "fields_string"@
            &&& a.members@[1].code@ == value_dump_code("fields_string"@, names_of(d))
            &&& a.code@ == augmentation_code(d.ty_name@, a.members@)
        },
        r matches Err(e) ==> {
            &&& e.kind == validation_error(d)
            &&& e.ty_name@ == d.ty_name@
            &&& e.derivation@ == "StructKeysValues"@
        },
{
    let derivation = String::from_str("StructKeysValues");
    let requests = struct_keys_values_requests();
    proof {
        reveal_strlit("field_names");
        reveal_strlit("fields_string");
        assert("field_names"@.len() != "fields_string"@.len());
        assert(!requests_collide(requests@));
    }
    generate(d, &derivation, &requests)
}

/// Requesting the name-list-only derivation and the name-list-plus-value-
/// dump derivation together in one pass always fails: both would define
/// `field_names` on the type, so a record with named fields is rejected
/// with `CollisionError` rather than silently shadowing one definition.
pub fn derive_both_derivations(d: &Declaration) -> (r: Result<Augmentation, Diagnostic>)
    ensures
        r is Err,
        r matches Err(e) ==> {
            &&& validates(d) ==> e.kind is CollisionError
            &&& !validates(d) ==> e.kind == validation_error(d)
            &&& e.ty_name@ == d.ty_name@
        },
{
    let derivation = String::from_str("StructKeys+StructKeysValues");
    let mut requests = struct_keys_requests();
    let mut more = struct_keys_values_requests();
    requests.append(&mut more);
    proof {
        assert(requests@[0].member_name@ == requests@[1].member_name@);
        assert(requests_collide(requests@));
    }
    generate(d, &derivation, &requests)
}

} // verus!
