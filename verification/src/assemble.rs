//! The assembler: merges the requested synthesized members into one
//! augmentation for the type, rejecting member-name collisions.

use vstd::prelude::*;
use crate::diag::{Diagnostic, ErrorKind};
use crate::synth::Member;

verus! {

/// The augmentation a successful pass returns: the synthesized members and
/// their merged source text, attached to the originating type.
#[derive(Debug)]
pub struct Augmentation {
    /// The name of the type the augmentation is attached to.
    pub ty_name: String,
    /// The merged members, in request order.
    pub members: Vec<Member>,
    /// The source text of the whole augmentation.
    pub code: String,
}

/// Two requested members would put the same name on the type.
pub open spec fn has_collision(ms: Seq<Member>) -> bool {
    exists|i: int, j: int| 0 <= i < j < ms.len() && ms[i].name@ == ms[j].name@
}

/// The members' source texts, concatenated in request order.
pub open spec fn members_code(ms: Seq<Member>) -> Seq<char>
    decreases ms.len(),
{
    if ms.len() == 0 {
        Seq::empty()
    } else {
        members_code(ms.drop_last()) + ms.last().code@
    }
}

/// The source text of the whole augmentation: one implementation block on
/// the originating type holding every merged member.
pub open spec fn augmentation_code(ty_name: Seq<char>, ms: Seq<Member>) -> Seq<char> {
    "impl "@ + ty_name + " {\n"@ + members_code(ms) + "}\n"@
}

/// Appending one more member extends the merged text on the right.
proof fn lemma_members_code_push(ms: Seq<Member>, i: int)
    requires
        0 <= i < ms.len(),
    ensures
        members_code(ms.take(i + 1)) == members_code(ms.take(i)) + ms[i].code@,
{
    assert(ms.take(i + 1).drop_last() =~= ms.take(i));
    assert(ms.take(i + 1).last() == ms[i]);
}

/// Looks for two members that would define the same name on the type.
fn find_collision(members: &Vec<Member>) -> (r: bool)
    ensures
        r == has_collision(members@),
{
    let n = members.len();
    let mut i: usize = 0;
    while i < n
        invariant
            n == members@.len(),
            i <= n,
            forall|k: int, l: int|
                0 <= k < l < members@.len() && k < i as int ==> members@[k].name@ != members@[l].name@,
        decreases n - i,
    {
        let mut j: usize = i + 1;
        while j < n
            invariant
                n == members@.len(),
                i < n,
                i < j <= n,
                forall|l: int| i < l < j as int ==> members@[i as int].name@ != members@[l].name@,
            decreases n - j,
        {
            if members[i].name.eq(&members[j].name) {
                return true;
            }
            j = j + 1;
        }
        i = i + 1;
    }
    false
}

/// Merges the requested members into one augmentation for the type, or
/// fails with `CollisionError` when two members would introduce the same
/// name; no partial augmentation is ever produced.
pub fn assemble(ty_name: &String, members: Vec<Member>, derivation: &String) -> (r: Result<
    Augmentation,
    Diagnostic,
>)
    ensures
        r is Ok <==> !has_collision(members@),
        r matches Ok(a) ==> {
            &&& a.ty_name@ == ty_name@
            &&& a.members@ == members@
            &&& a.code@ == augmentation_code(ty_name@, members@)
        },
        r matches Err(e) ==> {
            &&& e.kind is CollisionError
            &&& e.ty_name@ == ty_name@
            &&& e.derivation@ == derivation@
        },
{
    if find_collision(&members) {
        return Err(Diagnostic {
            kind: ErrorKind::CollisionError,
            ty_name: ty_name.clone(),
            derivation: derivation.clone(),
        });
    }
    let mut code = String::from_str("impl ");
    code.append(ty_name.as_str());
    code.append(" {\n");
    assert(code@ =~= "impl "@ + ty_name@ + " {\n"@);
    let mut i: usize = 0;
    while i < members.len()
        invariant
            i <= members@.len(),
            code@ == "impl "@ + ty_name@ + " {\n"@ + members_code(members@.take(i as int)),
        decreases members@.len() - i,
    {
        code.append(members[i].code.as_str());
        proof {
            lemma_members_code_push(members@, i as int);
            assert(code@ =~= "impl "@ + ty_name@ + " {\n"@ + members_code(
                members@.take(i as int + 1),
            ));
        }
        i = i + 1;
    }
    proof {
        assert(members@.take(members@.len() as int) =~= members@);
    }
    code.append("}\n");
    Ok(Augmentation { ty_name: ty_name.clone(), members, code })
}

} // verus!
