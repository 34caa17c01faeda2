//! The behavior of the synthesized members, stated and proved over the
//! record snapshot itself: what the name-list member returns, and what the
//! value-dump member builds from the field values it reads at call time.

use vstd::prelude::*;
use crate::decl::RecordDefinition;

verus! {

/// The separator between a field's name and its value in one dump line.
pub open spec fn colon_space() -> Seq<char> {
    seq![':', ' ']
}

/// The line terminator of one dump line.
pub open spec fn nl() -> Seq<char> {
    seq!['\n']
}

/// One line of the value dump: the field's name, the separator, the
/// value's textual representation, and the terminator.
pub open spec fn dump_line(name: Seq<char>, repr: Seq<char>) -> Seq<char> {
    name + colon_space() + repr + nl()
}

/// The whole value dump: one line per field, in declaration order.
pub open spec fn dump_of(names: Seq<Seq<char>>, reprs: Seq<Seq<char>>) -> Seq<char>
    decreases names.len(),
{
    if names.len() == 0 {
        Seq::empty()
    } else {
        dump_of(names.drop_last(), reprs.drop_last()) + dump_line(names.last(), reprs.last())
    }
}

/// The views of a vector of strings.
pub open spec fn views_of(ss: Seq<String>) -> Seq<Seq<char>> {
    ss.map_values(|s: String| s@)
}

/// What the synthesized name-list member returns: the record's field
/// names, in declaration order, identical on every call — an empty list
/// for a record with no fields.
pub fn name_list(rec: &RecordDefinition) -> (r: Vec<String>)
    ensures
        views_of(r@) == rec.names(),
        r@.len() == rec.fields@.len(),
{
    let mut out: Vec<String> = Vec::new();
    let mut i: usize = 0;
    while i < rec.fields.len()
        invariant
            i <= rec.fields@.len(),
            out@.len() == i,
            forall|k: int| 0 <= k < i as int ==> (#[trigger] out@[k])@ == rec.fields@[k].name@,
        decreases rec.fields@.len() - i,
    {
        out.push(rec.fields[i].name.clone());
        i = i + 1;
    }
    proof {
        assert(views_of(out@) =~= rec.names());
    }
    out
}

/// Appending one more field extends the dump on the right.
proof fn lemma_dump_of_push(names: Seq<Seq<char>>, reprs: Seq<Seq<char>>, i: int)
    requires
        0 <= i < names.len(),
        names.len() == reprs.len(),
    ensures
        dump_of(names.take(i + 1), reprs.take(i + 1)) == dump_of(names.take(i), reprs.take(i))
            + dump_line(names[i], reprs[i]),
{
    assert(names.take(i + 1).drop_last() =~= names.take(i));
    assert(reprs.take(i + 1).drop_last() =~= reprs.take(i));
}

/// What the synthesized value-dump member returns at call time, given the
/// textual representation each field's value formats to at that moment:
/// one `name: repr` line per field, in declaration order, built afresh on
/// every call and never cached.
pub fn value_dump(rec: &RecordDefinition, reprs: &Vec<String>) -> (r: String)
    requires
        reprs@.len() == rec.fields@.len(),
    ensures
        r@ == dump_of(rec.names(), views_of(reprs@)),
{
    let mut s = String::new();
    let mut i: usize = 0;
    while i < rec.fields.len()
        invariant
            i <= rec.fields@.len(),
            reprs@.len() == rec.fields@.len(),
            s@ == dump_of(rec.names().take(i as int), views_of(reprs@).take(i as int)),
        decreases rec.fields@.len() - i,
    {
        s.append(rec.fields[i].name.as_str());
        s.append(": ");
        s.append(reprs[i].as_str());
        s.append("\n");
        proof {
            reveal_strlit(": ");
            reveal_strlit("\n");
            assert(": "@ =~= colon_space());
            assert("\n"@ =~= nl());
            lemma_dump_of_push(rec.names(), views_of(reprs@), i as int);
            assert(s@ =~= dump_of(
                rec.names().take(i as int + 1),
                views_of(reprs@).take(i as int + 1),
            ));
        }
        i = i + 1;
    }
    proof {
        assert(rec.names().take(rec.fields@.len() as int) =~= rec.names());
        assert(views_of(reprs@).take(rec.fields@.len() as int) =~= views_of(reprs@));
    }
    s
}

} // verus!
