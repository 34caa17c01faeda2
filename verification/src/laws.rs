//! Properties of a generation pass that hold beyond any single input:
//! the zero-field record, the line structure of the value dump, and the
//! dump's faithfulness to the values read at call time.

use vstd::prelude::*;
use crate::decl::Declaration;
use crate::pipeline::names_of;
use crate::semantics::{colon_space, dump_line, dump_of, nl};
use crate::validate::validates;

verus! {

/// A record with zero named fields is not an error: it validates, and its
/// name list is the empty sequence.
pub proof fn lemma_empty_record_valid(d: Declaration)
    requires
        d.kind is Record,
        d.fields@.len() == 0,
    ensures
        validates(&d),
        names_of(&d) == Seq::<Seq<char>>::empty(),
        dump_of(names_of(&d), Seq::empty()) == Seq::<char>::empty(),
{
    assert(names_of(&d) =~= Seq::<Seq<char>>::empty());
}

/// Whether a string holds no line terminator.
pub open spec fn nl_free(s: Seq<char>) -> bool {
    forall|i: int| 0 <= i < s.len() ==> s[i] != '\n'
}

/// How many line terminators a string holds.
pub open spec fn nl_count(s: Seq<char>) -> nat
    decreases s.len(),
{
    if s.len() == 0 {
        0
    } else {
        nl_count(s.drop_last()) + (if s.last() == '\n' {
            1nat
        } else {
            0nat
        })
    }
}

/// Line terminators are counted piecewise over a concatenation.
proof fn lemma_nl_count_add(a: Seq<char>, b: Seq<char>)
    ensures
        nl_count(a + b) == nl_count(a) + nl_count(b),
    decreases b.len(),
{
    if b.len() == 0 {
        assert(a + b =~= a);
    } else {
        assert((a + b).drop_last() =~= a + b.drop_last());
        lemma_nl_count_add(a, b.drop_last());
    }
}

/// A string without line terminators counts zero of them.
proof fn lemma_nl_free_count(s: Seq<char>)
    requires
        nl_free(s),
    ensures
        nl_count(s) == 0,
    decreases s.len(),
{
    if s.len() > 0 {
        lemma_nl_free_count(s.drop_last());
    }
}

/// One dump line of terminator-free name and value holds exactly one
/// terminator: the one that ends it.
proof fn lemma_dump_line_count(name: Seq<char>, repr: Seq<char>)
    requires
        nl_free(name),
        nl_free(repr),
    ensures
        nl_count(dump_line(name, repr)) == 1,
{
    lemma_nl_free_count(name);
    lemma_nl_free_count(colon_space());
    lemma_nl_free_count(repr);
    lemma_nl_count_add(name, colon_space());
    lemma_nl_count_add(name + colon_space(), repr);
    lemma_nl_count_add(name + colon_space() + repr, nl());
    assert(nl().drop_last() =~= Seq::<char>::empty());
    assert(nl_count(Seq::<char>::empty()) == 0);
    assert(nl().last() == '\n');
    assert(nl_count(nl()) == 1);
}

/// The value dump of a record with N fields holds exactly N lines: when no
/// field name and no value representation embeds a line terminator, the
/// dump holds exactly N of them, one ending each `name: value` line.
pub proof fn lemma_dump_line_structure(names: Seq<Seq<char>>, reprs: Seq<Seq<char>>)
    requires
        names.len() == reprs.len(),
        forall|i: int| 0 <= i < names.len() ==> nl_free(#[trigger] names[i]),
        forall|i: int| 0 <= i < reprs.len() ==> nl_free(#[trigger] reprs[i]),
    ensures
        nl_count(dump_of(names, reprs)) == names.len(),
    decreases names.len(),
{
    if names.len() > 0 {
        lemma_dump_line_structure(names.drop_last(), reprs.drop_last());
        lemma_dump_line_count(names.last(), reprs.last());
        lemma_nl_count_add(
            dump_of(names.drop_last(), reprs.drop_last()),
            dump_line(names.last(), reprs.last()),
        );
    }
}

/// A shared prefix cancels on the left of a concatenation.
proof fn lemma_prefix_cancel(p: Seq<char>, a: Seq<char>, b: Seq<char>)
    requires
        p + a == p + b,
    ensures
        a == b,
{
    assert(a =~= (p + a).skip(p.len() as int));
    assert(b =~= (p + b).skip(p.len() as int));
}

/// A terminator-free first line cancels: if two strings agree and each is
/// a terminator-free part, one terminator, and a rest, the parts and the
/// rests agree.
proof fn lemma_line_cancel(a: Seq<char>, x: Seq<char>, b: Seq<char>, y: Seq<char>)
    requires
        nl_free(a),
        nl_free(b),
        a + nl() + x == b + nl() + y,
    ensures
        a == b,
        x == y,
{
    let d = a + nl() + x;
    assert(d[a.len() as int] == '\n');
    assert(d[b.len() as int] == '\n');
    if a.len() < b.len() {
        assert(d[a.len() as int] == b[a.len() as int]);
        assert(false);
    }
    if b.len() < a.len() {
        assert(d[b.len() as int] == a[b.len() as int]);
        assert(false);
    }
    assert forall|i: int| 0 <= i < a.len() implies a[i] == b[i] by {
        assert(a[i] == (a + nl() + x)[i]);
        assert(b[i] == (b + nl() + y)[i]);
    }
    assert(a =~= b);
    assert(x =~= (a + nl() + x).skip(a.len() as int + 1));
    assert(y =~= (b + nl() + y).skip(b.len() as int + 1));
}

/// The dump decomposes at its first line.
proof fn lemma_dump_of_first(names: Seq<Seq<char>>, reprs: Seq<Seq<char>>)
    requires
        names.len() == reprs.len(),
        names.len() > 0,
    ensures
        dump_of(names, reprs) == dump_line(names[0], reprs[0]) + dump_of(
            names.drop_first(),
            reprs.drop_first(),
        ),
    decreases names.len(),
{
    if names.len() == 1 {
        assert(names.drop_last() =~= Seq::<Seq<char>>::empty());
        assert(reprs.drop_last() =~= Seq::<Seq<char>>::empty());
        assert(names.drop_first() =~= Seq::<Seq<char>>::empty());
        assert(reprs.drop_first() =~= Seq::<Seq<char>>::empty());
        assert(dump_of(names, reprs) =~= dump_line(names[0], reprs[0]) + dump_of(
            names.drop_first(),
            reprs.drop_first(),
        ));
    } else {
        let dn = names.drop_last();
        let dr = reprs.drop_last();
        lemma_dump_of_first(dn, dr);
        assert(dn.drop_first() =~= names.drop_first().drop_last());
        assert(dr.drop_first() =~= reprs.drop_first().drop_last());
        assert(names.drop_first().last() == names.last());
        assert(reprs.drop_first().last() == reprs.last());
        assert(dump_of(names, reprs) =~= dump_line(names[0], reprs[0]) + dump_of(
            names.drop_first(),
            reprs.drop_first(),
        ));
    }
}

/// A name, the separator, and a terminator-free value make a
/// terminator-free line body.
proof fn lemma_line_body_nl_free(name: Seq<char>, repr: Seq<char>)
    requires
        nl_free(name),
        nl_free(repr),
    ensures
        nl_free(name + colon_space() + repr),
{
}

/// The value dump reflects exactly the values read at the call: two calls
/// over the same record produce the same dump only when every field
/// formatted to the same representation, so a dump never shows a value the
/// instance did not hold at call time (names and representations free of
/// embedded line terminators).
pub proof fn lemma_dump_reflects_call_time_values(
    names: Seq<Seq<char>>,
    r1: Seq<Seq<char>>,
    r2: Seq<Seq<char>>,
)
    requires
        names.len() == r1.len(),
        names.len() == r2.len(),
        forall|i: int| 0 <= i < names.len() ==> nl_free(#[trigger] names[i]),
        forall|i: int| 0 <= i < r1.len() ==> nl_free(#[trigger] r1[i]),
        forall|i: int| 0 <= i < r2.len() ==> nl_free(#[trigger] r2[i]),
        dump_of(names, r1) == dump_of(names, r2),
    ensures
        r1 == r2,
    decreases names.len(),
{
    if names.len() == 0 {
        assert(r1 =~= r2);
    } else {
        lemma_dump_of_first(names, r1);
        lemma_dump_of_first(names, r2);
        let a = names[0] + colon_space() + r1[0];
        let b = names[0] + colon_space() + r2[0];
        lemma_line_body_nl_free(names[0], r1[0]);
        lemma_line_body_nl_free(names[0], r2[0]);
        assert(a + nl() + dump_of(names.drop_first(), r1.drop_first()) == b + nl() + dump_of(
            names.drop_first(),
            r2.drop_first(),
        ));
        lemma_line_cancel(
            a,
            dump_of(names.drop_first(), r1.drop_first()),
            b,
            dump_of(names.drop_first(), r2.drop_first()),
        );
        lemma_prefix_cancel(names[0] + colon_space(), r1[0], r2[0]);
        lemma_dump_reflects_call_time_values(names.drop_first(), r1.drop_first(), r2.drop_first());
        assert forall|i: int| 0 <= i < r1.len() implies r1[i] == r2[i] by {
            if i > 0 {
                assert(r1[i] == r1.drop_first()[i - 1]);
                assert(r2[i] == r2.drop_first()[i - 1]);
            }
        }
        assert(r1 =~= r2);
    }
}

} // verus!
