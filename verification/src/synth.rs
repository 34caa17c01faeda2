//! The synthesizers: each turns a validated record snapshot into the source
//! text of one introspection member for the record's type.

use vstd::prelude::*;
use crate::decl::RecordDefinition;

verus! {

/// One synthesized member: its name on the type, and its source text.
#[derive(Debug)]
pub struct Member {
    pub name: String,
    pub code: String,
}

/// A field name wrapped in string-literal quotes.
pub open spec fn quoted(name: Seq<char>) -> Seq<char> {
    "\""@ + name + "\""@
}

/// The comma-separated list of quoted field names, in declaration order.
pub open spec fn quoted_list(names: Seq<Seq<char>>) -> Seq<char>
    decreases names.len(),
{
    if names.len() == 0 {
        Seq::empty()
    } else if names.len() == 1 {
        quoted(names[0])
    } else {
        quoted_list(names.drop_last()) + ", "@ + quoted(names.last())
    }
}

/// The opening of the synthesized name-list member: a no-argument,
/// type-scoped function over a list materialized once.
pub open spec fn name_list_header(member: Seq<char>) -> Seq<char> {
    "pub fn "@ + member + "() -> &'static [&'static str] {\n    static NAMES: &'static [&'static str] = &["@
}

/// The closing of the synthesized name-list member.
pub open spec fn name_list_footer() -> Seq<char> {
    "];\n    NAMES\n}\n"@
}

/// The full source text of the name-list member.
pub open spec fn name_list_code(member: Seq<char>, names: Seq<Seq<char>>) -> Seq<char> {
    name_list_header(member) + quoted_list(names) + name_list_footer()
}

/// Appending one more name extends the quoted list on the right.
proof fn lemma_quoted_list_push(names: Seq<Seq<char>>, i: int)
    requires
        0 <= i < names.len(),
    ensures
        i == 0 ==> quoted_list(names.take(1)) == quoted(names[0]),
        i > 0 ==> quoted_list(names.take(i + 1)) == quoted_list(names.take(i)) + ", "@ + quoted(
            names[i],
        ),
{
    if i == 0 {
        assert(names.take(1).len() == 1);
        assert(names.take(1)[0] == names[0]);
    } else {
        assert(names.take(i + 1).drop_last() =~= names.take(i));
        assert(names.take(i + 1).last() == names[i]);
    }
}

/// Emits the name-list member: a function returning a static, ordered,
/// immutable list of the record's field names, empty for a record with no
/// fields.
pub fn synth_name_list(rec: &RecordDefinition, member_name: &String) -> (m: Member)
    ensures
        m.name@ == member_name@,
        m.code@ == name_list_code(member_name@, rec.names()),
{
    let mut code = String::from_str("pub fn ");
    code.append(member_name.as_str());
    code.append("() -> &'static [&'static str] {\n    static NAMES: &'static [&'static str] = &[");
    assert(code@ =~= name_list_header(member_name@));
    let mut i: usize = 0;
    while i < rec.fields.len()
        invariant
            i <= rec.fields@.len(),
            code@ == name_list_header(member_name@) + quoted_list(rec.names().take(i as int)),
        decreases rec.fields@.len() - i,
    {
        if i > 0 {
            code.append(", ");
        }
        code.append("\"");
        code.append(rec.fields[i].name.as_str());
        code.append("\"");
        proof {
            lemma_quoted_list_push(rec.names(), i as int);
            assert(rec.names()[i as int] == rec.fields@[i as int].name@);
            assert(code@ =~= name_list_header(member_name@) + quoted_list(
                rec.names().take(i as int + 1),
            ));
        }
        i = i + 1;
    }
    proof {
        assert(rec.names().take(rec.fields@.len() as int) =~= rec.names());
    }
    code.append("];\n    NAMES\n}\n");
    Member { name: member_name.clone(), code }
}

/// The statement the value-dump member runs for one field: append the
/// field's name and its debug-formatted value as one line.
pub open spec fn dump_stmt(name: Seq<char>) -> Seq<char> {
    "    s.push_str(&format!(\"{}: {:?}\\n\", \""@ + name + "\", &self."@ + name + "));\n"@
}

/// The per-field statements of the value-dump member, in declaration order.
pub open spec fn dump_stmts(names: Seq<Seq<char>>) -> Seq<char>
    decreases names.len(),
{
    if names.len() == 0 {
        Seq::empty()
    } else {
        dump_stmts(names.drop_last()) + dump_stmt(names.last())
    }
}

/// The opening of the synthesized value-dump member: an instance method
/// building its string afresh on every call.
pub open spec fn dump_header(member: Seq<char>) -> Seq<char> {
    "pub fn "@ + member + "(&self) -> String {\n    let mut s = String::new();\n"@
}

/// The closing of the synthesized value-dump member.
pub open spec fn dump_footer() -> Seq<char> {
    "    s\n}\n"@
}

/// The full source text of the value-dump member.
pub open spec fn value_dump_code(member: Seq<char>, names: Seq<Seq<char>>) -> Seq<char> {
    dump_header(member) + dump_stmts(names) + dump_footer()
}

/// Appending one more name extends the statement list on the right.
proof fn lemma_dump_stmts_push(names: Seq<Seq<char>>, i: int)
    requires
        0 <= i < names.len(),
    ensures
        dump_stmts(names.take(i + 1)) == dump_stmts(names.take(i)) + dump_stmt(names[i]),
{
    assert(names.take(i + 1).drop_last() =~= names.take(i));
    assert(names.take(i + 1).last() == names[i]);
}

/// Emits the value-dump member: an instance method that, at call time,
/// concatenates one `name: value` line per field in declaration order,
/// delegating each value's text to the field type's own debug formatting.
pub fn synth_value_dump(rec: &RecordDefinition, member_name: &String) -> (m: Member)
    ensures
        m.name@ == member_name@,
        m.code@ == value_dump_code(member_name@, rec.names()),
{
    let mut code = String::from_str("pub fn ");
    code.append(member_name.as_str());
    code.append("(&self) -> String {\n    let mut s = String::new();\n");
    assert(code@ =~= dump_header(member_name@));
    let mut i: usize = 0;
    while i < rec.fields.len()
        invariant
            i <= rec.fields@.len(),
            code@ == dump_header(member_name@) + dump_stmts(rec.names().take(i as int)),
        decreases rec.fields@.len() - i,
    {
        code.append("    s.push_str(&format!(\"{}: {:?}\\n\", \"");
        code.append(rec.fields[i].name.as_str());
        code.append("\", &self.");
        code.append(rec.fields[i].name.as_str());
        code.append("));\n");
        proof {
            lemma_dump_stmts_push(rec.names(), i as int);
            assert(rec.names()[i as int] == rec.fields@[i as int].name@);
            assert(code@ =~= dump_header(member_name@) + dump_stmts(
                rec.names().take(i as int + 1),
            ));
        }
        i = i + 1;
    }
    proof {
        assert(rec.names().take(rec.fields@.len() as int) =~= rec.names());
    }
    code.append("    s\n}\n");
    Member { name: member_name.clone(), code }
}

} // verus!
