use struct_keys::decl::{DeclKind, Declaration, FieldDecl, RecordDefinition};
use struct_keys::diag::ErrorKind;
use struct_keys::pipeline::{
    derive_both_derivations, derive_struct_keys, derive_struct_keys_values,
};
use struct_keys::pipeline::{generate, Request, SynthKind};
use struct_keys::semantics::{name_list, value_dump};
use struct_keys::validate::validate;

fn named_field(name: &str, ty: &str) -> FieldDecl {
    FieldDecl { name: Some(name.to_string()), ty: ty.to_string() }
}

fn record(ty_name: &str, fields: Vec<FieldDecl>) -> Declaration {
    Declaration { ty_name: ty_name.to_string(), kind: DeclKind::Record, fields }
}

fn validated(d: &Declaration) -> RecordDefinition {
    validate(d, &"StructKeys".to_string()).expect("record should validate")
}

#[test]
fn name_list_in_declaration_order() {
    let d = record("Config", vec![
        named_field("host", "String"),
        named_field("port", "u16"),
        named_field("retries", "u8"),
    ]);
    let rec = validated(&d);
    let names = name_list(&rec);
    assert_eq!(names, vec!["host".to_string(), "port".to_string(), "retries".to_string()]);
    assert_eq!(names.len(), 3);
}

#[test]
fn name_list_is_stable_across_calls() {
    let d = record("Config", vec![named_field("a", "u8"), named_field("b", "u8")]);
    let rec = validated(&d);
    assert_eq!(name_list(&rec), name_list(&rec));
}

#[test]
fn empty_record_generates_empty_name_list() {
    let d = record("Unitish", vec![]);
    let r = derive_struct_keys(&d);
    assert!(r.is_ok());
    let rec = validated(&d);
    let names = name_list(&rec);
    assert!(names.is_empty());
    let code = r.unwrap().code;
    assert_eq!(
        code,
        "impl Unitish {\npub fn field_names() -> &'static [&'static str] {\n    \
         static NAMES: &'static [&'static str] = &[];\n    NAMES\n}\n}\n"
    );
}

#[test]
fn enum_declaration_is_a_shape_error() {
    let d = Declaration {
        ty_name: "Mode".to_string(),
        kind: DeclKind::Enum,
        fields: vec![],
    };
    let e = derive_struct_keys(&d).unwrap_err();
    assert!(matches!(e.kind, ErrorKind::ShapeError));
    assert_eq!(e.ty_name, "Mode");
    assert_eq!(e.message(), "StructKeys can only be derived for structs");
}

#[test]
fn union_declaration_is_a_shape_error() {
    let d = Declaration {
        ty_name: "Raw".to_string(),
        kind: DeclKind::Union,
        fields: vec![named_field("bits", "u32")],
    };
    let e = derive_struct_keys_values(&d).unwrap_err();
    assert!(matches!(e.kind, ErrorKind::ShapeError));
    assert_eq!(e.message(), "StructKeysValues can only be derived for structs");
}

#[test]
fn tuple_style_field_is_unsupported() {
    let d = record("Pair", vec![
        FieldDecl { name: None, ty: "u32".to_string() },
        FieldDecl { name: None, ty: "u32".to_string() },
    ]);
    let e = derive_struct_keys(&d).unwrap_err();
    assert!(matches!(e.kind, ErrorKind::UnsupportedFieldsError));
    assert_eq!(e.ty_name, "Pair");
    assert_eq!(e.message(), "StructKeys can only be derived for structs with named fields");
}

#[test]
fn one_unnamed_field_among_named_is_unsupported() {
    let d = record("Mixed", vec![
        named_field("ok", "bool"),
        FieldDecl { name: None, ty: "u32".to_string() },
    ]);
    let e = derive_struct_keys_values(&d).unwrap_err();
    assert!(matches!(e.kind, ErrorKind::UnsupportedFieldsError));
}

#[test]
fn value_dump_has_one_line_per_field() {
    let d = record("Config", vec![
        named_field("host", "String"),
        named_field("port", "u16"),
        named_field("retries", "u8"),
    ]);
    let rec = validated(&d);
    let reprs = vec!["\"db\"".to_string(), "5432".to_string(), "3".to_string()];
    let dump = value_dump(&rec, &reprs);
    assert_eq!(dump, "host: \"db\"\nport: 5432\nretries: 3\n");
    assert_eq!(dump.matches('\n').count(), 3);
    let lines: Vec<&str> = dump.lines().collect();
    assert_eq!(lines, vec!["host: \"db\"", "port: 5432", "retries: 3"]);
}

#[test]
fn value_dump_reflects_values_at_call_time() {
    let d = record("Counter", vec![named_field("count", "u64")]);
    let rec = validated(&d);
    let before = value_dump(&rec, &vec!["1".to_string()]);
    let after = value_dump(&rec, &vec!["2".to_string()]);
    assert_eq!(before, "count: 1\n");
    assert_eq!(after, "count: 2\n");
    assert_ne!(before, after);
}

#[test]
fn both_derivations_in_one_pass_collide() {
    let d = record("Point", vec![named_field("x", "i64"), named_field("y", "i64")]);
    let e = derive_both_derivations(&d).unwrap_err();
    assert!(matches!(e.kind, ErrorKind::CollisionError));
    assert_eq!(e.ty_name, "Point");
    assert!(e.message().ends_with("would define the same member twice"));
}

#[test]
fn shape_error_takes_precedence_over_collision() {
    let d = Declaration {
        ty_name: "Mode".to_string(),
        kind: DeclKind::Enum,
        fields: vec![],
    };
    let e = derive_both_derivations(&d).unwrap_err();
    assert!(matches!(e.kind, ErrorKind::ShapeError));
}

#[test]
fn point_example_with_distinct_member_names() {
    let d = record("Point", vec![named_field("x", "int"), named_field("y", "int")]);
    let a = derive_struct_keys_values(&d).expect("Point should validate");
    assert_eq!(a.ty_name, "Point");
    assert_eq!(a.members.len(), 2);
    assert_eq!(a.members[0].name, "field_names");
    assert_eq!(a.members[1].name, "fields_string");

    let rec = validated(&d);
    assert_eq!(name_list(&rec), vec!["x".to_string(), "y".to_string()]);
    let dump = value_dump(&rec, &vec!["1".to_string(), "2".to_string()]);
    assert_eq!(dump, "x: 1\ny: 2\n");
}

#[test]
fn generated_name_list_source_text() {
    let d = record("Point", vec![named_field("x", "i64"), named_field("y", "i64")]);
    let a = derive_struct_keys(&d).unwrap();
    assert_eq!(
        a.members[0].code,
        "pub fn field_names() -> &'static [&'static str] {\n    \
         static NAMES: &'static [&'static str] = &[\"x\", \"y\"];\n    NAMES\n}\n"
    );
    assert_eq!(a.code, format!("impl Point {{\n{}}}\n", a.members[0].code));
}

#[test]
fn generated_value_dump_source_text() {
    let d = record("Point", vec![named_field("x", "i64"), named_field("y", "i64")]);
    let a = derive_struct_keys_values(&d).unwrap();
    assert_eq!(
        a.members[1].code,
        "pub fn fields_string(&self) -> String {\n    let mut s = String::new();\n    \
         s.push_str(&format!(\"{}: {:?}\\n\", \"x\", &self.x));\n    \
         s.push_str(&format!(\"{}: {:?}\\n\", \"y\", &self.y));\n    s\n}\n"
    );
    assert_eq!(
        a.code,
        format!("impl Point {{\n{}{}}}\n", a.members[0].code, a.members[1].code)
    );
}

#[test]
fn field_descriptors_keep_declaration_indices() {
    let d = record("Triple", vec![
        named_field("first", "u8"),
        named_field("second", "u8"),
        named_field("third", "u8"),
    ]);
    let rec = validated(&d);
    for (i, f) in rec.fields.iter().enumerate() {
        assert_eq!(f.declaration_index, i);
    }
    assert_eq!(rec.ty_name, "Triple");
}

#[test]
fn custom_member_names_avoid_collision() {
    let d = record("Point", vec![named_field("x", "i64"), named_field("y", "i64")]);
    let requests = vec![
        Request { kind: SynthKind::NameList, member_name: "keys".to_string() },
        Request { kind: SynthKind::ValueDump, member_name: "dump".to_string() },
    ];
    let a = generate(&d, &"Custom".to_string(), &requests).unwrap();
    assert_eq!(a.members.len(), 2);
    assert_eq!(a.members[0].name, "keys");
    assert_eq!(a.members[1].name, "dump");
    assert!(a.members[0].code.starts_with("pub fn keys()"));
    assert!(a.members[1].code.starts_with("pub fn dump(&self)"));

    let colliding = vec![
        Request { kind: SynthKind::NameList, member_name: "meta".to_string() },
        Request { kind: SynthKind::ValueDump, member_name: "meta".to_string() },
    ];
    let e = generate(&d, &"Custom".to_string(), &colliding).unwrap_err();
    assert!(matches!(e.kind, ErrorKind::CollisionError));
    assert_eq!(e.derivation, "Custom");
    assert_eq!(e.message(), "Custom would define the same member twice");
}
