use lucene_query_builder::fields::{FieldDescriptor, FieldKind, FieldTable, RegistrationError};
use lucene_query_builder::query::{LuceneQueryBuilder, Operator, QueryString};
use lucene_query_builder::text::{char_is_whitespace, contains_whitespace, escape_spaces};

fn table() -> FieldTable {
    FieldTable::new(vec![
        FieldDescriptor::scalar("last_name", "patronymic"),
        FieldDescriptor::scalar("age", "age"),
        FieldDescriptor::ignored("ignored"),
    ])
    .expect("no collision")
}

fn collision_name(fields: Vec<FieldDescriptor>) -> String {
    match FieldTable::new(fields) {
        Ok(_) => panic!("expected a collision"),
        Err(RegistrationError::Collision(name)) => name,
    }
}

#[test]
fn empty_builder_builds_bare_prefix() {
    assert_eq!(LuceneQueryBuilder::new().build(), "query=");
    assert_eq!(LuceneQueryBuilder::new().build_escaped(), "query=");
    assert_eq!(LuceneQueryBuilder::new().to_string_query(), "");
}

#[test]
fn or_of_two_values_with_quoting() {
    let q = LuceneQueryBuilder::new()
        .set_field("F", "a b")
        .or()
        .set_field("F", "c")
        .build();
    assert_eq!(q, "query=F:\"a b\" OR F:c");
}

#[test]
fn any_whitespace_triggers_quotes() {
    assert_eq!(
        LuceneQueryBuilder::new().set_field("F", "a\tb").build(),
        "query=F:\"a\tb\""
    );
    assert_eq!(
        LuceneQueryBuilder::new().set_field("F", "a\u{3000}b").build(),
        "query=F:\"a\u{3000}b\""
    );
    assert_eq!(LuceneQueryBuilder::new().set_field("F", "a-b").build(), "query=F:a-b");
    assert_eq!(LuceneQueryBuilder::new().set_field("F", "").build(), "query=F:");
}

#[test]
fn query_string_renders_quoted_or_verbatim() {
    assert_eq!(QueryString("Uncle Bob".to_string()).render(), "\"Uncle Bob\"");
    assert_eq!(QueryString("Bob".to_string()).render(), "Bob");
}

#[test]
fn operator_renders_separator() {
    assert_eq!(Operator::Or.render(), " OR ");
    assert_eq!(Operator::And.render(), " AND ");
    assert_eq!(Operator::End.render(), "");
}

#[test]
fn whitespace_helpers() {
    assert!(char_is_whitespace(' '));
    assert!(char_is_whitespace('\n'));
    assert!(char_is_whitespace('\u{a0}'));
    assert!(!char_is_whitespace('x'));
    assert!(contains_whitespace("a b"));
    assert!(!contains_whitespace("ab"));
    assert!(!contains_whitespace(""));
}

#[test]
fn second_field_call_overwrites_first() {
    let q = LuceneQueryBuilder::new().set_field("F", "a").set_field("F", "b").build();
    assert_eq!(q, "query=F:b");
    let q = LuceneQueryBuilder::new()
        .set_field("F", "a")
        .and()
        .set_field("G", "b")
        .set_range("H", "1", "2")
        .build();
    assert_eq!(q, "query=F:a AND H:[1 TO 2]");
}

#[test]
fn nested_after_existing_clause() {
    let inner = LuceneQueryBuilder::new().set_field("A", "1").or().set_field("A", "2");
    let q = LuceneQueryBuilder::new()
        .set_field("B", "x")
        .and()
        .expr(&inner)
        .build();
    // the nested clause is pushed after the open slot, which stays empty
    assert_eq!(q, "query=B:x AND (A:1 OR A:2)");
    let q = LuceneQueryBuilder::new().expr(&inner).and().set_field("C", "v").build();
    assert_eq!(q, "query=(A:1 OR A:2) AND C:v");
    let q = LuceneQueryBuilder::new().expr(&LuceneQueryBuilder::new()).build();
    assert_eq!(q, "query=()");
}

#[test]
fn proximity_forms() {
    assert_eq!(LuceneQueryBuilder::new().proximity(3).build(), "query=");
    assert_eq!(
        LuceneQueryBuilder::new().set_field("F", "a").proximity(-12).build(),
        "query=F:a~-12"
    );
    assert_eq!(
        LuceneQueryBuilder::new().set_field("F", "a").proximity(0).build(),
        "query=F:a~0"
    );
    assert_eq!(
        LuceneQueryBuilder::new().set_field("F", "a").proximity(i32::MIN).build(),
        "query=F:a~-2147483648"
    );
    assert_eq!(
        LuceneQueryBuilder::new().set_field("F", "a").proximity(i32::MAX).build(),
        "query=F:a~2147483647"
    );
}

#[test]
fn combinators_on_empty_and_trailing() {
    assert_eq!(LuceneQueryBuilder::new().or().build(), "query=");
    assert_eq!(
        LuceneQueryBuilder::new().and().set_field("F", "a").build(),
        "query=F:a"
    );
    assert_eq!(
        LuceneQueryBuilder::new().set_field("F", "a").or().build(),
        "query=F:a OR "
    );
}

#[test]
fn range_quotes_bounds() {
    let q = LuceneQueryBuilder::new().set_range("F", "a b", "c").build();
    assert_eq!(q, "query=F:[\"a b\" TO c]");
}

#[test]
fn escaped_build_encodes_every_space() {
    let q = LuceneQueryBuilder::new()
        .set_field("F", "Uncle Bob")
        .and()
        .set_field("G", "x")
        .build_escaped();
    assert_eq!(q, "query=F:\"Uncle%20Bob\"%20AND%20G:x");
    assert_eq!(escape_spaces("a  b"), "a%20%20b");
    assert_eq!(escape_spaces("ab"), "ab");
}

#[test]
fn renamed_field_writes_external_name() {
    let t = table();
    let s = t.setter("last_name").expect("scalar");
    assert_eq!(s.field(), "patronymic");
    let r = t.range_setter("last_name_range").expect("range");
    assert_eq!(r.field(), "patronymic");
    assert!(t.setter("patronymic").is_none());
}

#[test]
fn ignored_field_has_no_entry_point() {
    let t = table();
    assert!(t.setter("ignored").is_none());
    assert!(t.range_setter("ignored_range").is_none());
    assert!(t.setter("unknown").is_none());
    assert!(t.range_setter("age").is_none());
}

#[test]
fn duplicate_method_names_are_refused() {
    let name = collision_name(vec![
        FieldDescriptor::scalar("age", "age"),
        FieldDescriptor::scalar("age", "years"),
    ]);
    assert_eq!(name, "age");
    let name = collision_name(vec![
        FieldDescriptor::scalar("a", "a"),
        FieldDescriptor::ignored("a"),
    ]);
    assert_eq!(name, "a");
}

#[test]
fn method_name_clashing_with_range_entry_point_is_refused() {
    let name = collision_name(vec![
        FieldDescriptor::scalar("age", "age"),
        FieldDescriptor::scalar("age_range", "bracket"),
    ]);
    assert_eq!(name, "age_range");
    // an ignored field has no range entry point to clash with
    assert!(FieldTable::new(vec![
        FieldDescriptor::ignored("age"),
        FieldDescriptor::scalar("age_range", "bracket"),
    ])
    .is_ok());
}

#[test]
fn descriptors_record_their_names() {
    let d = FieldDescriptor::scalar("m", "F");
    assert_eq!(d.method_name, "m");
    assert_eq!(d.external_name, "F");
    assert_eq!(d.kind, FieldKind::Scalar);
    let d = FieldDescriptor::ignored("x");
    assert_eq!(d.kind, FieldKind::Ignored);
}
