use lucene_query_builder::fields::{FieldDescriptor, FieldSetter, FieldTable, RangeSetter};
use lucene_query_builder::query::LuceneQueryBuilder;

fn person() -> FieldTable {
    let fields = vec![
        FieldDescriptor::scalar("last_name", "patronymic"),
        FieldDescriptor::scalar("age", "age"),
        FieldDescriptor::ignored("ignored"),
        FieldDescriptor::scalar("fullname", "complete_name"),
    ];
    match FieldTable::new(fields) {
        Ok(t) => t,
        Err(e) => panic!("registration refused: {:?}", e),
    }
}

fn setter(t: &FieldTable, name: &str) -> FieldSetter {
    t.setter(name).expect("registered entry point")
}

fn range_setter(t: &FieldTable, name: &str) -> RangeSetter {
    t.range_setter(name).expect("registered range entry point")
}

#[test]
fn should_serialize_simple_query() {
    let person = person();
    let last_name = setter(&person, "last_name");
    let query = LuceneQueryBuilder::new()
        .apply(&last_name, "Bob")
        .or()
        .apply(&last_name, "Alice")
        .build();

    assert_eq!(
        query,
        "query=patronymic:Bob OR patronymic:Alice".to_string()
    );
}

#[test]
fn should_quote_values_with_space() {
    let person = person();
    let last_name = setter(&person, "last_name");
    let query = LuceneQueryBuilder::new().apply(&last_name, "Uncle Bob").build();

    assert_eq!(query, "query=patronymic:\"Uncle Bob\"".to_string());
}

#[test]
fn should_serialize_nested_query() {
    let person = person();
    let last_name = setter(&person, "last_name");
    let age = setter(&person, "age");
    let query = LuceneQueryBuilder::new()
        .expr(
            &LuceneQueryBuilder::new()
                .apply(&last_name, "Bob")
                .or()
                .apply(&last_name, "Alice"),
        )
        .and()
        .apply(&age, "22")
        .build();

    assert_eq!(
        query,
        "query=(patronymic:Bob OR patronymic:Alice) AND age:22".to_string()
    );
}

#[test]
fn should_serialize_proximity() {
    let person = person();
    let last_name = setter(&person, "last_name");
    let query = LuceneQueryBuilder::new()
        .apply(&last_name, "Bob")
        .and()
        .apply(&last_name, "Alice")
        .proximity(4)
        .build();

    assert_eq!(
        query,
        "query=patronymic:Bob AND patronymic:Alice~4".to_string()
    );
}

#[test]
fn should_gen_renamed_method() {
    let person = person();
    let last_name = setter(&person, "last_name");
    let fullname = setter(&person, "fullname");
    let query = LuceneQueryBuilder::new()
        .apply(&last_name, "Bob")
        .and()
        .apply(&fullname, "Bob Marley")
        .build();

    assert_eq!(
        query,
        "query=patronymic:Bob AND complete_name:\"Bob Marley\"".to_string()
    );
}

#[test]
fn should_serialize_range() {
    let person = person();
    let last_name_range = range_setter(&person, "last_name_range");
    let query = LuceneQueryBuilder::new()
        .apply_range(&last_name_range, "Bob", "Baz")
        .build();

    assert_eq!(query, "query=patronymic:[Bob TO Baz]".to_string());

    let age_range = range_setter(&person, "age_range");
    let query = LuceneQueryBuilder::new().apply_range(&age_range, "7", "77").build();

    assert_eq!(query, "query=age:[7 TO 77]".to_string());
}

#[test]
fn should_serialize_simple_query_on_struct_with_no_annotations() {
    let fields = vec![
        FieldDescriptor::scalar("name", "name"),
        FieldDescriptor::scalar("age", "age"),
    ];
    let person = FieldTable::new(fields).expect("no collision");
    let name = setter(&person, "name");
    let query = LuceneQueryBuilder::new()
        .apply(&name, "Bob")
        .or()
        .apply(&name, "Alice")
        .build();

    assert_eq!(query, "query=name:Bob OR name:Alice".to_string());
}
