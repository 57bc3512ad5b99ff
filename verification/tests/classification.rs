use axum_debug::{Ownership, Recognition, Role, TableEntry, TypeClass, TypeRef, TypeTable};

fn one_of(name: &str) -> TypeRef {
    TypeRef::generic(name, vec![TypeRef::named("T")])
}

#[test]
fn string_is_an_extractor_and_a_response() {
    let table = TypeTable::standard();
    let string = TypeRef::named("String");
    assert_eq!(table.classify(&string, Role::Parameter), TypeClass::KnownExtractor);
    assert_eq!(table.classify(&string, Role::Return), TypeClass::KnownResponseType);
    assert_eq!(table.recognize(&string, Role::Parameter), Some(Recognition::BodyExtractor));
    assert_eq!(table.recognize(&string, Role::Return), Some(Recognition::ResponseType));
    assert!(table.consumes_body(&string));
}

#[test]
fn shared_str_is_a_response_only() {
    let table = TypeTable::standard();
    let text = TypeRef::named("str").behind_shared();
    assert_eq!(table.classify(&text, Role::Return), TypeClass::KnownResponseType);
    assert_eq!(table.classify(&text, Role::Parameter), TypeClass::Unknown);
    assert!(!table.consumes_body(&text));
}

#[test]
fn bool_and_unit_are_responses() {
    let table = TypeTable::standard();
    assert_eq!(table.classify(&TypeRef::named("bool"), Role::Return), TypeClass::KnownResponseType);
    assert_eq!(table.classify(&TypeRef::unit(), Role::Return), TypeClass::KnownResponseType);
    assert_eq!(table.classify(&TypeRef::unit(), Role::Parameter), TypeClass::Unknown);
}

#[test]
fn request_parts_are_special_arguments() {
    let table = TypeTable::standard();
    for name in ["Method", "Uri", "Version", "HeaderMap"] {
        let part = TypeRef::named(name);
        assert_eq!(table.classify(&part, Role::Parameter), TypeClass::KnownSpecialArgument);
        assert_eq!(table.recognize(&part, Role::Parameter), Some(Recognition::SpecialArgument));
        assert!(!table.consumes_body(&part));
    }
}

#[test]
fn extractors_that_leave_the_body_alone() {
    let table = TypeTable::standard();
    for name in ["Path", "Query", "Extension", "TypedHeader", "ConnectInfo"] {
        let extractor = one_of(name);
        assert_eq!(table.classify(&extractor, Role::Parameter), TypeClass::KnownExtractor);
        assert!(!table.consumes_body(&extractor));
    }
    for name in ["RawQuery", "MatchedPath", "OriginalUri"] {
        let extractor = TypeRef::named(name);
        assert_eq!(table.classify(&extractor, Role::Parameter), TypeClass::KnownExtractor);
        assert!(!table.consumes_body(&extractor));
    }
}

#[test]
fn extractors_that_consume_the_body() {
    let table = TypeTable::standard();
    for name in ["String", "Bytes", "Multipart", "BodyStream"] {
        let extractor = TypeRef::named(name);
        assert_eq!(table.classify(&extractor, Role::Parameter), TypeClass::KnownExtractor);
        assert!(table.consumes_body(&extractor));
    }
    for name in ["Json", "Form", "RawBody", "Request"] {
        let extractor = one_of(name);
        assert_eq!(table.classify(&extractor, Role::Parameter), TypeClass::KnownExtractor);
        assert!(table.consumes_body(&extractor));
    }
}

#[test]
fn response_types_of_the_standard_table() {
    let table = TypeTable::standard();
    for name in ["String", "bool", "Bytes", "StatusCode", "HeaderMap", "()"] {
        assert_eq!(
            table.classify(&TypeRef::named(name), Role::Return),
            TypeClass::KnownResponseType
        );
    }
    for name in ["Json", "Html", "Response"] {
        assert_eq!(table.classify(&one_of(name), Role::Return), TypeClass::KnownResponseType);
    }
}

#[test]
fn number_of_generic_arguments_is_part_of_the_shape() {
    let table = TypeTable::standard();
    assert_eq!(table.classify(&TypeRef::named("Json"), Role::Parameter), TypeClass::Unknown);
    assert_eq!(table.classify(&one_of("String"), Role::Parameter), TypeClass::Unknown);
    let two = TypeRef::generic("Json", vec![TypeRef::named("A"), TypeRef::named("B")]);
    assert_eq!(table.classify(&two, Role::Return), TypeClass::Unknown);
}

#[test]
fn generic_arguments_themselves_are_not_looked_into() {
    let table = TypeTable::standard();
    let nested = TypeRef::generic("Json", vec![one_of("Mystery")]);
    assert_eq!(table.classify(&nested, Role::Parameter), TypeClass::KnownExtractor);
}

#[test]
fn unknown_name_is_unknown_everywhere() {
    let table = TypeTable::standard();
    let mystery = TypeRef::named("Mystery");
    assert_eq!(table.classify(&mystery, Role::Parameter), TypeClass::Unknown);
    assert_eq!(table.classify(&mystery, Role::Return), TypeClass::Unknown);
    assert_eq!(table.recognize(&mystery, Role::Parameter), None);
    assert!(!table.consumes_body(&mystery));
}

#[test]
fn names_are_compared_exactly() {
    let table = TypeTable::standard();
    assert_eq!(table.classify(&TypeRef::named("string"), Role::Parameter), TypeClass::Unknown);
    assert_eq!(table.classify(&TypeRef::named("Strin"), Role::Parameter), TypeClass::Unknown);
    assert_eq!(table.classify(&TypeRef::named("String "), Role::Parameter), TypeClass::Unknown);
    assert_eq!(table.classify(&TypeRef::named(""), Role::Parameter), TypeClass::Unknown);
}

#[test]
fn new_table_is_empty() {
    let table = TypeTable::new();
    assert!(table.entries.is_empty());
    assert_eq!(table.classify(&TypeRef::named("String"), Role::Parameter), TypeClass::Unknown);
    assert_eq!(table.classify(&TypeRef::named("String"), Role::Return), TypeClass::Unknown);
}

#[test]
fn standard_table_has_thirty_rows() {
    let table = TypeTable::standard();
    assert_eq!(table.entries.len(), 30);
    assert_eq!(
        table.entries[0],
        TableEntry {
            name: "String".to_string(),
            ownership: Ownership::Owned,
            arity: 0,
            recognition: Recognition::BodyExtractor,
        }
    );
    assert_eq!(
        table.entries[21],
        TableEntry {
            name: "str".to_string(),
            ownership: Ownership::Shared,
            arity: 0,
            recognition: Recognition::ResponseType,
        }
    );
}

#[test]
fn register_appends_a_row() {
    let mut table = TypeTable::new();
    table.register("Session", Ownership::Owned, 0, Recognition::Extractor);
    assert_eq!(
        table.entries,
        vec![TableEntry {
            name: "Session".to_string(),
            ownership: Ownership::Owned,
            arity: 0,
            recognition: Recognition::Extractor,
        }]
    );
    let session = TypeRef::named("Session");
    assert_eq!(table.classify(&session, Role::Parameter), TypeClass::KnownExtractor);
    assert_eq!(table.classify(&session, Role::Return), TypeClass::Unknown);
}

#[test]
fn earlier_rows_win() {
    let mut table = TypeTable::standard();
    // `String` already consumes the body; a later row cannot change that.
    table.register("String", Ownership::Owned, 0, Recognition::Extractor);
    assert!(table.consumes_body(&TypeRef::named("String")));
    let mut table = TypeTable::new();
    table.register("Upload", Ownership::Owned, 0, Recognition::SpecialArgument);
    table.register("Upload", Ownership::Owned, 0, Recognition::BodyExtractor);
    let upload = TypeRef::named("Upload");
    assert_eq!(table.classify(&upload, Role::Parameter), TypeClass::KnownSpecialArgument);
    assert!(!table.consumes_body(&upload));
}

#[test]
fn a_row_is_skipped_where_it_does_not_fit_the_role() {
    let mut table = TypeTable::new();
    table.register("Page", Ownership::Owned, 0, Recognition::ResponseType);
    table.register("Page", Ownership::Owned, 0, Recognition::BodyExtractor);
    let page = TypeRef::named("Page");
    assert_eq!(table.recognize(&page, Role::Return), Some(Recognition::ResponseType));
    assert_eq!(table.recognize(&page, Role::Parameter), Some(Recognition::BodyExtractor));
}

#[test]
fn recognition_has_a_class_and_a_role() {
    assert_eq!(Recognition::Extractor.type_class(), TypeClass::KnownExtractor);
    assert_eq!(Recognition::BodyExtractor.type_class(), TypeClass::KnownExtractor);
    assert_eq!(Recognition::SpecialArgument.type_class(), TypeClass::KnownSpecialArgument);
    assert_eq!(Recognition::ResponseType.type_class(), TypeClass::KnownResponseType);
    for recognition in
        [Recognition::Extractor, Recognition::BodyExtractor, Recognition::SpecialArgument]
    {
        assert!(recognition.fits_role(Role::Parameter));
        assert!(!recognition.fits_role(Role::Return));
    }
    assert!(Recognition::ResponseType.fits_role(Role::Return));
    assert!(!Recognition::ResponseType.fits_role(Role::Parameter));
}

#[test]
fn entry_names_a_shape() {
    let entry = TableEntry {
        name: "Json".to_string(),
        ownership: Ownership::Owned,
        arity: 1,
        recognition: Recognition::BodyExtractor,
    };
    assert!(entry.names(&one_of("Json")));
    assert!(!entry.names(&TypeRef::named("Json")));
    assert!(!entry.names(&one_of("Json").behind_shared()));
    assert!(!entry.names(&one_of("Form")));
}

#[test]
fn type_refs_are_built_as_written() {
    let plain = TypeRef::named("Uri");
    assert_eq!(plain.name, "Uri");
    assert!(plain.generic_args.is_empty());
    assert_eq!(plain.ownership, Ownership::Owned);
    let shared = TypeRef::named("str").behind_shared();
    assert_eq!(shared.name, "str");
    assert_eq!(shared.ownership, Ownership::Shared);
    let exclusive = one_of("Vec").behind_exclusive();
    assert_eq!(exclusive.name, "Vec");
    assert_eq!(exclusive.generic_args, vec![TypeRef::named("T")]);
    assert_eq!(exclusive.ownership, Ownership::Exclusive);
    let unit = TypeRef::unit();
    assert_eq!(unit.name, "()");
    assert!(unit.generic_args.is_empty());
    assert_eq!(unit.ownership, Ownership::Owned);
}
