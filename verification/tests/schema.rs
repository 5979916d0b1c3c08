use deli::context::add_type::{creation_fields, updation_fields};
use deli::context::index::{
    check_duplicates, get_composite_index_for_meta, get_composite_multi_entry_index_for_meta,
    get_composite_unique_index_for_meta, get_indexes, get_single_index_for_field,
};
use deli::context::key::{get_composite_key, get_key, get_single_key, KeyPath};
use deli::{
    compile, AddTypeContext, FieldIndexMeta, IndexContext, IndexKind, KeyContext, Model,
    ModelContext, ModelField, ModelIndexMeta, ValidationError,
};

fn field(ident: &str, ty: &str) -> ModelField {
    ModelField {
        ident: ident.to_string(),
        ty: ty.to_string(),
        rename: None,
        key: false,
        auto_increment: false,
        index: None,
        unique: None,
        multi_entry: None,
    }
}

fn key_field(ident: &str, ty: &str) -> ModelField {
    let mut f = field(ident, ty);
    f.key = true;
    f
}

fn auto_field(ident: &str, ty: &str) -> ModelField {
    let mut f = field(ident, ty);
    f.auto_increment = true;
    f
}

fn model(ident: &str, fields: Vec<ModelField>) -> Model {
    Model {
        ident: ident.to_string(),
        generics: Vec::new(),
        name: None,
        object_store_struct: None,
        add_struct_name: None,
        key: None,
        index: Vec::new(),
        unique: Vec::new(),
        multi_entry: Vec::new(),
        fields,
    }
}

fn meta(fields: &[&str]) -> ModelIndexMeta {
    ModelIndexMeta {
        name: None,
        fields: fields.iter().map(|f| f.to_string()).collect(),
        struct_name: None,
    }
}

fn employee() -> Model {
    let mut email = field("email", "String");
    email.unique = Some(FieldIndexMeta::default());
    let mut age = field("age", "u8");
    age.index = Some(FieldIndexMeta::default());
    let mut tags = field("tags", "Vec<String>");
    tags.multi_entry = Some(FieldIndexMeta::default());
    model(
        "Employee",
        vec![auto_field("id", "u32"), field("name", "String"), email, age, tags],
    )
}

#[test]
fn compiles_model_with_auto_increment_key() {
    let compiled = compile(&employee()).unwrap();
    assert_eq!(compiled.ident, "Employee");
    assert_eq!(compiled.name, "employee");
    assert_eq!(
        compiled.key,
        KeyContext::Single { key: "id".to_string(), ty: "u32".to_string(), auto_increment: true }
    );
    assert!(compiled.key.is_auto_increment());
    assert_eq!(compiled.indexes.len(), 3);
}

#[test]
fn derives_names_of_single_field_indexes() {
    let compiled = compile(&employee()).unwrap();
    let unique = &compiled.indexes[0];
    assert_eq!(unique.kind(), IndexKind::SingleUnique);
    assert_eq!(unique.keys(), vec!["email".to_string()]);
    assert_eq!(unique.tys(), vec!["String".to_string()]);
    assert_eq!(unique.name(), "employee_email_unique_index");
    assert_eq!(unique.ident(), "EmployeeEmailUniqueIndex");
    assert_eq!(unique.by_fn(), "by_email_unique");
    assert_eq!(unique.model(), "Employee");
    let plain = &compiled.indexes[1];
    assert_eq!(plain.kind(), IndexKind::Single);
    assert_eq!(plain.name(), "employee_age_index");
    assert_eq!(plain.ident(), "EmployeeAgeIndex");
    assert_eq!(plain.by_fn(), "by_age");
    let multi = &compiled.indexes[2];
    assert_eq!(multi.kind(), IndexKind::SingleMultiEntry);
    assert_eq!(multi.name(), "employee_tags_multi_entry_index");
    assert_eq!(multi.ident(), "EmployeeTagsMultiEntryIndex");
    assert_eq!(multi.by_fn(), "by_tags_multi_entry");
}

#[test]
fn derives_names_of_composite_indexes() {
    let mut m = model(
        "BankAccount",
        vec![key_field("id", "u32"), field("first_name", "String"), field("last_name", "String")],
    );
    m.index.push(meta(&["first_name", "last_name"]));
    m.unique.push(meta(&["last_name", "id"]));
    m.multi_entry.push(meta(&["first_name"]));
    let compiled = compile(&m).unwrap();
    assert_eq!(compiled.name, "bank_account");
    assert_eq!(compiled.indexes.len(), 3);
    let plain = &compiled.indexes[0];
    assert_eq!(plain.kind(), IndexKind::Composite);
    assert_eq!(plain.keys(), vec!["first_name".to_string(), "last_name".to_string()]);
    assert_eq!(plain.tys(), vec!["String".to_string(), "String".to_string()]);
    assert_eq!(plain.name(), "bank_account_first_name_last_name_composite_index");
    assert_eq!(plain.ident(), "BankAccountFirstNameLastNameCompositeIndex");
    assert_eq!(plain.by_fn(), "by_first_name_last_name_composite");
    let unique = &compiled.indexes[1];
    assert_eq!(unique.kind(), IndexKind::CompositeUnique);
    assert_eq!(unique.tys(), vec!["String".to_string(), "u32".to_string()]);
    assert_eq!(unique.name(), "bank_account_last_name_id_composite_unique_index");
    assert_eq!(unique.ident(), "BankAccountLastNameIdCompositeUniqueIndex");
    assert_eq!(unique.by_fn(), "by_last_name_id_composite_unique");
    let multi = &compiled.indexes[2];
    assert_eq!(multi.kind(), IndexKind::CompositeMultiEntry);
    assert_eq!(multi.name(), "bank_account_first_name_composite_multi_entry_index");
    assert_eq!(multi.ident(), "BankAccountFirstNameCompositeMultiEntryIndex");
    assert_eq!(multi.by_fn(), "by_first_name_composite_multi_entry");
}

#[test]
fn overrides_are_independent() {
    let mut email = field("email", "String");
    email.unique = Some(FieldIndexMeta { name: Some("mail".to_string()), struct_name: None });
    let mut age = field("age", "u8");
    age.index = Some(FieldIndexMeta { name: None, struct_name: Some("AgeIdx".to_string()) });
    let m = model("Employee", vec![key_field("id", "u32"), email, age]);
    let compiled = compile(&m).unwrap();
    assert_eq!(compiled.indexes[0].name(), "mail");
    assert_eq!(compiled.indexes[0].ident(), "EmployeeEmailUniqueIndex");
    assert_eq!(compiled.indexes[0].by_fn(), "by_email_unique");
    assert_eq!(compiled.indexes[1].name(), "employee_age_index");
    assert_eq!(compiled.indexes[1].ident(), "AgeIdx");
    assert_eq!(compiled.indexes[1].by_fn(), "by_age");
}

#[test]
fn composite_override_names() {
    let mut m = model("Pair", vec![key_field("id", "u32"), field("a", "u8"), field("b", "u8")]);
    m.index.push(ModelIndexMeta {
        name: Some("ab".to_string()),
        fields: vec!["a".to_string(), "b".to_string()],
        struct_name: Some("AbIndex".to_string()),
    });
    let index = get_composite_index_for_meta(&m, &m.index[0]).unwrap();
    assert_eq!(index.name(), "ab");
    assert_eq!(index.ident(), "AbIndex");
    assert_eq!(index.by_fn(), "by_a_b_composite");
    let unique = get_composite_unique_index_for_meta(&m, &meta(&["a", "b"])).unwrap();
    assert_eq!(unique.kind(), IndexKind::CompositeUnique);
    assert_eq!(unique.name(), "pair_a_b_composite_unique_index");
    let multi = get_composite_multi_entry_index_for_meta(&m, &meta(&["b"])).unwrap();
    assert_eq!(multi.kind(), IndexKind::CompositeMultiEntry);
    assert_eq!(multi.ident(), "PairBCompositeMultiEntryIndex");
}

#[test]
fn renamed_field_is_stored_under_its_new_name() {
    let mut email = field("email_address", "String");
    email.rename = Some("emailAddress".to_string());
    email.index = Some(FieldIndexMeta::default());
    let mut id = key_field("id", "u32");
    id.rename = Some("ID".to_string());
    let m = model("User", vec![id, email]);
    let compiled = compile(&m).unwrap();
    assert_eq!(
        compiled.key,
        KeyContext::Single { key: "ID".to_string(), ty: "u32".to_string(), auto_increment: false }
    );
    assert_eq!(compiled.indexes[0].keys(), vec!["emailAddress".to_string()]);
    assert_eq!(compiled.indexes[0].name(), "user_email_address_index");
    assert_eq!(compiled.indexes[0].ident(), "UserEmailAddressIndex");
    assert_eq!(compiled.indexes[0].by_fn(), "by_email_address");
}

#[test]
fn store_name_can_be_given() {
    let mut m = model("Employee", vec![key_field("id", "u32")]);
    m.name = Some("staff".to_string());
    assert_eq!(m.get_name_str(), "staff");
    assert_eq!(compile(&m).unwrap().name, "staff");
}

#[test]
fn composite_key_resolves_to_one_key() {
    let mut m = model("Seat", vec![field("row", "u8"), field("number", "u16")]);
    m.key = Some(vec!["row".to_string(), "number".to_string()]);
    let compiled = compile(&m).unwrap();
    assert_eq!(
        compiled.key,
        KeyContext::Composite {
            keys: vec!["row".to_string(), "number".to_string()],
            tys: vec!["u8".to_string(), "u16".to_string()],
        }
    );
    assert!(!compiled.key.is_auto_increment());
    assert_eq!(compiled.add_type, AddTypeContext::Itself);
    assert_eq!(compiled.key.expand_key_type(), vec!["u8".to_string(), "u16".to_string()]);
}

#[test]
fn single_key_resolves_to_one_key() {
    let m = model("Seat", vec![key_field("id", "u64"), field("row", "u8")]);
    let key = get_key(&m).unwrap();
    assert_eq!(
        key,
        KeyContext::Single { key: "id".to_string(), ty: "u64".to_string(), auto_increment: false }
    );
    assert_eq!(key.expand_key_type(), vec!["u64".to_string()]);
    assert_eq!(KeyContext::try_from(&m).unwrap(), key);
}

#[test]
fn composite_and_field_key_is_an_error() {
    let mut m = model("Seat", vec![key_field("row", "u8"), field("number", "u16")]);
    m.key = Some(vec!["row".to_string(), "number".to_string()]);
    assert_eq!(compile(&m), Err(vec![ValidationError::CompositeAndFieldKey]));
}

#[test]
fn no_key_is_an_error() {
    let m = model("Seat", vec![field("row", "u8")]);
    assert_eq!(compile(&m), Err(vec![ValidationError::NoKey]));
    assert_eq!(get_single_key(&m), Ok(None));
    assert_eq!(get_composite_key(&m), Ok(None));
}

#[test]
fn two_key_fields_are_an_error() {
    let m = model("Seat", vec![key_field("row", "u8"), key_field("number", "u16")]);
    assert_eq!(compile(&m), Err(vec![ValidationError::MultipleFieldKeys]));
    assert_eq!(get_single_key(&m), Err(vec![ValidationError::MultipleFieldKeys]));
}

#[test]
fn two_auto_increment_fields_are_an_error() {
    let m = model("Seat", vec![auto_field("a", "u32"), auto_field("b", "u32")]);
    assert_eq!(compile(&m), Err(vec![ValidationError::MultipleFieldKeys]));
}

#[test]
fn unknown_composite_key_field_is_an_error() {
    let mut m = model("Seat", vec![field("row", "u8")]);
    m.key = Some(vec!["row".to_string(), "column".to_string(), "floor".to_string()]);
    assert_eq!(
        compile(&m),
        Err(vec![
            ValidationError::FieldNotFound { name: "column".to_string() },
            ValidationError::FieldNotFound { name: "floor".to_string() },
        ])
    );
}

#[test]
fn errors_of_key_declarations_are_joined() {
    let mut m = model("Seat", vec![key_field("row", "u8"), key_field("number", "u16")]);
    m.key = Some(vec!["column".to_string()]);
    assert_eq!(
        get_key(&m),
        Err(vec![
            ValidationError::FieldNotFound { name: "column".to_string() },
            ValidationError::MultipleFieldKeys,
        ])
    );
}

#[test]
fn conflicting_flags_give_one_error_for_each_field() {
    let mut a = field("a", "u8");
    a.index = Some(FieldIndexMeta::default());
    a.unique = Some(FieldIndexMeta::default());
    let mut b = field("b", "u8");
    b.index = Some(FieldIndexMeta::default());
    b.unique = Some(FieldIndexMeta::default());
    b.multi_entry = Some(FieldIndexMeta::default());
    let mut c = field("c", "u8");
    c.multi_entry = Some(FieldIndexMeta::default());
    let m = model("Thing", vec![key_field("id", "u32"), a, b, c]);
    assert_eq!(
        compile(&m),
        Err(vec![
            ValidationError::ConflictingIndex { field: "a".to_string() },
            ValidationError::ConflictingIndex { field: "b".to_string() },
        ])
    );
    assert_eq!(
        get_single_index_for_field(&m, &m.fields[1]),
        Err(ValidationError::ConflictingIndex { field: "a".to_string() })
    );
    assert_eq!(get_single_index_for_field(&m, &m.fields[0]), Ok(None));
    assert!(m.fields[2].has_conflict());
    assert!(!m.fields[3].has_conflict());
}

#[test]
fn all_errors_are_collected_in_one_pass() {
    let mut a = field("a", "u8");
    a.index = Some(FieldIndexMeta::default());
    a.multi_entry = Some(FieldIndexMeta::default());
    let mut m = model("Thing", vec![a, field("b", "u8")]);
    m.index.push(meta(&["b", "x"]));
    m.unique.push(meta(&["y"]));
    m.multi_entry.push(meta(&["z", "a"]));
    assert_eq!(
        compile(&m),
        Err(vec![
            ValidationError::NoKey,
            ValidationError::ConflictingIndex { field: "a".to_string() },
            ValidationError::FieldNotFound { name: "x".to_string() },
            ValidationError::FieldNotFound { name: "y".to_string() },
            ValidationError::FieldNotFound { name: "z".to_string() },
        ])
    );
}

#[test]
fn duplicate_index_names_are_an_error() {
    let mut a = field("a", "u8");
    a.index = Some(FieldIndexMeta { name: Some("same".to_string()), struct_name: None });
    let mut b = field("b", "u8");
    b.unique = Some(FieldIndexMeta { name: Some("same".to_string()), struct_name: None });
    let m = model("Thing", vec![key_field("id", "u32"), a, b]);
    assert_eq!(
        compile(&m),
        Err(vec![ValidationError::DuplicateIndexName { name: "same".to_string() }])
    );
}

#[test]
fn duplicate_accessors_are_an_error() {
    let mut m = model("Thing", vec![key_field("id", "u32"), field("a", "u8"), field("b", "u8")]);
    m.index.push(meta(&["a", "b"]));
    m.index.push(ModelIndexMeta {
        name: Some("other".to_string()),
        fields: vec!["a".to_string(), "b".to_string()],
        struct_name: None,
    });
    assert_eq!(
        get_indexes(&m),
        Err(vec![ValidationError::DuplicateAccessor { name: "by_a_b_composite".to_string() }])
    );
    let first = get_composite_index_for_meta(&m, &m.index[0]).unwrap();
    let second = get_composite_index_for_meta(&m, &m.index[0]).unwrap();
    let mut errors = Vec::new();
    check_duplicates(&vec![first, second], &mut errors);
    assert_eq!(
        errors,
        vec![
            ValidationError::DuplicateIndexName { name: "thing_a_b_composite_index".to_string() },
            ValidationError::DuplicateAccessor { name: "by_a_b_composite".to_string() },
        ]
    );
}

#[test]
fn compiling_twice_gives_the_same_names() {
    let first = compile(&employee()).unwrap();
    let second = compile(&employee()).unwrap();
    assert_eq!(first, second);
    assert_eq!(first.indexes[0].name().as_bytes(), second.indexes[0].name().as_bytes());
    assert_eq!(ModelContext::try_from(&employee()).unwrap(), first);
}

#[test]
fn creation_record_leaves_out_the_assigned_key() {
    let compiled = compile(&employee()).unwrap();
    match &compiled.add_type {
        AddTypeContext::Record { ident, fields } => {
            assert_eq!(ident, "AddEmployee");
            let idents: Vec<&str> = fields.iter().map(|f| f.ident.as_str()).collect();
            assert_eq!(idents, vec!["name", "email", "age", "tags"]);
            let tys: Vec<&str> = fields.iter().map(|f| f.ty.as_str()).collect();
            assert_eq!(tys, vec!["String", "String", "u8", "Vec<String>"]);
        }
        AddTypeContext::Itself => panic!("an auto-increment model has a creation record"),
    }
    assert_eq!(compiled.add_type.ident(), "AddEmployee");
    assert_eq!(creation_fields(&employee()).len(), 4);
    assert_eq!(updation_fields(&employee()).len(), 5);
    assert_eq!(updation_fields(&employee())[0].ident, "id");
}

#[test]
fn creation_record_name_can_be_given() {
    let mut m = employee();
    m.add_struct_name = Some("NewEmployee".to_string());
    assert_eq!(compile(&m).unwrap().add_type.ident(), "NewEmployee");
    let plain = model("Seat", vec![key_field("id", "u64")]);
    assert_eq!(compile(&plain).unwrap().add_type.ident(), "Self");
}

#[test]
fn store_handle_lists_the_accessors() {
    let compiled = compile(&employee()).unwrap();
    assert_eq!(compiled.object_store.ident, "EmployeeObjectStore");
    assert_eq!(compiled.object_store.model_ident, "Employee");
    let by_fns: Vec<&str> =
        compiled.object_store.indexes.iter().map(|f| f.by_fn_ident.as_str()).collect();
    assert_eq!(by_fns, vec!["by_email_unique", "by_age", "by_tags_multi_entry"]);
    assert_eq!(compiled.object_store.indexes[1].index_ident, "EmployeeAgeIndex");
    assert_eq!(compiled.object_store.find_by_fn(&"by_age".to_string()), Some(1));
    assert_eq!(compiled.object_store.find_by_fn(&"by_name".to_string()), None);
    assert_eq!(compiled.indexes[1].by_fn_context().by_fn_ident, "by_age");
    assert_eq!(compiled.indexes[1].by_fn_context().index_ident, "EmployeeAgeIndex");
    assert_eq!(compiled.indexes[1].expand_object_store_builder(), "EmployeeAgeIndex");
    let mut m = employee();
    m.object_store_struct = Some("Staff".to_string());
    assert_eq!(compile(&m).unwrap().object_store.ident, "Staff");
}

#[test]
fn engine_definition_of_a_model() {
    let mut m = employee();
    m.index.push(meta(&["name", "age"]));
    let definition = compile(&m).unwrap().expand_model_definition();
    assert_eq!(definition.name, "employee");
    assert_eq!(definition.key_path, KeyPath::Single("id".to_string()));
    assert!(definition.auto_increment);
    assert_eq!(definition.indexes.len(), 4);
    assert_eq!(definition.indexes[0].name, "employee_email_unique_index");
    assert_eq!(definition.indexes[0].key_path, KeyPath::Single("email".to_string()));
    assert!(definition.indexes[0].unique);
    assert!(!definition.indexes[0].multi_entry);
    assert!(!definition.indexes[1].unique);
    assert!(!definition.indexes[1].multi_entry);
    assert!(definition.indexes[2].multi_entry);
    assert_eq!(
        definition.indexes[3].key_path,
        KeyPath::Array(vec!["name".to_string(), "age".to_string()])
    );
}

#[test]
fn engine_definition_of_a_composite_key() {
    let mut m = model("Seat", vec![field("row", "u8"), field("number", "u16")]);
    m.key = Some(vec!["number".to_string(), "row".to_string()]);
    let key = get_key(&m).unwrap();
    let (key_path, auto_increment) = key.expand_object_store_builder();
    assert_eq!(key_path, KeyPath::Array(vec!["number".to_string(), "row".to_string()]));
    assert!(!auto_increment);
}

#[test]
fn generic_model_is_refused() {
    let mut m = model("Seat", vec![key_field("id", "u64")]);
    assert_eq!(m.validate_no_generic(), Ok(()));
    m.generics.push("T".to_string());
    assert_eq!(m.validate_no_generic(), Err(ValidationError::GenericNotSupported));
}

#[test]
fn field_lookup_by_identifier() {
    let m = employee();
    assert_eq!(m.find_field(&"age".to_string()), Some(3));
    assert_eq!(m.find_field(&"salary".to_string()), None);
    assert_eq!(
        m.get_fields_from_path_list(&vec!["tags".to_string(), "id".to_string()]),
        Ok(vec![4, 0])
    );
    assert_eq!(
        m.get_fields_from_path_list(&vec!["tags".to_string(), "nope".to_string()]),
        Err(vec![ValidationError::FieldNotFound { name: "nope".to_string() }])
    );
    assert_eq!(m.fields().len(), 5);
    assert!(m.fields[0].is_key());
    assert!(!m.fields[0].is_index());
    assert!(m.fields[2].is_index());
    assert_eq!(m.fields[2].ident(), "email");
    assert_eq!(m.fields[2].get_name_str(), "email");
    assert_eq!(m.names_of(&vec![1, 0]), vec!["name".to_string(), "id".to_string()]);
    assert_eq!(m.types_of(&vec![1, 0]), vec!["String".to_string(), "u32".to_string()]);
    assert_eq!(m.idents_of(&vec![3]), vec!["age".to_string()]);
}

#[test]
fn error_messages() {
    assert_eq!(
        ValidationError::NoKey.message(),
        "Model must have either composite key or field key"
    );
    assert_eq!(
        ValidationError::MultipleFieldKeys.message(),
        "Model cannot have more than one field key"
    );
    assert_eq!(
        ValidationError::CompositeAndFieldKey.message(),
        "Model cannot have both composite key and field key"
    );
    assert_eq!(
        ValidationError::ConflictingIndex { field: "a".to_string() }.message(),
        "Field can only one of index, unique, or multi_entry attribute: a"
    );
    assert_eq!(
        ValidationError::FieldNotFound { name: "x".to_string() }.message(),
        "Field not found in the model: x"
    );
    assert_eq!(
        ValidationError::DuplicateIndexName { name: "n".to_string() }.message(),
        "Index name is used more than once in the model: n"
    );
    assert_eq!(
        ValidationError::DuplicateAccessor { name: "by_a".to_string() }.message(),
        "Index accessor is used more than once in the model: by_a"
    );
    assert_eq!(
        ValidationError::GenericNotSupported.message(),
        "Generic type is not supported by a model"
    );
}

#[test]
fn index_variants_carry_their_parts() {
    let compiled = compile(&employee()).unwrap();
    assert_eq!(
        compiled.indexes[1],
        IndexContext::Single {
            key: "age".to_string(),
            index_ident: "EmployeeAgeIndex".to_string(),
            index_name: "employee_age_index".to_string(),
            index_model: "Employee".to_string(),
            index_ty: "u8".to_string(),
            by_fn_ident: "by_age".to_string(),
        }
    );
    let mut m = model("Seat", vec![key_field("id", "u64"), field("row", "u8"), field("number", "u16")]);
    m.unique.push(meta(&["row", "number"]));
    assert_eq!(
        compile(&m).unwrap().indexes,
        vec![IndexContext::CompositeUnique {
            keys: vec!["row".to_string(), "number".to_string()],
            index_ident: "SeatRowNumberCompositeUniqueIndex".to_string(),
            index_name: "seat_row_number_composite_unique_index".to_string(),
            index_model: "Seat".to_string(),
            index_tys: vec!["u8".to_string(), "u16".to_string()],
            by_fn_ident: "by_row_number_composite_unique".to_string(),
        }]
    );
}
