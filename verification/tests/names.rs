use deli::context::names::{by_fn_name, index_ident, index_name};
use deli::text::clone_strings;
use deli::{join, pascal_case_all, IndexKind, Model};

fn strings(parts: &[&str]) -> Vec<String> {
    parts.iter().map(|p| p.to_string()).collect()
}

fn store_name(ident: &str) -> String {
    let model = Model {
        ident: ident.to_string(),
        generics: Vec::new(),
        name: None,
        object_store_struct: None,
        add_struct_name: None,
        key: None,
        index: Vec::new(),
        unique: Vec::new(),
        multi_entry: Vec::new(),
        fields: Vec::new(),
    };
    model.get_name_str()
}

#[test]
fn snake_case_of_type_identifiers() {
    assert_eq!(store_name("VeryTasty"), "very_tasty");
    assert_eq!(store_name("Outcome"), "outcome");
    assert_eq!(store_name("A"), "a");
    assert_eq!(store_name("Z42"), "z42");
    assert_eq!(store_name(""), "");
}

#[test]
fn pascal_case_of_field_identifiers() {
    assert_eq!(
        pascal_case_all(&strings(&["very_tasty", "outcome", "_leading_under", "double__under", ""])),
        strings(&["VeryTasty", "Outcome", "LeadingUnder", "DoubleUnder", ""])
    );
    assert_eq!(pascal_case_all(&strings(&["first_name", "age"])), strings(&["FirstName", "Age"]));
    assert_eq!(pascal_case_all(&strings(&[])), strings(&[]));
}

#[test]
fn joining() {
    assert_eq!(join(&strings(&[]), "_"), "");
    assert_eq!(join(&strings(&["a"]), "_"), "a");
    assert_eq!(join(&strings(&["a", "b", "c"]), "_"), "a_b_c");
    assert_eq!(join(&strings(&["A", "B"]), ""), "AB");
    assert_eq!(join(&strings(&["", ""]), "-"), "-");
    assert_eq!(clone_strings(&strings(&["x", "y"])), strings(&["x", "y"]));
}

#[test]
fn storage_names_by_kind() {
    let one = strings(&["email"]);
    let two = strings(&["first", "last"]);
    assert_eq!(index_name("user", &one, IndexKind::Single), "user_email_index");
    assert_eq!(index_name("user", &one, IndexKind::SingleUnique), "user_email_unique_index");
    assert_eq!(
        index_name("user", &one, IndexKind::SingleMultiEntry),
        "user_email_multi_entry_index"
    );
    assert_eq!(index_name("user", &two, IndexKind::Composite), "user_first_last_composite_index");
    assert_eq!(
        index_name("user", &two, IndexKind::CompositeUnique),
        "user_first_last_composite_unique_index"
    );
    assert_eq!(
        index_name("user", &two, IndexKind::CompositeMultiEntry),
        "user_first_last_composite_multi_entry_index"
    );
}

#[test]
fn accessors_by_kind() {
    let one = strings(&["email"]);
    let two = strings(&["first", "last"]);
    assert_eq!(by_fn_name(&one, IndexKind::Single), "by_email");
    assert_eq!(by_fn_name(&one, IndexKind::SingleUnique), "by_email_unique");
    assert_eq!(by_fn_name(&one, IndexKind::SingleMultiEntry), "by_email_multi_entry");
    assert_eq!(by_fn_name(&two, IndexKind::Composite), "by_first_last_composite");
    assert_eq!(by_fn_name(&two, IndexKind::CompositeUnique), "by_first_last_composite_unique");
    assert_eq!(
        by_fn_name(&two, IndexKind::CompositeMultiEntry),
        "by_first_last_composite_multi_entry"
    );
}

#[test]
fn type_identifiers_by_kind() {
    let one = strings(&["Email"]);
    let two = strings(&["First", "Last"]);
    assert_eq!(index_ident("User", &one, IndexKind::Single), "UserEmailIndex");
    assert_eq!(index_ident("User", &one, IndexKind::SingleUnique), "UserEmailUniqueIndex");
    assert_eq!(index_ident("User", &one, IndexKind::SingleMultiEntry), "UserEmailMultiEntryIndex");
    assert_eq!(index_ident("User", &two, IndexKind::Composite), "UserFirstLastCompositeIndex");
    assert_eq!(
        index_ident("User", &two, IndexKind::CompositeUnique),
        "UserFirstLastCompositeUniqueIndex"
    );
    assert_eq!(
        index_ident("User", &two, IndexKind::CompositeMultiEntry),
        "UserFirstLastCompositeMultiEntryIndex"
    );
}

#[test]
fn kinds() {
    assert!(IndexKind::SingleUnique.is_unique());
    assert!(IndexKind::CompositeUnique.is_unique());
    assert!(!IndexKind::Single.is_unique());
    assert!(IndexKind::SingleMultiEntry.is_multi_entry());
    assert!(IndexKind::CompositeMultiEntry.is_multi_entry());
    assert!(!IndexKind::Composite.is_multi_entry());
    assert!(IndexKind::Composite.is_composite());
    assert!(!IndexKind::SingleMultiEntry.is_composite());
}
