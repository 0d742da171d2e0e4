use merge_sbom::{Combinable, ValueSet};

fn set_of(items: &[&str]) -> ValueSet<String> {
    let mut s = ValueSet::new();
    for item in items {
        s.insert(item.to_string());
    }
    s
}

#[test]
fn it_works() {
    let result = 2 + 2;
    assert_eq!(result, 4);
}

#[test]
fn merge_hashsets_works() {
    let mut hash1 = ValueSet::new();

    hash1.insert("To Kill a Mockingbird".to_string());
    hash1.insert("The Odyssey".to_string());
    hash1.insert("The Great Gatsby".to_string());

    let mut hash2 = ValueSet::new();
    hash2.insert("To Kill a Mockingbird".to_string());
    hash2.insert("A Dance With Dragons".to_string());

    let mut expected = ValueSet::new();
    expected.insert("To Kill a Mockingbird".to_string());
    expected.insert("The Odyssey".to_string());
    expected.insert("The Great Gatsby".to_string());
    expected.insert("A Dance With Dragons".to_string());

    assert_eq!(expected, hash1.combine(hash2));
}

#[test]
fn merge_option_hashsets_works() {
    let mut hash1 = ValueSet::new();

    hash1.insert("To Kill a Mockingbird".to_string());
    hash1.insert("The Odyssey".to_string());
    hash1.insert("The Great Gatsby".to_string());

    let hash1_option = Some(hash1.clone());

    let mut hash2 = ValueSet::new();
    hash2.insert("To Kill a Mockingbird".to_string());
    hash2.insert("A Dance With Dragons".to_string());

    let hash2_option = Some(hash2.clone());

    let mut expected = ValueSet::new();
    expected.insert("To Kill a Mockingbird".to_string());
    expected.insert("The Odyssey".to_string());
    expected.insert("The Great Gatsby".to_string());
    expected.insert("A Dance With Dragons".to_string());

    let expected_option = Some(expected.clone());

    assert_eq!(expected_option, hash1_option.combine(hash2_option));
}

#[test]
fn merge_option_hashsets_works_with_none() {
    let mut hash1 = ValueSet::new();

    hash1.insert("To Kill a Mockingbird".to_string());
    hash1.insert("The Odyssey".to_string());
    hash1.insert("The Great Gatsby".to_string());

    let hash1_option = Some(hash1.clone());

    let hash2_option = None;

    let mut expected = ValueSet::new();
    expected.insert("To Kill a Mockingbird".to_string());
    expected.insert("The Odyssey".to_string());
    expected.insert("The Great Gatsby".to_string());

    let expected_option = Some(expected.clone());

    assert_eq!(expected_option, hash1_option.combine(hash2_option));
}

#[test]
fn merge_option_hashsets_works_with_two_nones() {
    let hash1_option: Option<ValueSet<String>> = None;

    let hash2_option: Option<ValueSet<String>> = None;

    let expected_option: Option<ValueSet<String>> = None;

    assert_eq!(expected_option, hash1_option.combine(hash2_option));
}

#[test]
fn combine_option_strings_works() {
    let string1_option = Some(String::from("First string"));
    let string2_option = Some(String::from("Second string"));
    let expected = Some(String::from("First string AND Second string"));
    assert_eq!(expected, string1_option.combine(string2_option));
}

#[test]
fn combine_option_strings_works_empty_string() {
    let string1_option: Option<String> = None;
    let string2_option = Some(String::from("Second string"));
    let expected = Some(String::from("Second string"));
    assert_eq!(expected, string1_option.combine(string2_option));
}

#[test]
fn equal_texts_combine_to_themselves() {
    assert_eq!("CC0-1.0".to_string().combine("CC0-1.0".to_string()), "CC0-1.0");
    assert_eq!(String::new().combine(String::new()), "");
}

#[test]
fn different_texts_join_in_argument_order() {
    assert_eq!("x".to_string().combine("y".to_string()), "x AND y");
    assert_eq!("y".to_string().combine("x".to_string()), "y AND x");
    assert_eq!("".to_string().combine("y".to_string()), " AND y");
}

#[test]
fn commuting_texts_combine_alike_in_both_orders() {
    let xy = "a".to_string().combine("a AND a".to_string());
    let yx = "a AND a".to_string().combine("a".to_string());
    assert_eq!(xy, "a AND a AND a");
    assert_eq!(xy, yx);
}

#[test]
fn set_union_contains_both_and_ignores_order() {
    let a = set_of(&["p", "q"]);
    let b = set_of(&["q", "r", "s"]);
    let ab = a.clone().combine(b.clone());
    let ba = b.clone().combine(a.clone());
    assert_eq!(ab, ba);
    assert_eq!(ab.len(), 4);
    for x in ["p", "q", "r", "s"] {
        assert!(ab.contains(&x.to_string()));
    }
    assert!(ab.len() >= a.len() && ab.len() >= b.len());
}

#[test]
fn set_union_with_empty_set() {
    let a = set_of(&["p"]);
    let empty: ValueSet<String> = ValueSet::new();
    assert!(empty.is_empty());
    assert_eq!(a.clone().combine(empty.clone()), a);
    assert_eq!(empty.clone().combine(empty), ValueSet::<String>::new());
}

#[test]
fn set_insert_keeps_one_of_equal_values() {
    let mut s = ValueSet::new();
    assert!(s.insert("a".to_string()));
    assert!(!s.insert("a".to_string()));
    assert!(s.insert("b".to_string()));
    assert_eq!(s.len(), 2);
    assert!(!s.contains(&"c".to_string()));
    assert_eq!(s.into_vec(), vec!["a".to_string(), "b".to_string()]);
}

#[test]
fn sets_compare_without_regard_to_order() {
    assert_eq!(set_of(&["a", "b"]), set_of(&["b", "a"]));
    assert_ne!(set_of(&["a", "b"]), set_of(&["a"]));
    assert_ne!(set_of(&["a", "b"]), set_of(&["a", "c"]));
}

#[test]
fn optional_absence_is_identity() {
    let none: Option<String> = None;
    assert_eq!(none.clone().combine(None), None);
    assert_eq!(Some("x".to_string()).combine(None), Some("x".to_string()));
    assert_eq!(None.combine(Some("x".to_string())), Some("x".to_string()));
    assert_eq!(
        Some("x".to_string()).combine(Some("y".to_string())),
        Some("x AND y".to_string())
    );
}
