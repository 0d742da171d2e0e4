use merge_sbom::{
    merge_at, Checksum, Combinable, MergeError, Package, Relationship, Sbom, Timestamp,
    ValueSet, ValueEq, MERGE_TOOL_CREATOR, SPDX_VERSION,
};

fn strings(items: &[&str]) -> ValueSet<String> {
    let mut s = ValueSet::new();
    for item in items {
        s.insert(item.to_string());
    }
    s
}

fn package(id: &str, description: Option<&str>) -> Package {
    Package {
        spdxid: id.to_string(),
        name: format!("name of {id}"),
        description: description.map(|d| d.to_string()),
        ..Default::default()
    }
}

fn packages(items: Vec<Package>) -> ValueSet<Package> {
    let mut s = ValueSet::new();
    for item in items {
        s.insert(item);
    }
    s
}

fn document(name: &str) -> Sbom {
    Sbom {
        spdxid: "SPDXRef-DOCUMENT".to_string(),
        spdx_version: SPDX_VERSION.to_string(),
        data_license: "CC0-1.0".to_string(),
        name: name.to_string(),
        document_namespace: format!("https://example.com/{name}"),
        ..Default::default()
    }
}

const AT: Timestamp = Timestamp { secs: 1_700_000_000, nanos: 5 };

#[test]
fn identical_packages_are_kept_once() {
    let mut a = document("A");
    a.packages = packages(vec![package("SPDXRef-P1", None)]);
    let mut b = document("B");
    b.packages = packages(vec![package("SPDXRef-P1", None), package("SPDXRef-P2", None)]);
    let merged = merge_at(a, b, AT).unwrap();
    assert_eq!(merged.packages.len(), 2);
    assert!(merged.packages.contains(&package("SPDXRef-P1", None)));
    assert!(merged.packages.contains(&package("SPDXRef-P2", None)));
}

#[test]
fn packages_differing_in_one_field_are_both_kept() {
    let mut a = document("A");
    a.packages = packages(vec![package("SPDXRef-P1", Some("old"))]);
    let mut b = document("B");
    b.packages = packages(vec![package("SPDXRef-P1", Some("new"))]);
    let merged = merge_at(a, b, AT).unwrap();
    assert_eq!(merged.packages.len(), 2);
}

#[test]
fn records_compare_field_by_field() {
    let p = package("SPDXRef-P1", None);
    assert!(p.value_eq(&package("SPDXRef-P1", None)));
    assert!(!p.value_eq(&package("SPDXRef-P1", Some("d"))));
    let mut q = package("SPDXRef-P1", None);
    q.checksums.insert(Checksum { algorithm: "SHA1".to_string(), checksum_value: "ab".to_string() });
    assert!(!p.value_eq(&q));
}

#[test]
fn equal_names_still_join() {
    let merged = merge_at(document("SBOM-A"), document("SBOM-A"), AT).unwrap();
    assert_eq!(merged.name, "SBOM-A AND SBOM-A");
}

#[test]
fn described_elements_of_one_side_are_kept() {
    let mut a = document("A");
    a.document_describes = Some(strings(&["X"]));
    let b = document("B");
    assert!(b.document_describes.is_none());
    let merged = merge_at(a, b, AT).unwrap();
    assert_eq!(merged.document_describes, Some(strings(&["X"])));
}

#[test]
fn first_version_wrong_is_refused() {
    let mut a = document("A");
    a.spdx_version = "SPDX-2.2".to_string();
    match merge_at(a, document("B"), AT) {
        Err(MergeError::VersionMismatch { first, second }) => {
            assert_eq!(first, "SPDX-2.2");
            assert_eq!(second, "SPDX-2.3");
        }
        Ok(_) => panic!("a document of another version was merged"),
    }
}

#[test]
fn second_version_wrong_is_refused() {
    let mut b = document("B");
    b.spdx_version = "SPDX-3.0".to_string();
    assert!(matches!(merge_at(document("A"), b, AT), Err(MergeError::VersionMismatch { .. })));
}

#[test]
fn both_versions_wrong_are_refused() {
    let mut a = document("A");
    a.spdx_version = String::new();
    let mut b = document("B");
    b.spdx_version = "SPDX-2.2".to_string();
    let err = merge_at(a, b, AT).unwrap_err();
    assert_eq!(
        err.message(),
        "Version mismatch: SPDX version in both files must be SPDX-2.3, found  and SPDX-2.2"
    );
}

#[test]
fn tool_is_added_to_creators_once() {
    let mut a = document("A");
    a.creation_info.creators = strings(&["Person: Ann", MERGE_TOOL_CREATOR]);
    let mut b = document("B");
    b.creation_info.creators = strings(&["Tool: scanner", MERGE_TOOL_CREATOR]);
    let merged = merge_at(a, b, AT).unwrap();
    assert_eq!(
        merged.creation_info.creators,
        strings(&["Person: Ann", "Tool: scanner", MERGE_TOOL_CREATOR])
    );
    let count = merged
        .creation_info
        .creators
        .into_vec()
        .iter()
        .filter(|c| c.as_str() == MERGE_TOOL_CREATOR)
        .count();
    assert_eq!(count, 1);
}

#[test]
fn tool_is_added_to_empty_creators() {
    let merged = merge_at(document("A"), document("B"), AT).unwrap();
    assert_eq!(merged.creation_info.creators, strings(&[MERGE_TOOL_CREATOR]));
    assert_eq!(MERGE_TOOL_CREATOR, "Tool: Guardian.com-Merge-SBOM");
}

#[test]
fn document_fields_follow_their_rules() {
    let mut a = document("A");
    a.spdxid = "SPDXRef-A".to_string();
    a.comment = Some("first".to_string());
    a.creation_info.created = Timestamp { secs: 1, nanos: 0 };
    a.creation_info.license_list_version = Some("3.20".to_string());
    a.relationships.insert(Relationship {
        spdx_element_id: "SPDXRef-DOCUMENT".to_string(),
        relationship_type: "DESCRIBES".to_string(),
        related_spdx_element: "SPDXRef-P1".to_string(),
    });
    let mut b = document("B");
    b.spdxid = "SPDXRef-B".to_string();
    b.data_license = "CC0-1.0".to_string();
    b.comment = Some("second".to_string());
    b.creation_info.license_list_version = Some("3.20".to_string());
    let merged = merge_at(a, b, AT).unwrap();
    assert_eq!(merged.spdxid, "SPDXRef-A");
    assert_eq!(merged.spdx_version, SPDX_VERSION);
    assert_eq!(merged.data_license, "CC0-1.0");
    assert_eq!(
        merged.document_namespace,
        "https://example.com/A AND https://example.com/B"
    );
    assert_eq!(merged.comment, Some("first AND second".to_string()));
    assert_eq!(merged.creation_info.created, AT);
    assert_eq!(merged.creation_info.license_list_version, Some("3.20".to_string()));
    assert_eq!(merged.creation_info.comment, None);
    assert_eq!(merged.relationships.len(), 1);
    assert!(merged.files.is_none());
}

#[test]
fn merge_records_the_given_instant() {
    let later = Timestamp { secs: 1_800_000_000, nanos: 999_999_999 };
    let merged = merge_at(document("A"), document("B"), later).unwrap();
    assert_eq!(merged.creation_info.created, later);
    assert_eq!(merged.name, "A AND B");
}

#[test]
fn copies_are_structurally_equal() {
    let mut p = package("SPDXRef-P1", Some("d"));
    p.checksums.insert(Checksum { algorithm: "SHA1".to_string(), checksum_value: "ab".to_string() });
    p.has_files = strings(&["SPDXRef-F1", "SPDXRef-F2"]);
    let q = p.clone();
    assert!(p.value_eq(&q));
    let mut a = document("A");
    a.packages = packages(vec![p, package("SPDXRef-P2", None)]);
    let copy = a.clone();
    assert_eq!(copy.packages, a.packages);
    assert_eq!(copy.name, a.name);
}

#[test]
fn optional_sets_of_both_sides_unite() {
    let mut a = document("A");
    a.document_describes = Some(strings(&["X", "Y"]));
    let mut b = document("B");
    b.document_describes = Some(strings(&["Y", "Z"]));
    let merged = merge_at(a, b, AT).unwrap();
    assert_eq!(merged.document_describes, Some(strings(&["X", "Y", "Z"])));
    let none: Option<ValueSet<String>> = None;
    assert_eq!(none.combine(None), None);
}
