use extractous::Metadata;

fn strings(items: &[&str]) -> Vec<String> {
    let mut v: Vec<String> = Vec::new();
    for item in items {
        v.push((*item).to_string());
    }
    v
}

#[test]
fn decoded_metadata_contains_expected_keys_and_values() {
    let flat = strings(&[
        "Content-Type",
        "text/markdown",
        "Content-Length",
        "123",
    ]);
    let metadata = Metadata::from_flat(&flat);
    assert!(metadata.len() > 0, "Metadata should contain at least one entry");
    assert_eq!(metadata.len(), 2);
    assert_eq!(
        metadata.get("Content-Type"),
        Some(&strings(&["text/markdown"]))
    );
    assert_eq!(metadata.get("Content-Length"), Some(&strings(&["123"])));
}

#[test]
fn decoded_metadata_collects_repeated_keys_in_order() {
    let flat = strings(&["dc:creator", "first", "dc:title", "t", "dc:creator", "second"]);
    let metadata = Metadata::from_flat(&flat);
    assert_eq!(metadata.len(), 2);
    assert_eq!(metadata.get("dc:creator"), Some(&strings(&["first", "second"])));
    assert_eq!(metadata.get("dc:title"), Some(&strings(&["t"])));
}

#[test]
fn decoded_metadata_ignores_a_trailing_key_without_value() {
    let flat = strings(&["a", "1", "dangling"]);
    let metadata = Metadata::from_flat(&flat);
    assert_eq!(metadata.len(), 1);
    assert_eq!(metadata.get("a"), Some(&strings(&["1"])));
    assert_eq!(metadata.get("dangling"), None);
}

#[test]
fn empty_flat_array_decodes_to_empty_metadata() {
    let metadata = Metadata::from_flat(&Vec::new());
    assert!(metadata.is_empty());
    assert_eq!(metadata.len(), 0);
    assert_eq!(metadata.get("anything"), None);
}

#[test]
fn unknown_key_is_none() {
    let flat = strings(&["k", "v"]);
    let metadata = Metadata::from_flat(&flat);
    assert_eq!(metadata.get("K"), None);
    assert_eq!(metadata.get(""), None);
}

#[test]
fn add_value_appends_under_an_existing_key() {
    let mut metadata = Metadata::new();
    metadata.add_value("k".to_string(), "1".to_string());
    metadata.add_value("other".to_string(), "x".to_string());
    metadata.add_value("k".to_string(), "2".to_string());
    assert_eq!(metadata.len(), 2);
    assert_eq!(metadata.get("k"), Some(&strings(&["1", "2"])));
    assert_eq!(metadata.get("other"), Some(&strings(&["x"])));
}
