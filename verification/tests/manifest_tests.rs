use cch24_core::manifest::{evaluate_manifest, manifest, ManifestError, RawOrder};

fn toml_ct() -> Option<String> {
    Some("application/toml".to_string())
}

#[test]
fn test_manifest() {
    let toml = r#"
        [package]
        name = "not-a-gift-order"
        authors = ["Not Santa"]
        keywords = ["Christmas 2024"]

        [[package.metadata.orders]]
        item = "Toy car"
        quantity = 2

        [[package.metadata.orders]]
        item = "Lego brick"
        quantity = 230
    "#;
    let ct = toml_ct();
    let actual = manifest(ct.as_ref(), toml.to_string()).unwrap();
    assert_eq!(actual, "Toy car: 2\nLego brick: 230");
}

#[test]
fn test_keyword_validation() {
    let toml = r#"
        [package]
        name = "not-a-gift-order"
        authors = ["Not Santa"]
        keywords = ["Fartmas 2069"]
    "#;
    let ct = toml_ct();
    let actual = manifest(ct.as_ref(), toml.to_string());
    assert_eq!(actual, Err(ManifestError::NotChristmas));
}

#[test]
fn test_manifest_unsupported_content_type() {
    let html = Some("text/html".to_string());
    assert_eq!(manifest(html.as_ref(), "whatever".to_string()), Err(ManifestError::Unsupported));
    assert_eq!(manifest(None, "whatever".to_string()), Err(ManifestError::Unsupported));
}

#[test]
fn test_manifest_invalid_toml() {
    let ct = toml_ct();
    assert_eq!(
        manifest(ct.as_ref(), "not = = toml".to_string()),
        Err(ManifestError::InvalidToml)
    );
}

#[test]
fn test_manifest_invalid_cargo_toml() {
    let ct = toml_ct();
    // Parses as TOML, but `package` is no table, so it is no Cargo manifest.
    assert_eq!(
        manifest(ct.as_ref(), "package = 1".to_string()),
        Err(ManifestError::InvalidCargoToml)
    );
}

#[test]
fn test_manifest_no_orders() {
    let toml = r#"
        [package]
        name = "gift-order"
        keywords = ["Christmas 2024"]
    "#;
    let ct = toml_ct();
    assert_eq!(manifest(ct.as_ref(), toml.to_string()), Err(ManifestError::NoOrders));
}

#[test]
fn test_manifest_orders_without_fields_are_skipped() {
    let toml = r#"
        [package]
        name = "gift-order"
        keywords = ["Christmas 2024"]

        [[package.metadata.orders]]
        item = "Toy car"

        [[package.metadata.orders]]
        quantity = 5
    "#;
    let ct = toml_ct();
    // Both orders lack a field, so none is valid.
    assert_eq!(manifest(ct.as_ref(), toml.to_string()), Err(ManifestError::NoOrders));
}

#[test]
fn test_manifest_from_json() {
    let json = r#"{
        "package": {
            "name": "gift-order",
            "keywords": ["Christmas 2024"],
            "metadata": { "orders": [ { "item": "Doll", "quantity": 3 } ] }
        }
    }"#;
    let ct = Some("application/json".to_string());
    assert_eq!(manifest(ct.as_ref(), json.to_string()).unwrap(), "Doll: 3");
}

#[test]
fn test_manifest_invalid_json() {
    let ct = Some("application/json".to_string());
    assert_eq!(manifest(ct.as_ref(), "{ not json".to_string()), Err(ManifestError::InvalidJson));
}

#[test]
fn test_manifest_from_yaml() {
    let yaml = "package:\n  name: gift-order\n  keywords:\n    - \"Christmas 2024\"\n  metadata:\n    orders:\n      - item: \"Sled\"\n        quantity: 7\n";
    let ct = Some("application/yaml".to_string());
    assert_eq!(manifest(ct.as_ref(), yaml.to_string()).unwrap(), "Sled: 7");
}

#[test]
fn test_manifest_invalid_yaml() {
    let ct = Some("application/yaml".to_string());
    assert_eq!(
        manifest(ct.as_ref(), ": not yaml: [".to_string()),
        Err(ManifestError::InvalidYaml)
    );
}

#[test]
fn test_evaluate_manifest_formats_orders() {
    let keywords = Some(vec![Some("Christmas 2024".to_string())]);
    let orders = Some(vec![
        RawOrder { item: Some("Toy car".to_string()), quantity: Some(2) },
        RawOrder { item: None, quantity: Some(9) },
        RawOrder { item: Some("Nothing".to_string()), quantity: None },
        RawOrder { item: Some("Coal".to_string()), quantity: Some(-5) },
    ]);
    assert_eq!(evaluate_manifest(keywords, orders).unwrap(), "Toy car: 2\nCoal: -5");
}

#[test]
fn test_evaluate_manifest_requires_keyword() {
    let keywords = Some(vec![Some("Christmas 2023".to_string()), None]);
    let orders = Some(vec![RawOrder { item: Some("Toy".to_string()), quantity: Some(1) }]);
    assert_eq!(evaluate_manifest(keywords, orders), Err(ManifestError::NotChristmas));
    assert_eq!(evaluate_manifest(None, None), Err(ManifestError::NotChristmas));
}

#[test]
fn test_evaluate_manifest_requires_orders() {
    let keywords = Some(vec![Some("Christmas 2024".to_string())]);
    assert_eq!(evaluate_manifest(keywords, None), Err(ManifestError::NoOrders));
    let keywords = Some(vec![Some("Christmas 2024".to_string())]);
    assert_eq!(evaluate_manifest(keywords, Some(vec![])), Err(ManifestError::NoOrders));
}
