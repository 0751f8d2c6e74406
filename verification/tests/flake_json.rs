use serde_json::Value;
use std::collections::HashSet;

#[test]
fn test_parse_flake_json() {
    let json = r#"{
            "nixosConfigurations": {
                "athena": {},
                "remote-server": {}
            }
        }"#;

    let value: Value = serde_json::from_str(json).unwrap();
    let mut configs = HashSet::new();

    if let Some(nixos_configs) = value.get("nixosConfigurations") {
        if let Some(obj) = nixos_configs.as_object() {
            for key in obj.keys() {
                configs.insert(key.clone());
            }
        }
    }

    assert!(configs.contains("athena"));
    assert!(configs.contains("remote-server"));
    assert_eq!(configs.len(), 2);
}
