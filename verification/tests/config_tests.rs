use libruntime::create::{create_from_config, CreateBuilder};
use libruntime::start::{start_from_config, StartBuilder};

const CONFIG: &str = r#"{
    "ociVersion": "1.0.2",
    "root": { "path": "rootfs" },
    "linux": { "namespaces": [ { "type": "pid" }, { "type": "mount" } ] }
}"#;

#[test]
fn create_accepts_runtime_configuration() {
    let params = CreateBuilder::new("/bundle".to_string(), "c1".to_string());
    assert!(create_from_config(&params, CONFIG).is_ok());
}

#[test]
fn create_refuses_text_that_is_not_a_configuration() {
    let params = CreateBuilder::new("/bundle".to_string(), "c1".to_string());
    let e = create_from_config(&params, "{ not json").unwrap_err();
    assert!(!e.is_empty());
    assert!(create_from_config(&params, "[1, 2]").is_err());
}

#[test]
fn start_parses_like_create() {
    let params = StartBuilder::new("c1".to_string(), "/run".to_string());
    assert!(start_from_config(&params, CONFIG).is_ok());
    let e = start_from_config(&params, "").unwrap_err();
    let c = create_from_config(&CreateBuilder::new("b".to_string(), "c1".to_string()), "").unwrap_err();
    assert_eq!(e, c);
}
