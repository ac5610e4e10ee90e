use libruntime::create::CreateBuilder;
use libruntime::error::{ErrorType, RuntimeError};
use libruntime::oci_version;
use libruntime::start::StartBuilder;
use libruntime::state::{state, StateBuilder, StateBuilderError, Status};

#[test]
fn oci_version_is_0_2_0() {
    assert_eq!(oci_version(), "0.2.0");
}

#[test]
fn state_starts_creating_with_defaults() {
    let s = state("c1".to_string()).unwrap();
    assert_eq!(s.oci_version, "0.2.0");
    assert_eq!(s.container_id, "c1");
    assert_eq!(s.status, Status::Creating);
    assert_eq!(s.pid, 0);
    assert_eq!(s.bundle, "");
}

#[test]
fn builder_fills_defaults() {
    let s = StateBuilder::default()
        .container_id("abc".to_string())
        .pid(42)
        .bundle("/bundle".to_string())
        .build()
        .unwrap();
    assert_eq!(s.oci_version, "0.2.0");
    assert_eq!(s.status, Status::Creating);
    assert_eq!(s.pid, 42);
    assert_eq!(s.bundle, "/bundle");
}

#[test]
fn builder_keeps_set_values() {
    let s = StateBuilder::default()
        .oci_version("1.0.2".to_string())
        .container_id("x".to_string())
        .status(Status::Running)
        .pid(7)
        .pid(8)
        .bundle("b".to_string())
        .build()
        .unwrap();
    assert_eq!(s.oci_version, "1.0.2");
    assert_eq!(s.status, Status::Running);
    assert_eq!(s.pid, 8);
}

#[test]
fn builder_reports_first_missing_field() {
    let e = StateBuilder::default().build().unwrap_err();
    assert_eq!(e, StateBuilderError::UninitializedField("container_id"));
    let e = StateBuilder::default().container_id("x".to_string()).build().unwrap_err();
    assert_eq!(e, StateBuilderError::UninitializedField("pid"));
    let e = StateBuilder::default()
        .container_id("x".to_string())
        .pid(1)
        .build()
        .unwrap_err();
    assert_eq!(e, StateBuilderError::UninitializedField("bundle"));
    let e = StateBuilder::default().pid(1).bundle("b".to_string()).build().unwrap_err();
    assert_eq!(e, StateBuilderError::UninitializedField("container_id"));
}

#[test]
fn state_clone_is_equal() {
    let s = state("c2".to_string()).unwrap();
    let t = s.clone();
    assert_eq!(t.container_id, "c2");
    assert_eq!(t.status, Status::Creating);
}

#[test]
fn runtime_error_text() {
    let e = RuntimeError::runtime("boom".to_string());
    assert_eq!(e.to_string(), "boom, error type: Runtime");
    let e = RuntimeError::container("linux is not defined".to_string());
    assert_eq!(e.error_type, ErrorType::Container);
    assert_eq!(e.to_string(), "linux is not defined, error type: Container");
    assert_eq!(ErrorType::Runtime.to_string(), "Runtime");
}

#[test]
fn create_builder_keeps_parameters() {
    let c = CreateBuilder::new("/bundle".to_string(), "id1".to_string());
    assert_eq!(c.bundle, "/bundle");
    assert_eq!(c.id, "id1");
}

#[test]
fn start_builder_root_has_no_separator() {
    let s = StartBuilder::new("id1".to_string(), "/run/balaeno".to_string());
    assert_eq!(s.id, "id1");
    assert_eq!(s.root, "/run/balaeno");
    assert_eq!(s.container_root("/run/balaeno"), "/run/balaenoid1");
    assert_eq!(s.container_root("/run/balaeno/"), "/run/balaeno/id1");
}
