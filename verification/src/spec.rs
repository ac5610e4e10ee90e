use vstd::prelude::*;

verus! {

/// The kinds of Linux namespace that a runtime configuration can name.
#[derive(Debug, Clone, Copy, PartialEq, Eq, Structural)]
pub enum LinuxNamespaceType {
    Mount,
    Cgroup,
    Uts,
    Ipc,
    User,
    Pid,
    Network,
    Time,
}

/// One namespace of the configuration: its kind and, where the container is
/// to join an existing namespace, the path of that namespace (its bytes, as
/// Unix paths are byte strings).
pub struct LinuxNamespace {
    pub typ: LinuxNamespaceType,
    pub path: Option<Vec<u8>>,
}

/// The Linux section of the configuration, as far as the runtime reads it.
pub struct Linux {
    pub namespaces: Option<Vec<LinuxNamespace>>,
}

/// A container's runtime configuration, as far as the runtime reads it.
pub struct Spec {
    pub linux: Option<Linux>,
}

} // verus!
