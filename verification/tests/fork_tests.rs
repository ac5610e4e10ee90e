use libruntime::error::ErrorType;
use libruntime::fork::{clone_flags, namespace_paths};
use libruntime::namespace::to_flags;
use libruntime::spec::{Linux, LinuxNamespace, LinuxNamespaceType, Spec};

fn ns(typ: LinuxNamespaceType, path: Option<&str>) -> LinuxNamespace {
    LinuxNamespace { typ, path: path.map(|p| p.as_bytes().to_vec()) }
}

#[test]
fn each_namespace_has_its_clone_flag() {
    assert_eq!(to_flags(&ns(LinuxNamespaceType::Pid, None)), 0x2000_0000);
    assert_eq!(to_flags(&ns(LinuxNamespaceType::Network, None)), 0x4000_0000);
    assert_eq!(to_flags(&ns(LinuxNamespaceType::Mount, None)), 0x0002_0000);
    assert_eq!(to_flags(&ns(LinuxNamespaceType::Ipc, None)), 0x0800_0000);
    assert_eq!(to_flags(&ns(LinuxNamespaceType::Uts, None)), 0x0400_0000);
    assert_eq!(to_flags(&ns(LinuxNamespaceType::User, None)), 0x1000_0000);
    assert_eq!(to_flags(&ns(LinuxNamespaceType::Cgroup, None)), 0x0200_0000);
}

#[test]
fn clone_flags_or_together() {
    assert_eq!(clone_flags(&Vec::new()), 0);
    let v = vec![ns(LinuxNamespaceType::Pid, None), ns(LinuxNamespaceType::Mount, Some("/proc/1/ns/mnt"))];
    assert_eq!(clone_flags(&v), 0x2002_0000);
    let w = vec![
        ns(LinuxNamespaceType::Mount, None),
        ns(LinuxNamespaceType::Pid, None),
        ns(LinuxNamespaceType::Pid, None),
    ];
    assert_eq!(clone_flags(&w), clone_flags(&v));
}

#[test]
fn clone_flags_of_all_kinds() {
    let v = vec![
        ns(LinuxNamespaceType::Pid, None),
        ns(LinuxNamespaceType::Network, None),
        ns(LinuxNamespaceType::Mount, None),
        ns(LinuxNamespaceType::Ipc, None),
        ns(LinuxNamespaceType::Uts, None),
        ns(LinuxNamespaceType::User, None),
        ns(LinuxNamespaceType::Cgroup, None),
    ];
    assert_eq!(clone_flags(&v), 0x7E02_0000);
}

#[test]
fn namespace_paths_need_linux_section() {
    let e = namespace_paths(&Spec { linux: None }).unwrap_err();
    assert_eq!(e.message, "linux is not defined");
    assert_eq!(e.error_type, ErrorType::Container);
    assert_eq!(e.to_string(), "linux is not defined, error type: Container");
}

#[test]
fn namespace_paths_need_namespaces() {
    let e = namespace_paths(&Spec { linux: Some(Linux { namespaces: None }) }).unwrap_err();
    assert_eq!(e.message, "namespaces is not defined");
    assert_eq!(e.error_type, ErrorType::Container);
}

#[test]
fn namespace_paths_in_order() {
    let spec = Spec {
        linux: Some(Linux {
            namespaces: Some(vec![
                ns(LinuxNamespaceType::Pid, Some("/proc/9/ns/pid")),
                ns(LinuxNamespaceType::Mount, None),
                ns(LinuxNamespaceType::Network, Some("/var/run/netns/x")),
            ]),
        }),
    };
    assert_eq!(namespace_paths(&spec).unwrap(), vec![b"/proc/9/ns/pid".to_vec(), b"/var/run/netns/x".to_vec()]);
    let empty = Spec { linux: Some(Linux { namespaces: Some(Vec::new()) }) };
    assert!(namespace_paths(&empty).unwrap().is_empty());
}
