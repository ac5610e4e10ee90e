use vstd::prelude::*;

use crate::spec::{LinuxNamespace, LinuxNamespaceType};

verus! {

/// The clone flag that creates a namespace of the given kind (the Linux
/// `CLONE_NEW*` values); the time namespace has none here.
pub open spec fn namespace_flag(t: LinuxNamespaceType) -> i32 {
    match t {
        LinuxNamespaceType::Mount => 0x0002_0000,
        LinuxNamespaceType::Cgroup => 0x0200_0000,
        LinuxNamespaceType::Uts => 0x0400_0000,
        LinuxNamespaceType::Ipc => 0x0800_0000,
        LinuxNamespaceType::User => 0x1000_0000,
        LinuxNamespaceType::Pid => 0x2000_0000,
        LinuxNamespaceType::Network => 0x4000_0000,
        LinuxNamespaceType::Time => 0,
    }
}

/// The namespace kinds for which the runtime knows a clone flag.
pub open spec fn is_supported(t: LinuxNamespaceType) -> bool {
    t != LinuxNamespaceType::Time
}

/// The bits of `nix::sched::CloneFlags::CLONE_NEWNS` (`CloneFlags::bits`); the
/// contract claims they are libc's `CLONE_NEWNS` on Linux, the value in the `ensures`.
#[verifier::external_body]
fn clone_newns() -> (r: i32)
    ensures
        r == 0x0002_0000,
{
    nix::sched::CloneFlags::CLONE_NEWNS.bits()
}

/// The bits of `nix::sched::CloneFlags::CLONE_NEWCGROUP` (`CloneFlags::bits`); the
/// contract claims they are libc's `CLONE_NEWCGROUP` on Linux, the value in the `ensures`.
#[verifier::external_body]
fn clone_newcgroup() -> (r: i32)
    ensures
        r == 0x0200_0000,
{
    nix::sched::CloneFlags::CLONE_NEWCGROUP.bits()
}

/// The bits of `nix::sched::CloneFlags::CLONE_NEWUTS` (`CloneFlags::bits`); the
/// contract claims they are libc's `CLONE_NEWUTS` on Linux, the value in the `ensures`.
#[verifier::external_body]
fn clone_newuts() -> (r: i32)
    ensures
        r == 0x0400_0000,
{
    nix::sched::CloneFlags::CLONE_NEWUTS.bits()
}

/// The bits of `nix::sched::CloneFlags::CLONE_NEWIPC` (`CloneFlags::bits`); the
/// contract claims they are libc's `CLONE_NEWIPC` on Linux, the value in the `ensures`.
#[verifier::external_body]
fn clone_newipc() -> (r: i32)
    ensures
        r == 0x0800_0000,
{
    nix::sched::CloneFlags::CLONE_NEWIPC.bits()
}

/// The bits of `nix::sched::CloneFlags::CLONE_NEWUSER` (`CloneFlags::bits`); the
/// contract claims they are libc's `CLONE_NEWUSER` on Linux, the value in the `ensures`.
#[verifier::external_body]
fn clone_newuser() -> (r: i32)
    ensures
        r == 0x1000_0000,
{
    nix::sched::CloneFlags::CLONE_NEWUSER.bits()
}

/// The bits of `nix::sched::CloneFlags::CLONE_NEWPID` (`CloneFlags::bits`); the
/// contract claims they are libc's `CLONE_NEWPID` on Linux, the value in the `ensures`.
#[verifier::external_body]
fn clone_newpid() -> (r: i32)
    ensures
        r == 0x2000_0000,
{
    nix::sched::CloneFlags::CLONE_NEWPID.bits()
}

/// The bits of `nix::sched::CloneFlags::CLONE_NEWNET` (`CloneFlags::bits`); the
/// contract claims they are libc's `CLONE_NEWNET` on Linux, the value in the `ensures`.
#[verifier::external_body]
fn clone_newnet() -> (r: i32)
    ensures
        r == 0x4000_0000,
{
    nix::sched::CloneFlags::CLONE_NEWNET.bits()
}

/// The clone flag that creates the namespace; the runtime refuses (panics on)
/// the time namespace, so it is left out here.
pub fn to_flags(namespace: &LinuxNamespace) -> (r: i32)
    requires
        is_supported(namespace.typ),
    ensures
        r == namespace_flag(namespace.typ),
{
    match namespace.typ {
        LinuxNamespaceType::Pid => clone_newpid(),
        LinuxNamespaceType::Network => clone_newnet(),
        LinuxNamespaceType::Mount => clone_newns(),
        LinuxNamespaceType::Ipc => clone_newipc(),
        LinuxNamespaceType::Uts => clone_newuts(),
        LinuxNamespaceType::User => clone_newuser(),
        LinuxNamespaceType::Cgroup => clone_newcgroup(),
        LinuxNamespaceType::Time => {
            assert(false);
            0
        },
    }
}

} // verus!
