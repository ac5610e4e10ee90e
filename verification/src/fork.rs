use vstd::prelude::*;
use vstd::string::*;

use crate::error::{ErrorType, RuntimeError, RuntimeErrorView};
use crate::namespace::{is_supported, namespace_flag, to_flags};
use crate::spec::{LinuxNamespace, LinuxNamespaceType, Spec};

verus! {

/// The clone flags for a list of namespaces: the flags of its namespaces
/// or-ed together, in order; no flag at all for an empty list.
pub open spec fn flags_of(ns: Seq<LinuxNamespace>) -> i32
    decreases ns.len(),
{
    if ns.len() == 0 {
        0
    } else {
        flags_of(ns.drop_last()) | namespace_flag(ns.last().typ)
    }
}

/// Every namespace of the list is of a kind that has a clone flag.
pub open spec fn all_supported(ns: Seq<LinuxNamespace>) -> bool {
    forall|i: int| 0 <= i < ns.len() ==> is_supported(#[trigger] ns[i].typ)
}

/// The list holds a namespace of kind `t`.
pub open spec fn lists_kind(ns: Seq<LinuxNamespace>, t: LinuxNamespaceType) -> bool {
    exists|i: int| 0 <= i < ns.len() && (#[trigger] ns[i]).typ == t
}

/// The flags with which a container's first process is cloned: those of all
/// the namespaces it is given.
pub fn clone_flags(namespaces: &Vec<LinuxNamespace>) -> (r: i32)
    requires
        all_supported(namespaces@),
    ensures
        r == flags_of(namespaces@),
{
    let mut flags: i32 = 0;
    let n = namespaces.len();
    let mut i: usize = 0;
    while i < n
        invariant
            n == namespaces@.len(),
            i <= n,
            all_supported(namespaces@),
            flags == flags_of(namespaces@.take(i as int)),
        decreases n - i,
    {
        assert(namespaces@.take(i + 1).drop_last() == namespaces@.take(i as int));
        assert(is_supported(namespaces@[i as int].typ));
        flags = flags | to_flags(&namespaces[i]);
        i = i + 1;
    }
    assert(namespaces@.take(n as int) == namespaces@);
    flags
}

/// Or and and over 32-bit words.
proof fn lemma_bits(a: i32, b: i32, c: i32)
    by (bit_vector)
    ensures
        (a | b) & c == (a & c) | (b & c),
        a | 0 == a,
        0 | a == a,
        a | a == a,
        0 & c == 0,
{
}

/// The namespace flags are distinct single bits within the mask 0x7E02_0000.
proof fn lemma_flag_constants()
    by (bit_vector)
    ensures
        0x0002_0000i32 & 0x0002_0000i32 == 0x0002_0000i32,
        0x0200_0000i32 & 0x0200_0000i32 == 0x0200_0000i32,
        0x0400_0000i32 & 0x0400_0000i32 == 0x0400_0000i32,
        0x0800_0000i32 & 0x0800_0000i32 == 0x0800_0000i32,
        0x1000_0000i32 & 0x1000_0000i32 == 0x1000_0000i32,
        0x2000_0000i32 & 0x2000_0000i32 == 0x2000_0000i32,
        0x4000_0000i32 & 0x4000_0000i32 == 0x4000_0000i32,
        0x0002_0000i32 & 0x0200_0000i32 == 0,
        0x0002_0000i32 & 0x0400_0000i32 == 0,
        0x0002_0000i32 & 0x0800_0000i32 == 0,
        0x0002_0000i32 & 0x1000_0000i32 == 0,
        0x0002_0000i32 & 0x2000_0000i32 == 0,
        0x0002_0000i32 & 0x4000_0000i32 == 0,
        0x0200_0000i32 & 0x0002_0000i32 == 0,
        0x0200_0000i32 & 0x0400_0000i32 == 0,
        0x0200_0000i32 & 0x0800_0000i32 == 0,
        0x0200_0000i32 & 0x1000_0000i32 == 0,
        0x0200_0000i32 & 0x2000_0000i32 == 0,
        0x0200_0000i32 & 0x4000_0000i32 == 0,
        0x0400_0000i32 & 0x0002_0000i32 == 0,
        0x0400_0000i32 & 0x0200_0000i32 == 0,
        0x0400_0000i32 & 0x0800_0000i32 == 0,
        0x0400_0000i32 & 0x1000_0000i32 == 0,
        0x0400_0000i32 & 0x2000_0000i32 == 0,
        0x0400_0000i32 & 0x4000_0000i32 == 0,
        0x0800_0000i32 & 0x0002_0000i32 == 0,
        0x0800_0000i32 & 0x0200_0000i32 == 0,
        0x0800_0000i32 & 0x0400_0000i32 == 0,
        0x0800_0000i32 & 0x1000_0000i32 == 0,
        0x0800_0000i32 & 0x2000_0000i32 == 0,
        0x0800_0000i32 & 0x4000_0000i32 == 0,
        0x1000_0000i32 & 0x0002_0000i32 == 0,
        0x1000_0000i32 & 0x0200_0000i32 == 0,
        0x1000_0000i32 & 0x0400_0000i32 == 0,
        0x1000_0000i32 & 0x0800_0000i32 == 0,
        0x1000_0000i32 & 0x2000_0000i32 == 0,
        0x1000_0000i32 & 0x4000_0000i32 == 0,
        0x2000_0000i32 & 0x0002_0000i32 == 0,
        0x2000_0000i32 & 0x0200_0000i32 == 0,
        0x2000_0000i32 & 0x0400_0000i32 == 0,
        0x2000_0000i32 & 0x0800_0000i32 == 0,
        0x2000_0000i32 & 0x1000_0000i32 == 0,
        0x2000_0000i32 & 0x4000_0000i32 == 0,
        0x4000_0000i32 & 0x0002_0000i32 == 0,
        0x4000_0000i32 & 0x0200_0000i32 == 0,
        0x4000_0000i32 & 0x0400_0000i32 == 0,
        0x4000_0000i32 & 0x0800_0000i32 == 0,
        0x4000_0000i32 & 0x1000_0000i32 == 0,
        0x4000_0000i32 & 0x2000_0000i32 == 0,
        0x0002_0000i32 & !0x7E02_0000i32 == 0,
        0x0200_0000i32 & !0x7E02_0000i32 == 0,
        0x0400_0000i32 & !0x7E02_0000i32 == 0,
        0x0800_0000i32 & !0x7E02_0000i32 == 0,
        0x1000_0000i32 & !0x7E02_0000i32 == 0,
        0x2000_0000i32 & !0x7E02_0000i32 == 0,
        0x4000_0000i32 & !0x7E02_0000i32 == 0,
{
}

/// The flags of two supported kinds overlap exactly when the kinds are the same.
proof fn lemma_flag_overlap(t: LinuxNamespaceType, u: LinuxNamespaceType)
    requires
        is_supported(t),
        is_supported(u),
    ensures
        namespace_flag(u) & namespace_flag(t) == (if u == t { namespace_flag(t) } else { 0 }),
        namespace_flag(u) & !0x7E02_0000i32 == 0,
{
    lemma_flag_constants();
}

/// The clone flags hold the flag of a kind exactly when the list holds a
/// namespace of that kind.
pub proof fn law_flags_hold_listed_kinds(ns: Seq<LinuxNamespace>, t: LinuxNamespaceType)
    requires
        all_supported(ns),
        is_supported(t),
    ensures
        flags_of(ns) & namespace_flag(t) == (if lists_kind(ns, t) { namespace_flag(t) } else { 0 }),
    decreases ns.len(),
{
    if ns.len() == 0 {
        lemma_bits(0, 0, namespace_flag(t));
    } else {
        let init = ns.drop_last();
        assert(all_supported(init)) by {
            assert forall|i: int| 0 <= i < init.len() implies is_supported(#[trigger] init[i].typ) by {
                assert(init[i] == ns[i]);
            }
        }
        law_flags_hold_listed_kinds(init, t);
        assert(is_supported(ns[ns.len() - 1].typ));
        lemma_flag_overlap(t, ns.last().typ);
        lemma_bits(flags_of(init), namespace_flag(ns.last().typ), namespace_flag(t));
        lemma_bits(namespace_flag(t), 0, 0);
        lemma_bits(0, 0, 0);
        if lists_kind(ns, t) {
            let i = choose|i: int| 0 <= i < ns.len() && (#[trigger] ns[i]).typ == t;
            if i < ns.len() - 1 {
                assert(init[i] == ns[i]);
                assert(lists_kind(init, t));
            }
        } else {
            assert(!lists_kind(init, t)) by {
                if lists_kind(init, t) {
                    let i = choose|i: int| 0 <= i < init.len() && (#[trigger] init[i]).typ == t;
                    assert(ns[i] == init[i]);
                }
            }
            assert(ns.last() == ns[ns.len() - 1]);
        }
    }
}

/// The clone flags set no bit beyond the namespace flags.
pub proof fn law_flags_within_namespace_bits(ns: Seq<LinuxNamespace>)
    requires
        all_supported(ns),
    ensures
        flags_of(ns) & !0x7E02_0000i32 == 0,
    decreases ns.len(),
{
    if ns.len() == 0 {
        lemma_bits(0, 0, !0x7E02_0000i32);
    } else {
        let init = ns.drop_last();
        assert(all_supported(init)) by {
            assert forall|i: int| 0 <= i < init.len() implies is_supported(#[trigger] init[i].typ) by {
                assert(init[i] == ns[i]);
            }
        }
        law_flags_within_namespace_bits(init);
        assert(is_supported(ns[ns.len() - 1].typ));
        lemma_flag_overlap(ns.last().typ, ns.last().typ);
        lemma_bits(flags_of(init), namespace_flag(ns.last().typ), !0x7E02_0000i32);
        lemma_bits(0, 0, 0);
    }
}

/// Two words that agree on the seven namespace bits and have no other bit set are equal.
proof fn lemma_same_namespace_bits(x: i32, y: i32)
    by (bit_vector)
    requires
        x & !0x7E02_0000i32 == 0,
        y & !0x7E02_0000i32 == 0,
        x & 0x0002_0000i32 == y & 0x0002_0000i32,
        x & 0x0200_0000i32 == y & 0x0200_0000i32,
        x & 0x0400_0000i32 == y & 0x0400_0000i32,
        x & 0x0800_0000i32 == y & 0x0800_0000i32,
        x & 0x1000_0000i32 == y & 0x1000_0000i32,
        x & 0x2000_0000i32 == y & 0x2000_0000i32,
        x & 0x4000_0000i32 == y & 0x4000_0000i32,
    ensures
        x == y,
{
}

/// With no namespace to create, the clone flags are empty.
pub proof fn law_no_namespaces_no_flags()
    ensures
        flags_of(Seq::<LinuxNamespace>::empty()) == 0,
{
}

/// The clone flags depend only on which kinds of namespace are listed, not
/// on their order or on repetitions.
pub proof fn law_flags_depend_on_kinds_only(a: Seq<LinuxNamespace>, b: Seq<LinuxNamespace>)
    requires
        all_supported(a),
        all_supported(b),
        forall|t: LinuxNamespaceType| is_supported(t) ==> (lists_kind(a, t) <==> lists_kind(b, t)),
    ensures
        flags_of(a) == flags_of(b),
{
    law_flags_within_namespace_bits(a);
    law_flags_within_namespace_bits(b);
    law_flags_hold_listed_kinds(a, LinuxNamespaceType::Mount);
    law_flags_hold_listed_kinds(b, LinuxNamespaceType::Mount);
    law_flags_hold_listed_kinds(a, LinuxNamespaceType::Cgroup);
    law_flags_hold_listed_kinds(b, LinuxNamespaceType::Cgroup);
    law_flags_hold_listed_kinds(a, LinuxNamespaceType::Uts);
    law_flags_hold_listed_kinds(b, LinuxNamespaceType::Uts);
    law_flags_hold_listed_kinds(a, LinuxNamespaceType::Ipc);
    law_flags_hold_listed_kinds(b, LinuxNamespaceType::Ipc);
    law_flags_hold_listed_kinds(a, LinuxNamespaceType::User);
    law_flags_hold_listed_kinds(b, LinuxNamespaceType::User);
    law_flags_hold_listed_kinds(a, LinuxNamespaceType::Pid);
    law_flags_hold_listed_kinds(b, LinuxNamespaceType::Pid);
    law_flags_hold_listed_kinds(a, LinuxNamespaceType::Network);
    law_flags_hold_listed_kinds(b, LinuxNamespaceType::Network);
    lemma_same_namespace_bits(flags_of(a), flags_of(b));
}

/// The paths of the namespaces that name one, in order.
pub open spec fn paths_of(ns: Seq<LinuxNamespace>) -> Seq<Seq<u8>>
    decreases ns.len(),
{
    if ns.len() == 0 {
        Seq::empty()
    } else {
        match ns.last().path {
            Some(p) => paths_of(ns.drop_last()).push(p@),
            None => paths_of(ns.drop_last()),
        }
    }
}

/// An error of a container with the given message, as plain values.
pub open spec fn container_error_view(message: Seq<char>) -> RuntimeErrorView {
    RuntimeErrorView { message, error_type: ErrorType::Container }
}

/// What forking a container reads of its configuration: the paths of the
/// existing namespaces it is to join, or the error for a configuration
/// without a Linux section or without namespaces.
pub open spec fn namespace_paths_spec(spec: Spec) -> Result<Seq<Seq<u8>>, RuntimeErrorView> {
    match spec.linux {
        None => Err(container_error_view("linux is not defined"@)),
        Some(linux) => match linux.namespaces {
            None => Err(container_error_view("namespaces is not defined"@)),
            Some(ns) => Ok(paths_of(ns@)),
        },
    }
}

/// The paths of the existing namespaces that a forked container joins, in
/// the order of the configuration.
pub fn namespace_paths(spec: &Spec) -> (r: Result<Vec<Vec<u8>>, RuntimeError>)
    ensures
        match namespace_paths_spec(*spec) {
            Ok(paths) => r matches Ok(v) && v@.map_values(|p: Vec<u8>| p@) == paths,
            Err(e) => r matches Err(err) && err@ == e,
        },
        (spec.linux is Some && spec.linux->0.namespaces is Some) ==> (r matches Ok(v)
            && v@.map_values(|p: Vec<u8>| p@) == spec.linux->0.namespaces->0@.filter(|n: LinuxNamespace| names_a_path(n)).map_values(
            |n: LinuxNamespace| n.path->0@,
        )),
{
    let linux = match &spec.linux {
        Some(linux) => linux,
        None => {
            return Err(RuntimeError::container(String::from_str("linux is not defined")));
        },
    };
    let namespaces = match &linux.namespaces {
        Some(namespaces) => namespaces,
        None => {
            return Err(RuntimeError::container(String::from_str("namespaces is not defined")));
        },
    };
    let mut paths: Vec<Vec<u8>> = Vec::new();
    let n = namespaces.len();
    let mut i: usize = 0;
    while i < n
        invariant
            n == namespaces@.len(),
            i <= n,
            paths@.map_values(|p: Vec<u8>| p@) == paths_of(namespaces@.take(i as int)),
        decreases n - i,
    {
        assert(namespaces@.take(i + 1).drop_last() == namespaces@.take(i as int));
        assert(namespaces@.take(i + 1).last() == namespaces@[i as int]);
        match &namespaces[i].path {
            Some(p) => {
                let copy = p.clone();
                assert(copy@ =~= p@);
                paths.push(copy);
            },
            None => {},
        }
        i = i + 1;
    }
    assert(namespaces@.take(n as int) == namespaces@);
    proof {
        law_paths_are_every_given_path(namespaces@);
    }
    Ok(paths)
}

/// A namespace that names an existing namespace to join.
pub open spec fn names_a_path(n: LinuxNamespace) -> bool {
    n.path is Some
}

/// The namespace paths that forking joins are exactly the paths of the
/// namespaces that name one, whatever their kind, in the order of the list:
/// one entry per such namespace, the `k`-th being the path of the `k`-th.
pub proof fn law_paths_are_every_given_path(ns: Seq<LinuxNamespace>)
    ensures
        paths_of(ns) == ns.filter(|n: LinuxNamespace| names_a_path(n)).map_values(
            |n: LinuxNamespace| n.path->0@,
        ),
        paths_of(ns).len() == ns.filter(|n: LinuxNamespace| names_a_path(n)).len(),
    decreases ns.len(),
{
    let pred = |n: LinuxNamespace| names_a_path(n);
    let f = |n: LinuxNamespace| n.path->0@;
    reveal_with_fuel(Seq::filter, 1);
    if ns.len() == 0 {
        assert(ns.filter(pred) == ns);
        assert(ns.filter(pred).map_values(f) =~= Seq::<Seq<u8>>::empty());
    } else {
        law_paths_are_every_given_path(ns.drop_last());
        let sub = ns.drop_last().filter(pred);
        if pred(ns.last()) {
            assert(ns.filter(pred) == sub.push(ns.last()));
            assert(sub.push(ns.last()).map_values(f) =~= sub.map_values(f).push(f(ns.last())));
        } else {
            assert(ns.filter(pred) == sub);
        }
    }
}

} // verus!
