use vstd::prelude::*;
use vstd::string::*;

use crate::error::RuntimeError;
use crate::{oci_version, oci_version_text};

verus! {

/// The life-cycle status of a container.
#[derive(Debug, Clone, Copy, PartialEq, Eq, Structural)]
pub enum Status {
    Creating,
    Created,
    Running,
    Stopped,
}

/// The state of a container, as the OCI runtime specification describes it.
#[derive(Debug)]
pub struct State {
    pub oci_version: String,
    pub container_id: String,
    pub status: Status,
    pub pid: i32,
    pub bundle: String,
}

/// A container's state as plain values.
pub struct StateView {
    pub oci_version: Seq<char>,
    pub container_id: Seq<char>,
    pub status: Status,
    pub pid: i32,
    pub bundle: Seq<char>,
}

impl View for State {
    type V = StateView;

    open spec fn view(&self) -> StateView {
        StateView {
            oci_version: self.oci_version@,
            container_id: self.container_id@,
            status: self.status,
            pid: self.pid,
            bundle: self.bundle@,
        }
    }
}

impl Clone for State {
    fn clone(&self) -> (r: Self)
        ensures
            r@ == self@,
    {
        State {
            oci_version: self.oci_version.clone(),
            container_id: self.container_id.clone(),
            status: self.status,
            pid: self.pid,
            bundle: self.bundle.clone(),
        }
    }
}

/// Why a builder could not build a state: a field without a default was
/// never set (its name is given).
#[derive(Debug, PartialEq, Eq)]
pub enum StateBuilderError {
    UninitializedField(&'static str),
}

/// A builder of a container's state: each field is set by a method of its
/// name; `build` fills in the defaults (the runtime's OCI version, status
/// `Creating`) and fails on the first unset field that has none.
pub struct StateBuilder {
    oci_version: Option<String>,
    container_id: Option<String>,
    status: Option<Status>,
    pid: Option<i32>,
    bundle: Option<String>,
}

/// The fields set so far in a builder, as plain values.
pub struct StateBuilderView {
    pub oci_version: Option<Seq<char>>,
    pub container_id: Option<Seq<char>>,
    pub status: Option<Status>,
    pub pid: Option<i32>,
    pub bundle: Option<Seq<char>>,
}

/// The view of an optional text.
pub open spec fn opt_view(s: Option<String>) -> Option<Seq<char>> {
    match s {
        Some(s) => Some(s@),
        None => None,
    }
}

impl View for StateBuilder {
    type V = StateBuilderView;

    closed spec fn view(&self) -> StateBuilderView {
        StateBuilderView {
            oci_version: opt_view(self.oci_version),
            container_id: opt_view(self.container_id),
            status: self.status,
            pid: self.pid,
            bundle: opt_view(self.bundle),
        }
    }
}

/// The first field, in declaration order, that is unset and has no default.
pub open spec fn first_missing_field(b: StateBuilderView) -> Option<Seq<char>> {
    if b.container_id is None {
        Some("container_id"@)
    } else if b.pid is None {
        Some("pid"@)
    } else if b.bundle is None {
        Some("bundle"@)
    } else {
        None
    }
}

/// The state a builder builds when no field is missing.
pub open spec fn built_state(b: StateBuilderView) -> StateView {
    StateView {
        oci_version: match b.oci_version {
            Some(v) => v,
            None => oci_version_text(),
        },
        container_id: b.container_id->0,
        status: match b.status {
            Some(s) => s,
            None => Status::Creating,
        },
        pid: b.pid->0,
        bundle: b.bundle->0,
    }
}

/// A built state holds every field that was set on the builder, the
/// runtime's OCI version where none was set, and status `Creating` where
/// none was set.
pub open spec fn keeps_set_fields(b: StateBuilderView, s: StateView) -> bool {
    &&& b.oci_version matches Some(v) ==> s.oci_version == v
    &&& b.oci_version is None ==> s.oci_version == oci_version_text()
    &&& b.container_id matches Some(v) ==> s.container_id == v
    &&& b.status matches Some(v) ==> s.status == v
    &&& b.status is None ==> s.status == Status::Creating
    &&& b.pid matches Some(v) ==> s.pid == v
    &&& b.bundle matches Some(v) ==> s.bundle == v
}

/// What a builder builds keeps what was set on it: each set field, whatever
/// its value, is the built state's, and only unset fields take defaults.
pub proof fn law_build_keeps_set_fields(b: StateBuilderView)
    requires
        first_missing_field(b) is None,
    ensures
        keeps_set_fields(b, built_state(b)),
        forall|st: Status| b.status == Some(st) ==> #[trigger] built_state(b).status == st,
{
}

impl Default for StateBuilder {
    fn default() -> (r: Self)
        ensures
            r@ == (StateBuilderView {
                oci_version: None,
                container_id: None,
                status: None,
                pid: None,
                bundle: None,
            }),
    {
        StateBuilder { oci_version: None, container_id: None, status: None, pid: None, bundle: None }
    }
}

impl StateBuilder {
    /// Sets the OCI version.
    pub fn oci_version(self, value: String) -> (r: Self)
        ensures
            r@ == (StateBuilderView { oci_version: Some(value@), ..self@ }),
    {
        StateBuilder { oci_version: Some(value), ..self }
    }

    /// Sets the container id.
    pub fn container_id(self, value: String) -> (r: Self)
        ensures
            r@ == (StateBuilderView { container_id: Some(value@), ..self@ }),
    {
        StateBuilder { container_id: Some(value), ..self }
    }

    /// Sets the status.
    pub fn status(self, value: Status) -> (r: Self)
        ensures
            r@ == (StateBuilderView { status: Some(value), ..self@ }),
    {
        StateBuilder { status: Some(value), ..self }
    }

    /// Sets the process id.
    pub fn pid(self, value: i32) -> (r: Self)
        ensures
            r@ == (StateBuilderView { pid: Some(value), ..self@ }),
    {
        StateBuilder { pid: Some(value), ..self }
    }

    /// Sets the bundle path.
    pub fn bundle(self, value: String) -> (r: Self)
        ensures
            r@ == (StateBuilderView { bundle: Some(value@), ..self@ }),
    {
        StateBuilder { bundle: Some(value), ..self }
    }

    /// Builds the state: the set fields, the defaults for the unset ones that
    /// have one, or the error naming the first unset field without a default.
    pub fn build(self) -> (r: Result<State, StateBuilderError>)
        ensures
            match first_missing_field(self@) {
                None => r matches Ok(s) && s@ == built_state(self@),
                Some(name) => r matches Err(StateBuilderError::UninitializedField(f)) && f@ == name,
            },
            r matches Ok(s) ==> keeps_set_fields(self@, s@),
    {
        let oci_version = match self.oci_version {
            Some(v) => v,
            None => oci_version(),
        };
        let container_id = match self.container_id {
            Some(v) => v,
            None => {
                let f = "container_id";
                proof {
                    reveal_strlit("container_id");
                }
                return Err(StateBuilderError::UninitializedField(f));
            },
        };
        let status = match self.status {
            Some(v) => v,
            None => Status::Creating,
        };
        let pid = match self.pid {
            Some(v) => v,
            None => {
                let f = "pid";
                proof {
                    reveal_strlit("pid");
                }
                return Err(StateBuilderError::UninitializedField(f));
            },
        };
        let bundle = match self.bundle {
            Some(v) => v,
            None => {
                let f = "bundle";
                proof {
                    reveal_strlit("bundle");
                }
                return Err(StateBuilderError::UninitializedField(f));
            },
        };
        proof {
            law_build_keeps_set_fields(self@);
        }
        Ok(State { oci_version, container_id, status, pid, bundle })
    }
}

/// The initial state of a container with the given id: the runtime's OCI
/// version, status `Creating`, process id 0 and an empty bundle path.
pub fn state(container_id: String) -> (r: Result<State, RuntimeError>)
    ensures
        r matches Ok(s) && s@ == (StateView {
            oci_version: oci_version_text(),
            container_id: container_id@,
            status: Status::Creating,
            pid: 0,
            bundle: Seq::empty(),
        }),
{
    let builder = StateBuilder::default().container_id(container_id).status(Status::Creating).pid(
        0,
    ).bundle(String::new());
    match builder.build() {
        Ok(s) => Ok(s),
        Err(_) => {
            assert(false);
            Err(RuntimeError::runtime(String::new()))
        },
    }
}

} // verus!
