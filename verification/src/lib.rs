//! Decision logic of a small OCI container runtime: container state and its
//! builder, the persistent store of container records, JSON entries, clone
//! flags and namespace selection for forking a container, the pivot-root
//! sequence, and the message handling of the IPC channel.

use vstd::prelude::*;
use vstd::string::*;

pub mod error;
pub mod fs;
pub mod store;
pub mod spec;
pub mod namespace;
pub mod fork;
pub mod state;
pub mod entry;
pub mod config;
pub mod create;
pub mod start;
pub mod ipc;

verus! {

/// The version of the OCI runtime specification that the runtime follows.
pub open spec fn oci_version_text() -> Seq<char> {
    "0.2.0"@
}

/// The version of the OCI runtime specification that the runtime follows.
pub fn oci_version() -> (r: String)
    ensures
        r@ == oci_version_text(),
{
    String::from_str("0.2.0")
}

} // verus!
