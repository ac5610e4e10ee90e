use vstd::prelude::*;
use vstd::string::*;

use crate::config::{config_parse_outcome, parse_config, result_view};

verus! {

/// The parameters of starting a container: its id and the runtime's root
/// directory.
pub struct StartBuilder {
    pub id: String,
    pub root: String,
}

impl StartBuilder {
    /// The parameters for starting container `id` under the root `root`.
    pub fn new(id: String, root: String) -> (r: Self)
        ensures
            r.id@ == id@,
            r.root@ == root@,
    {
        StartBuilder { id, root }
    }

    /// The directory of the container, given the absolute form of the root:
    /// the root's path with the container id appended as it is, with no
    /// separator put between them.
    pub fn container_root(&self, abs_root: &str) -> (r: String)
        ensures
            r@ == abs_root@ + self.id@,
    {
        String::from_str(abs_root).concat(self.id.as_str())
    }
}

/// Starts the container from the text of its `config.json`: the text must
/// be a runtime configuration; otherwise the parse error's text is returned.
pub fn start_from_config(params: &StartBuilder, config_text: &str) -> (r: Result<(), String>)
    ensures
        result_view(r) == config_parse_outcome(config_text@),
{
    parse_config(config_text)
}

} // verus!
