use vstd::prelude::*;

use crate::config::{config_parse_outcome, parse_config, result_view};

verus! {

/// The parameters of creating a container: the path of its bundle and its id.
pub struct CreateBuilder {
    pub bundle: String,
    pub id: String,
}

impl CreateBuilder {
    /// The parameters for creating container `id` from the bundle at `bundle`.
    pub fn new(bundle: String, id: String) -> (r: Self)
        ensures
            r.bundle@ == bundle@,
            r.id@ == id@,
    {
        CreateBuilder { bundle, id }
    }
}

/// Creates the container from the text of its bundle's `config.json`: the
/// text must be a runtime configuration; otherwise the parse error's text
/// is returned.
pub fn create_from_config(params: &CreateBuilder, config_text: &str) -> (r: Result<(), String>)
    ensures
        result_view(r) == config_parse_outcome(config_text@),
{
    parse_config(config_text)
}

} // verus!
