use vstd::prelude::*;

verus! {

/// Whether `serde_json` parses `text` as an OCI runtime configuration
/// (`oci_spec::runtime::Spec`): `Ok` when it does, else the text of its error.
pub uninterp spec fn config_parse_outcome(text: Seq<char>) -> Result<(), Seq<char>>;

/// The view of an outcome that carries an error message.
pub open spec fn result_view(r: Result<(), String>) -> Result<(), Seq<char>> {
    match r {
        Ok(()) => Ok(()),
        Err(e) => Err(e@),
    }
}

/// Parses `text` with `serde_json::from_str` into an
/// `oci_spec::runtime::Spec` and keeps only whether that succeeded (with the
/// error's `Display` text when it did not). The contract claims that the
/// outcome is the named result for this text.
#[verifier::external_body]
pub(crate) fn parse_config(text: &str) -> (r: Result<(), String>)
    ensures
        result_view(r) == config_parse_outcome(text@),
{
    match serde_json::from_str::<oci_spec::runtime::Spec>(text) {
        Ok(_) => Ok(()),
        Err(e) => Err(e.to_string()),
    }
}

} // verus!
