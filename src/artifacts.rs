use vstd::prelude::*;
use vstd::string::*;

verus! {

/// Where the configuration snapshot of a run lives inside its artifact
/// directory.
pub open spec fn config_file_spec(artifact_dir: Seq<char>) -> Seq<char> {
    artifact_dir + "/config.json"@
}

/// Where the trained model of a run lives inside its artifact directory.
pub open spec fn model_file_spec(artifact_dir: Seq<char>) -> Seq<char> {
    artifact_dir + "/model"@
}

/// The path of the configuration snapshot.
pub fn config_file(artifact_dir: &str) -> (r: String)
    ensures
        r@ == config_file_spec(artifact_dir@),
{
    String::from_str(artifact_dir).concat("/config.json")
}

/// The path of the trained model.
pub fn model_file(artifact_dir: &str) -> (r: String)
    ensures
        r@ == model_file_spec(artifact_dir@),
{
    String::from_str(artifact_dir).concat("/model")
}

} // verus!
