//! Derivation of the fixed on-disk locations the boundary speaks of: the
//! model store, the per-model files and directories, the configuration
//! store and the diagnostic log. All are derived from the home directory
//! handed in by the edge; probing whether anything exists there is the
//! edge's job.

use crate::codec::{moonshine_id_spec, moonshine_model_id, MoonshineModel};
use vstd::prelude::*;

verus! {

/// Where the language models live under the home directory.
pub fn models_dir_path(home: &str) -> (s: String)
    ensures
        s@ == home@ + "/.voiceflow/models"@,
{
    let mut s = home.to_owned();
    s.append("/.voiceflow/models");
    s
}

/// Where the configuration store lives under the home directory.
pub fn config_file_path(home: &str) -> (s: String)
    ensures
        s@ == home@ + "/.voiceflow/config"@,
{
    let mut s = home.to_owned();
    s.append("/.voiceflow/config");
    s
}

/// The on-disk location of a model file inside the model store.
pub fn model_file_path(home: &str, filename: &str) -> (s: String)
    ensures
        s@ == home@ + "/.voiceflow/models"@ + "/"@ + filename@,
{
    let mut s = models_dir_path(home);
    s.append("/");
    s.append(filename);
    s
}

/// Where the Moonshine models live: a subdirectory of the model store.
pub fn moonshine_models_dir_path(home: &str) -> (s: String)
    ensures
        s@ == home@ + "/.voiceflow/models"@ + "/moonshine"@,
{
    let mut s = models_dir_path(home);
    s.append("/moonshine");
    s
}

/// The directory of one Moonshine model. Its parent is exactly the
/// Moonshine model store, so the store is re-derivable from it.
pub fn moonshine_model_dir_path(home: &str, m: MoonshineModel) -> (s: String)
    ensures
        s@ == home@ + "/.voiceflow/models"@ + "/moonshine"@ + "/"@ + moonshine_id_spec(m),
{
    let mut s = moonshine_models_dir_path(home);
    s.append("/");
    s.append(moonshine_model_id(m));
    s
}

/// The fixed location of the process-wide diagnostic log.
pub fn debug_log_path() -> (s: &'static str)
    ensures
        s@ == "/tmp/voiceflow_debug.log"@,
{
    "/tmp/voiceflow_debug.log"
}

/// The library version reported across the boundary; the text is static
/// and never transfers ownership.
pub fn version() -> (s: &'static str)
    ensures
        s@ == "0.1.0"@,
{
    "0.1.0"
}

} // verus!
