//! Where the companion keeps its files, as path components below the user's
//! home directory. Finding the home directory and joining the components is
//! the caller's part.

use vstd::prelude::*;
use vstd::string::StringExecFns;

verus! {

/// The texts of a list of path components.
pub open spec fn components(path: Seq<String>) -> Seq<Seq<char>> {
    path.map_values(|part: String| part@)
}

/// The configuration directory: `.config/obs_tts_config` where the home
/// directory follows the `.config` convention, `.obs_tts_config` elsewhere.
pub open spec fn config_dir(dot_config: bool) -> Seq<Seq<char>> {
    if dot_config {
        seq![".config"@, "obs_tts_config"@]
    } else {
        seq![".obs_tts_config"@]
    }
}

/// The configuration directory below the home directory. `dot_config` says
/// whether the system is Unix-like and the home directory has a `.config`
/// directory.
pub fn get_config_dir_path(dot_config: bool) -> (path: Vec<String>)
    ensures
        components(path@) == config_dir(dot_config),
{
    let mut path: Vec<String> = Vec::new();
    if dot_config {
        path.push(String::from_str(".config"));
        path.push(String::from_str("obs_tts_config"));
    } else {
        path.push(String::from_str(".obs_tts_config"));
    }
    assert(components(path@) =~= config_dir(dot_config));
    path
}

/// The file that holds the saved settings: `config.js` in the configuration
/// directory.
pub fn get_config_file_path(dot_config: bool) -> (path: Vec<String>)
    ensures
        components(path@) == config_dir(dot_config).push("config.js"@),
{
    let mut path = get_config_dir_path(dot_config);
    path.push(String::from_str("config.js"));
    assert(components(path@) =~= config_dir(dot_config).push("config.js"@));
    path
}

/// The log file: `tts.log` in the configuration directory.
pub fn get_log_file_path(dot_config: bool) -> (path: Vec<String>)
    ensures
        components(path@) == config_dir(dot_config).push("tts.log"@),
{
    let mut path = get_config_dir_path(dot_config);
    path.push(String::from_str("tts.log"));
    assert(components(path@) =~= config_dir(dot_config).push("tts.log"@));
    path
}

} // verus!
