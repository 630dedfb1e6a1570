use vstd::prelude::*;

verus! {

/// Name of the directory that holds the log file.
pub const LOG_DIR: &'static str = "logs";

/// The path of a directory next to the working directory: `to_add` followed
/// by a separator.
pub open spec fn dir_path(to_add: Seq<char>) -> Seq<char> {
    to_add + seq!['/']
}

/// Returns the path to the log directory.
pub fn get_log_dir() -> (r: String)
    ensures
        r@ == dir_path(LOG_DIR@),
{
    get_dir(LOG_DIR)
}

/// Returns the path to the configuration directory.
pub fn get_config_dir() -> (r: String)
    ensures
        r@ == dir_path("config"@),
{
    get_dir("config")
}

/// Appends the path separator to a directory name.
pub fn get_dir(to_add: &str) -> (r: String)
    ensures
        r@ == dir_path(to_add@),
{
    let mut path = String::from_str(to_add);
    path.append("/");
    proof {
        reveal_strlit("/");
    }
    assert(path@ =~= dir_path(to_add@));
    path
}

} // verus!
