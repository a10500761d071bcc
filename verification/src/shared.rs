//! Where the program keeps its files.

use vstd::prelude::*;

verus! {

/// The data directory of the program, below the data directory of the user.
pub fn get_data_path(user_data_dir: &str) -> (r: String)
    ensures
        r@ == user_data_dir@ + "/systembridge"@,
{
    let mut path = user_data_dir.to_owned();
    path.append("/systembridge");
    path
}

/// The settings file, below the data directory of the program.
pub fn settings_path(data_path: &str) -> (r: String)
    ensures
        r@ == data_path@ + "/settings.json"@,
{
    let mut path = data_path.to_owned();
    path.append("/settings.json");
    path
}

/// The log file, below the data directory of the program.
pub fn log_path(data_path: &str) -> (r: String)
    ensures
        r@ == data_path@ + "/systembridge.log"@,
{
    let mut path = data_path.to_owned();
    path.append("/systembridge.log");
    path
}

/// The log file of the worker, below the data directory of the program.
pub fn backend_log_path(data_path: &str) -> (r: String)
    ensures
        r@ == data_path@ + "/systembridgebackend.log"@,
{
    let mut path = data_path.to_owned();
    path.append("/systembridgebackend.log");
    path
}

} // verus!
