//! Where the program keeps its files besides the cache.

use vstd::prelude::*;
use vstd::string::*;

verus! {

/// The file `name` in `dir`, where there is a directory.
fn file_in(dir: Option<&str>, name: &str) -> (path: Option<String>)
    ensures
        path.deep_view() == (match dir {
            Some(d) => Some(d@ + "/"@ + name@),
            None => None,
        }),
{
    match dir {
        Some(d) => {
            let mut path = String::from_str(d);
            path.append("/");
            path.append(name);
            Some(path)
        },
        None => None,
    }
}

/// The file in which the cache is saved between runs: `store.mpk` in the
/// directory of the program's local data, where the system names one.
pub fn poststore_path(data_local_dir: Option<&str>) -> (path: Option<String>)
    ensures
        path.deep_view() == (match data_local_dir {
            Some(dir) => Some(dir@ + "/"@ + "store.mpk"@),
            None => None,
        }),
{
    file_in(data_local_dir, "store.mpk")
}

/// The file of the log: `msg.log` in the directory of the program's local
/// data, where the system names one.
pub fn log_path(data_local_dir: Option<&str>) -> (path: Option<String>)
    ensures
        path.deep_view() == (match data_local_dir {
            Some(dir) => Some(dir@ + "/"@ + "msg.log"@),
            None => None,
        }),
{
    file_in(data_local_dir, "msg.log")
}

} // verus!
