//! Routing facts of the server: static file locations and the paths that
//! need no session.

use vstd::prelude::*;
use crate::text::concat;

verus! {

/// The file served for `/static/<path>`: `static/<path>`, relative to the
/// working directory.
pub fn static_file_path(path: &str) -> (full: String)
    ensures
        full@ == "static/"@ + path@,
{
    concat("static/", path)
}

/// The route patterns reachable without signing in.
pub fn public_paths() -> (paths: Vec<String>)
    ensures
        paths@.len() == 2,
        paths@[0]@ == "/static/:*path"@,
        paths@[1]@ == "/dashboard"@,
{
    let mut paths: Vec<String> = Vec::new();
    paths.push("/static/:*path".to_owned());
    paths.push("/dashboard".to_owned());
    paths
}

} // verus!
