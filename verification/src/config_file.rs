use vstd::prelude::*;

verus! {

/// The configuration-file values this engine reads, after the file has been
/// loaded and decoded elsewhere.
pub struct Config {
    pub gitignore: Option<bool>,
    pub tree_path: Option<String>,
    pub tree_path_scope: Option<String>,
}

impl Config {
    /// A configuration in which none of these values is set.
    pub fn with_none() -> (r: Self)
        ensures
            r.gitignore is None,
            r.tree_path is None,
            r.tree_path_scope is None,
    {
        Config { gitignore: None, tree_path: None, tree_path_scope: None }
    }
}

} // verus!
