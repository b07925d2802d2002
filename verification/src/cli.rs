use vstd::prelude::*;

verus! {

/// The command-line options this engine reads, as the argument parser hands
/// them over: the ignore toggle and the two tree-path selectors.
pub struct Cli {
    pub gitignore: bool,
    pub tree_path: Option<String>,
    pub tree_path_scope: Option<String>,
}

impl Cli {
    /// A command line on which none of these options was given.
    pub fn new() -> (r: Self)
        ensures
            r.gitignore == false,
            r.tree_path is None,
            r.tree_path_scope is None,
    {
        Cli { gitignore: false, tree_path: None, tree_path_scope: None }
    }
}

} // verus!
