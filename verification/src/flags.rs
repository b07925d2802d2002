pub mod gitignore;
pub mod tree_path;

use vstd::prelude::*;

use crate::cli::Cli;
use crate::config_file::Config;
use crate::flags::gitignore::GitIgnore;
use crate::flags::gitignore::spec_gitignore_configured;
use crate::flags::tree_path::TreePath;
use crate::flags::tree_path::cli_tree_path_valid;
use crate::flags::tree_path::config_tree_path_valid;
use crate::flags::tree_path::spec_tree_path_configured;

verus! {

/// The flags this engine consumes, each resolved from the command line, the
/// configuration file and its default, in that order of precedence.
pub struct Flags {
    pub gitignore: GitIgnore,
    pub tree_path: TreePath,
}

impl Flags {
    /// Resolves every flag at once, command line first.
    pub fn configure_from(cli: &Cli, config: &Config) -> (r: Flags)
        requires
            cli_tree_path_valid(*cli),
            config_tree_path_valid(*config),
        ensures
            r.gitignore == spec_gitignore_configured(*cli, *config),
            r.tree_path == spec_tree_path_configured(*cli, *config),
    {
        Flags {
            gitignore: GitIgnore::configure_from(cli, config),
            tree_path: TreePath::configure_from(cli, config),
        }
    }
}

} // verus!
