use vstd::prelude::*;
use vstd::pervasive::unreached;

use crate::cli::Cli;
use crate::config_file::Config;
use crate::text::str_eq;

verus! {

/// In which form a tree listing prints each entry's path.
#[derive(Clone, Debug, Copy, PartialEq, Eq, Structural)]
pub enum TreePathType {
    NoPath,
    Absolute,
    Relative,
}

/// For which entries of a tree listing a path is printed.
#[derive(Clone, Debug, Copy, PartialEq, Eq, Structural)]
pub enum TreePathScope {
    Root,
    All,
}

/// The two tree-path selectors together.
#[derive(Clone, Debug, Copy, PartialEq, Eq, Structural)]
pub struct TreePath {
    pub kind: TreePathType,
    pub scope: TreePathScope,
}

/// The argument strings the tree-path selector accepts.
pub open spec fn valid_tree_path_kind(s: Seq<char>) -> bool {
    s == "none"@ || s == "absolute"@ || s == "relative"@
}

/// The argument strings the tree-path-scope selector accepts.
pub open spec fn valid_tree_path_scope(s: Seq<char>) -> bool {
    s == "root"@ || s == "all"@
}

/// The kind a given argument string names.
pub open spec fn spec_kind_from_arg(s: Seq<char>) -> TreePathType {
    if s == "none"@ {
        TreePathType::NoPath
    } else if s == "absolute"@ {
        TreePathType::Absolute
    } else {
        TreePathType::Relative
    }
}

/// The scope a given argument string names.
pub open spec fn spec_scope_from_arg(s: Seq<char>) -> TreePathScope {
    if s == "root"@ {
        TreePathScope::Root
    } else {
        TreePathScope::All
    }
}

/// Both tree-path values on the command line, when given, name accepted
/// argument strings. The argument parser guarantees this before anything
/// here runs.
pub open spec fn cli_tree_path_valid(cli: Cli) -> bool {
    &&& match cli.tree_path {
        Some(s) => valid_tree_path_kind(s@),
        None => true,
    }
    &&& match cli.tree_path_scope {
        Some(s) => valid_tree_path_scope(s@),
        None => true,
    }
}

/// Both tree-path values in the configuration, when set, name accepted
/// argument strings.
pub open spec fn config_tree_path_valid(config: Config) -> bool {
    &&& match config.tree_path {
        Some(s) => valid_tree_path_kind(s@),
        None => true,
    }
    &&& match config.tree_path_scope {
        Some(s) => valid_tree_path_scope(s@),
        None => true,
    }
}

/// The pair a kind and a scope resolve to when at least one of them was
/// given: a missing half falls back to its default.
pub open spec fn spec_tree_path_pair(
    kind: Option<TreePathType>,
    scope: Option<TreePathScope>,
) -> Option<TreePath> {
    if kind is None && scope is None {
        None
    } else {
        Some(
            TreePath {
                kind: match kind {
                    Some(k) => k,
                    None => TreePathType::NoPath,
                },
                scope: match scope {
                    Some(s) => s,
                    None => TreePathScope::Root,
                },
            },
        )
    }
}

/// The command line's tree-path value, when either selector was given.
pub open spec fn spec_tree_path_from_cli(cli: Cli) -> Option<TreePath> {
    spec_tree_path_pair(
        match cli.tree_path {
            Some(s) => Some(spec_kind_from_arg(s@)),
            None => None,
        },
        match cli.tree_path_scope {
            Some(s) => Some(spec_scope_from_arg(s@)),
            None => None,
        },
    )
}

/// The configuration file's tree-path value, when either selector is set.
pub open spec fn spec_tree_path_from_config(config: Config) -> Option<TreePath> {
    spec_tree_path_pair(
        match config.tree_path {
            Some(s) => Some(spec_kind_from_arg(s@)),
            None => None,
        },
        match config.tree_path_scope {
            Some(s) => Some(spec_scope_from_arg(s@)),
            None => None,
        },
    )
}

/// The resolved tree-path value: the command-line value wins when present,
/// else the configuration value, else the default.
pub open spec fn spec_tree_path_configured(cli: Cli, config: Config) -> TreePath {
    match spec_tree_path_from_cli(cli) {
        Some(v) => v,
        None => match spec_tree_path_from_config(config) {
            Some(v) => v,
            None => TreePath { kind: TreePathType::NoPath, scope: TreePathScope::Root },
        },
    }
}

impl TreePathType {
    /// The kind named by a validated argument string; the argument parser
    /// never hands over anything else.
    pub fn from_arg_str(v: &str) -> (r: Self)
        requires
            valid_tree_path_kind(v@),
        ensures
            r == spec_kind_from_arg(v@),
    {
        if str_eq(v, "none") {
            TreePathType::NoPath
        } else if str_eq(v, "absolute") {
            TreePathType::Absolute
        } else if str_eq(v, "relative") {
            TreePathType::Relative
        } else {
            unreached()
        }
    }
}

impl TreePathScope {
    /// The scope named by a validated argument string; the argument parser
    /// never hands over anything else.
    pub fn from_arg_str(v: &str) -> (r: Self)
        requires
            valid_tree_path_scope(v@),
        ensures
            r == spec_scope_from_arg(v@),
    {
        if str_eq(v, "root") {
            TreePathScope::Root
        } else if str_eq(v, "all") {
            TreePathScope::All
        } else {
            unreached()
        }
    }
}

impl TreePath {
    /// The command line's value, when either selector was given; a missing
    /// half falls back to its default.
    pub fn from_cli(cli: &Cli) -> (r: Option<Self>)
        requires
            cli_tree_path_valid(*cli),
        ensures
            r == spec_tree_path_from_cli(*cli),
    {
        let kind = match &cli.tree_path {
            Some(s) => Some(TreePathType::from_arg_str(s.as_str())),
            None => None,
        };
        let scope = match &cli.tree_path_scope {
            Some(s) => Some(TreePathScope::from_arg_str(s.as_str())),
            None => None,
        };
        match (kind, scope) {
            (None, None) => None,
            (k, s) => Some(
                TreePath {
                    kind: match k {
                        Some(x) => x,
                        None => TreePathType::default(),
                    },
                    scope: match s {
                        Some(x) => x,
                        None => TreePathScope::default(),
                    },
                },
            ),
        }
    }

    /// The configuration file's value, when either selector is set; a
    /// missing half falls back to its default.
    pub fn from_config(config: &Config) -> (r: Option<Self>)
        requires
            config_tree_path_valid(*config),
        ensures
            r == spec_tree_path_from_config(*config),
    {
        let kind = match &config.tree_path {
            Some(s) => Some(TreePathType::from_arg_str(s.as_str())),
            None => None,
        };
        let scope = match &config.tree_path_scope {
            Some(s) => Some(TreePathScope::from_arg_str(s.as_str())),
            None => None,
        };
        match (kind, scope) {
            (None, None) => None,
            (k, s) => Some(
                TreePath {
                    kind: match k {
                        Some(x) => x,
                        None => TreePathType::default(),
                    },
                    scope: match s {
                        Some(x) => x,
                        None => TreePathScope::default(),
                    },
                },
            ),
        }
    }

    /// The resolved tree-path value: the command-line value wins when
    /// present, else the configuration value, else the default.
    pub fn configure_from(cli: &Cli, config: &Config) -> (r: Self)
        requires
            cli_tree_path_valid(*cli),
            config_tree_path_valid(*config),
        ensures
            r == spec_tree_path_configured(*cli, *config),
    {
        match Self::from_cli(cli) {
            Some(v) => v,
            None => match Self::from_config(config) {
                Some(v) => v,
                None => TreePath::default(),
            },
        }
    }
}

impl Default for TreePathType {
    /// No path is printed unless something asks for one.
    fn default() -> (r: Self)
        ensures
            r == TreePathType::NoPath,
    {
        TreePathType::NoPath
    }
}

impl Default for TreePathScope {
    /// Only the roots print a path unless something widens it.
    fn default() -> (r: Self)
        ensures
            r == TreePathScope::Root,
    {
        TreePathScope::Root
    }
}

impl Default for TreePath {
    /// Both selectors at their defaults.
    fn default() -> (r: Self)
        ensures
            r == (TreePath { kind: TreePathType::NoPath, scope: TreePathScope::Root }),
    {
        TreePath { kind: TreePathType::default(), scope: TreePathScope::default() }
    }
}

} // verus!
