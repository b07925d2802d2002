use vstd::prelude::*;

use crate::cli::Cli;
use crate::config_file::Config;

verus! {

/// The "honor ignore files" flag: when set, the listing suppresses entries
/// that the accumulated ignore rules mark ignored.
#[derive(Clone, Copy, Debug)]
pub struct GitIgnore(pub bool);

/// The flag the command line asks for, when it asks at all.
pub open spec fn spec_gitignore_from_cli(cli: Cli) -> Option<GitIgnore> {
    if cli.gitignore {
        Some(GitIgnore(true))
    } else {
        None
    }
}

/// The flag the configuration file sets, when it sets one.
pub open spec fn spec_gitignore_from_config(config: Config) -> Option<GitIgnore> {
    match config.gitignore {
        Some(b) => Some(GitIgnore(b)),
        None => None,
    }
}

/// The resolved flag: the command-line value wins when present, else the
/// configuration value, else the default.
pub open spec fn spec_gitignore_configured(cli: Cli, config: Config) -> GitIgnore {
    match spec_gitignore_from_cli(cli) {
        Some(v) => v,
        None => match spec_gitignore_from_config(config) {
            Some(v) => v,
            None => GitIgnore(false),
        },
    }
}

impl GitIgnore {
    /// The command line's value for this flag, when the flag was given.
    pub fn from_cli(cli: &Cli) -> (r: Option<Self>)
        ensures
            r == spec_gitignore_from_cli(*cli),
    {
        if cli.gitignore {
            Some(GitIgnore(true))
        } else {
            None
        }
    }

    /// The configuration file's value for this flag, when it holds one.
    pub fn from_config(config: &Config) -> (r: Option<Self>)
        ensures
            r == spec_gitignore_from_config(*config),
    {
        match config.gitignore {
            Some(b) => Some(GitIgnore(b)),
            None => None,
        }
    }

    /// The resolved flag: the command-line value wins when present, else the
    /// configuration value, else the default.
    pub fn configure_from(cli: &Cli, config: &Config) -> (r: Self)
        ensures
            r == spec_gitignore_configured(*cli, *config),
    {
        match Self::from_cli(cli) {
            Some(v) => v,
            None => match Self::from_config(config) {
                Some(v) => v,
                None => GitIgnore::default(),
            },
        }
    }
}

impl Default for GitIgnore {
    /// The flag is off unless something turns it on.
    fn default() -> (r: Self)
        ensures
            r == GitIgnore(false),
    {
        GitIgnore(false)
    }
}

} // verus!
