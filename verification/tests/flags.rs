use lsd::cli::Cli;
use lsd::config_file::Config;
use lsd::flags::Flags;
use lsd::flags::gitignore::GitIgnore;
use lsd::flags::tree_path::TreePathScope;
use lsd::flags::tree_path::TreePathType;

/// Builds the `Cli` value the argument parser would hand over for `argv`.
fn parse_cli(argv: &[&str]) -> Cli {
    let mut cli = Cli::new();
    let mut i = 1;
    while i < argv.len() {
        match argv[i] {
            "--gitignore" => {
                cli.gitignore = true;
            }
            "--tree-path" => {
                i += 1;
                cli.tree_path = Some(argv[i].to_string());
            }
            "--tree-path-scope" => {
                i += 1;
                cli.tree_path_scope = Some(argv[i].to_string());
            }
            other => panic!("unexpected argument {other}"),
        }
        i += 1;
    }
    cli
}

#[test]
fn test_configuration_from_none() {
    let argv = ["lsd"]; // no CLI flag
    let cli = parse_cli(&argv);
    let cfg = Config::with_none();
    let v = GitIgnore::configure_from(&cli, &cfg);
    assert_eq!(v.0, false);
}

#[test]
fn test_configuration_from_args() {
    let argv = ["lsd", "--gitignore"]; // CLI wins
    let cli = parse_cli(&argv);
    let cfg = Config::with_none();
    let v = GitIgnore::configure_from(&cli, &cfg);
    assert_eq!(v.0, true);
}

#[test]
fn test_configuration_from_config() {
    let argv = ["lsd"]; // not provided on CLI
    let cli = parse_cli(&argv);
    let mut c = Config::with_none();
    c.gitignore = Some(true);
    let v = GitIgnore::configure_from(&cli, &c);
    assert_eq!(v.0, true);
}

#[test]
fn test_cli_overrides_config() {
    let argv = ["lsd", "--gitignore"]; // CLI true, config false
    let cli = parse_cli(&argv);
    let mut c = Config::with_none();
    c.gitignore = Some(false);
    let v = GitIgnore::configure_from(&cli, &c);
    assert_eq!(v.0, true);
}

#[test]
fn tree_path_default_when_unset() {
    let argv = ["lsd"]; // no cli args
    let cli = parse_cli(&argv);
    let cfg = Config::with_none(); // no config
    let flags = Flags::configure_from(&cli, &cfg);
    assert_eq!(TreePathType::NoPath, flags.tree_path.kind);
    assert_eq!(TreePathScope::Root, flags.tree_path.scope);
}

#[test]
fn tree_path_from_config_only_kind_defaults_scope() {
    let argv = ["lsd"]; // no cli args
    let cli = parse_cli(&argv);
    let mut cfg = Config::with_none();
    cfg.tree_path = Some("absolute".into());
    let flags = Flags::configure_from(&cli, &cfg);
    assert_eq!(TreePathType::Absolute, flags.tree_path.kind);
    assert_eq!(TreePathScope::Root, flags.tree_path.scope);
}

#[test]
fn tree_path_from_config_both() {
    let argv = ["lsd"]; // no cli args
    let cli = parse_cli(&argv);
    let mut cfg = Config::with_none();
    cfg.tree_path = Some("relative".into());
    cfg.tree_path_scope = Some("all".into());
    let flags = Flags::configure_from(&cli, &cfg);
    assert_eq!(TreePathType::Relative, flags.tree_path.kind);
    assert_eq!(TreePathScope::All, flags.tree_path.scope);
}

#[test]
fn tree_path_from_cli_overrides_config() {
    let argv = ["lsd", "--tree-path", "absolute", "--tree-path-scope", "all"];
    let cli = parse_cli(&argv);
    let mut cfg = Config::with_none();
    cfg.tree_path = Some("relative".into());
    cfg.tree_path_scope = Some("root".into());
    let flags = Flags::configure_from(&cli, &cfg);
    assert_eq!(TreePathType::Absolute, flags.tree_path.kind);
    assert_eq!(TreePathScope::All, flags.tree_path.scope);
}

#[test]
fn tree_path_scope_from_cli_and_kind_from_config() {
    let argv = ["lsd", "--tree-path-scope", "all"]; // only scope via CLI
    let cli = parse_cli(&argv);
    let mut cfg = Config::with_none();
    cfg.tree_path = Some("absolute".into());
    let flags = Flags::configure_from(&cli, &cfg);
    assert_eq!(TreePathType::NoPath, flags.tree_path.kind);
    assert_eq!(TreePathScope::All, flags.tree_path.scope);
}

#[test]
fn tree_path_from_arg_str_values() {
    assert_eq!(TreePathType::from_arg_str("none"), TreePathType::NoPath);
    assert_eq!(TreePathType::from_arg_str("absolute"), TreePathType::Absolute);
    assert_eq!(TreePathType::from_arg_str("relative"), TreePathType::Relative);
    assert_eq!(TreePathScope::from_arg_str("root"), TreePathScope::Root);
    assert_eq!(TreePathScope::from_arg_str("all"), TreePathScope::All);
}

#[test]
fn flag_defaults() {
    assert_eq!(GitIgnore::default().0, false);
    assert_eq!(TreePathType::default(), TreePathType::NoPath);
    assert_eq!(TreePathScope::default(), TreePathScope::Root);
    let d = lsd::flags::tree_path::TreePath::default();
    assert_eq!(d.kind, TreePathType::NoPath);
    assert_eq!(d.scope, TreePathScope::Root);
}
