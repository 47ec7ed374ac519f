use joplin_installer::config::{parse_args, Config, ConfigError};

fn args(list: &[&str]) -> Vec<String> {
    list.iter().map(|s| s.to_string()).collect()
}

fn parse(list: &[&str]) -> Config {
    parse_args(&args(list), Some("/home/u".to_string())).unwrap()
}

#[test]
fn defaults_without_flags() {
    let c = parse(&[]);
    assert_eq!(c.install_dir, "/home/u/Documents/repository/rust-unicorn");
    assert!(c.create_symlink);
    assert!(!c.force_update);
    assert!(!c.quiet);
    assert!(!c.help_requested);
}

#[test]
fn home_with_trailing_slash_takes_no_extra_separator() {
    let c = parse_args(&args(&[]), Some("/root/".to_string())).unwrap();
    assert_eq!(c.install_dir, "/root/Documents/repository/rust-unicorn");
}

#[test]
fn missing_home_is_an_error() {
    assert_eq!(parse_args(&args(&["-q"]), None), Err(ConfigError::MissingHome));
    assert_eq!(parse_args(&args(&["-d", "/x"]), None), Err(ConfigError::MissingHome));
}

#[test]
fn each_flag_in_both_spellings() {
    assert_eq!(parse(&["-d", "/opt/j"]).install_dir, "/opt/j");
    assert_eq!(parse(&["--install-dir", "/opt/k"]).install_dir, "/opt/k");
    assert!(!parse(&["--no-symlink"]).create_symlink);
    assert!(parse(&["-f"]).force_update);
    assert!(parse(&["--force"]).force_update);
    assert!(parse(&["-q"]).quiet);
    assert!(parse(&["--quiet"]).quiet);
    assert!(parse(&["-h"]).help_requested);
    assert!(parse(&["--help"]).help_requested);
}

#[test]
fn dir_flag_at_the_end_is_ignored() {
    let c = parse(&["-q", "-d"]);
    assert_eq!(c.install_dir, "/home/u/Documents/repository/rust-unicorn");
    assert!(c.quiet);
}

#[test]
fn last_dir_flag_wins() {
    assert_eq!(parse(&["-d", "/a", "--install-dir", "/b"]).install_dir, "/b");
}

#[test]
fn unknown_tokens_are_ignored() {
    let c = parse(&["--verbose", "x", "-F", "--Force"]);
    assert_eq!(c, parse(&[]));
}

#[test]
fn help_anywhere_is_seen() {
    let c = parse(&["-f", "--no-symlink", "-d", "/x", "--help"]);
    assert!(c.help_requested);
    let c = parse(&["-d", "-h"]);
    assert!(c.help_requested);
    assert_eq!(c.install_dir, "-h");
}

#[test]
fn flags_combine() {
    let c = parse(&["-q", "--no-symlink", "--force", "-d", "/t"]);
    assert_eq!(
        c,
        Config {
            install_dir: "/t".to_string(),
            create_symlink: false,
            force_update: true,
            quiet: true,
            help_requested: false,
        }
    );
}
