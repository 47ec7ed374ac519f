//! Command-line configuration: which directory to install into and which
//! optional behaviours are switched on.
use vstd::prelude::*;
use crate::text::{join, join_path, same_text};

verus! {

/// Directory under the home directory that is used when none is given.
pub const DEFAULT_SUBDIR: &'static str = "Documents/repository/rust-unicorn";

/// What one run of the installer was asked to do.
#[derive(Debug, PartialEq, Eq)]
pub struct Config {
    pub install_dir: String,
    pub create_symlink: bool,
    pub force_update: bool,
    pub quiet: bool,
    pub help_requested: bool,
}

pub ghost struct ConfigView {
    pub install_dir: Seq<char>,
    pub create_symlink: bool,
    pub force_update: bool,
    pub quiet: bool,
    pub help_requested: bool,
}

impl View for Config {
    type V = ConfigView;

    open spec fn view(&self) -> ConfigView {
        ConfigView {
            install_dir: self.install_dir@,
            create_symlink: self.create_symlink,
            force_update: self.force_update,
            quiet: self.quiet,
            help_requested: self.help_requested,
        }
    }
}

#[derive(PartialEq, Eq, Debug, Clone, Copy, Structural)]
pub enum ConfigError {
    /// The home directory is unknown, so no default install directory exists.
    MissingHome,
}

pub open spec fn arg_views(args: Seq<String>) -> Seq<Seq<char>> {
    args.map_values(|a: String| a@)
}

pub open spec fn is_dir_flag(t: Seq<char>) -> bool {
    t == "-d"@ || t == "--install-dir"@
}

pub open spec fn is_no_symlink_flag(t: Seq<char>) -> bool {
    t == "--no-symlink"@
}

pub open spec fn is_force_flag(t: Seq<char>) -> bool {
    t == "-f"@ || t == "--force"@
}

pub open spec fn is_quiet_flag(t: Seq<char>) -> bool {
    t == "-q"@ || t == "--quiet"@
}

pub open spec fn is_help_flag(t: Seq<char>) -> bool {
    t == "-h"@ || t == "--help"@
}

/// Some token of `args` satisfies `flag`.
pub open spec fn any_token(args: Seq<Seq<char>>, flag: spec_fn(Seq<char>) -> bool) -> bool {
    exists|i: int| 0 <= i < args.len() && flag(#[trigger] args[i])
}

/// The value given by the last directory flag among the first `k` tokens that
/// has a token after it. A directory flag at the very end is ignored.
pub open spec fn dir_value(args: Seq<Seq<char>>, k: int) -> Option<Seq<char>>
    decreases k,
{
    if k <= 0 {
        None
    } else if is_dir_flag(args[k - 1]) && k < args.len() {
        Some(args[k])
    } else {
        dir_value(args, k - 1)
    }
}

/// The install directory used when no directory flag applies.
pub open spec fn default_dir(home: Seq<char>) -> Seq<char> {
    join(home, DEFAULT_SUBDIR@)
}

/// The configuration that the tokens `args` (without the program name) ask for.
/// Every token is read, the one after a directory flag too, so that a help flag
/// anywhere is honoured; unknown tokens are ignored.
pub open spec fn config_of(args: Seq<Seq<char>>, home: Seq<char>) -> ConfigView {
    ConfigView {
        install_dir: match dir_value(args, args.len() as int) {
            Some(d) => d,
            None => default_dir(home),
        },
        create_symlink: !any_token(args, |t: Seq<char>| is_no_symlink_flag(t)),
        force_update: any_token(args, |t: Seq<char>| is_force_flag(t)),
        quiet: any_token(args, |t: Seq<char>| is_quiet_flag(t)),
        help_requested: any_token(args, |t: Seq<char>| is_help_flag(t)),
    }
}

fn is_one_of(t: &str, a: &str, b: &str) -> (r: bool)
    ensures
        r == (t@ == a@ || t@ == b@),
{
    same_text(t, a) || same_text(t, b)
}

/// Reads the command-line tokens (without the program name) into a
/// configuration. Fails only when `home` is unknown.
pub fn parse_args(args: &Vec<String>, home: Option<String>) -> (r: Result<Config, ConfigError>)
    ensures
        home is None ==> r == Err::<Config, ConfigError>(ConfigError::MissingHome),
        home matches Some(h) ==> r matches Ok(c) && c@ == config_of(arg_views(args@), h@),
{
    let home = match home {
        Some(h) => h,
        None => return Err(ConfigError::MissingHome),
    };
    let ghost toks = arg_views(args@);
    let n = args.len();
    let mut dir: Option<&String> = None;
    let mut create_symlink = true;
    let mut force_update = false;
    let mut quiet = false;
    let mut help_requested = false;
    let mut i: usize = 0;
    while i < n
        invariant
            n == args@.len(),
            toks == arg_views(args@),
            i <= n,
            match dir {
                Some(d) => dir_value(toks, i as int) == Some(d@),
                None => dir_value(toks, i as int) is None,
            },
            create_symlink == !(exists|j: int| 0 <= j < i && is_no_symlink_flag(#[trigger] toks[j])),
            force_update == (exists|j: int| 0 <= j < i && is_force_flag(#[trigger] toks[j])),
            quiet == (exists|j: int| 0 <= j < i && is_quiet_flag(#[trigger] toks[j])),
            help_requested == (exists|j: int| 0 <= j < i && is_help_flag(#[trigger] toks[j])),
        decreases n - i,
    {
        let t = args[i].as_str();
        assert(toks[i as int] == t@);
        if is_one_of(t, "-d", "--install-dir") && i + 1 < n {
            dir = Some(&args[i + 1]);
        }
        if same_text(t, "--no-symlink") {
            create_symlink = false;
        }
        if is_one_of(t, "-f", "--force") {
            force_update = true;
        }
        if is_one_of(t, "-q", "--quiet") {
            quiet = true;
        }
        if is_one_of(t, "-h", "--help") {
            help_requested = true;
        }
        i = i + 1;
    }
    let install_dir = match dir {
        Some(d) => d.clone(),
        None => join_path(home.as_str(), DEFAULT_SUBDIR),
    };
    Ok(Config { install_dir, create_symlink, force_update, quiet, help_requested })
}

} // verus!
