use joplin_installer::config::{parse_args, Config};
use joplin_installer::installer::{Action, Event, InstallError, Installer, Outcome, Phase};
use joplin_installer::release::{release_url, select_asset, AssetInfo, ReleaseInfo, Target};

fn config(list: &[&str]) -> Config {
    let args: Vec<String> = list.iter().map(|s| s.to_string()).collect();
    parse_args(&args, Some("/home/u".to_string())).unwrap()
}

fn asset(name: &str, url: &str) -> AssetInfo {
    AssetInfo { name: name.to_string(), download_url: url.to_string() }
}

fn scenario_release() -> ReleaseInfo {
    ReleaseInfo {
        tag: "v2.14.0".to_string(),
        assets: vec![
            asset("Joplin-2.14.0.AppImage", "https://x/y.AppImage"),
            asset("Joplin-2.14.0.deb", "https://x/z.deb"),
        ],
    }
}

fn s(x: &str) -> String {
    x.to_string()
}

/// Feeds the answers in turn and collects every action, the first included.
fn drive(c: Config, events: Vec<Event>) -> (Installer, Vec<Action>) {
    let (mut inst, first) = Installer::launch(c, Target::joplin());
    let mut actions = vec![first];
    for e in events {
        actions.push(inst.step(e));
    }
    (inst, actions)
}

fn is_effect(a: &Action) -> bool {
    !matches!(a, Action::PrintHelp | Action::Finish { .. } | Action::Fail { .. })
}

#[test]
fn release_url_names_owner_and_repo() {
    assert_eq!(
        release_url(&Target::joplin()),
        "https://api.github.com/repos/laurent22/joplin/releases/latest"
    );
}

#[test]
fn select_asset_takes_first_match() {
    let mut r = scenario_release();
    assert_eq!(select_asset(&r, ".AppImage"), Some(0));
    r.assets.insert(0, asset("notes.txt", "u"));
    r.assets.push(asset("Other.AppImage", "v"));
    assert_eq!(select_asset(&r, ".AppImage"), Some(1));
    assert_eq!(select_asset(&r, ".deb"), Some(2));
    assert_eq!(select_asset(&r, ".rpm"), None);
    let empty = ReleaseInfo { tag: s("v1"), assets: vec![] };
    assert_eq!(select_asset(&empty, ".AppImage"), None);
}

#[test]
fn help_prints_and_does_nothing_else() {
    let (_, actions) = drive(config(&["-f", "--help", "-d", "/x"]), vec![Event::Done]);
    assert_eq!(
        actions,
        vec![Action::PrintHelp, Action::Finish { outcome: Outcome::HelpPrinted }]
    );
    let (_, actions) = drive(
        config(&["-h"]),
        vec![Event::Exists(false), Event::Done, Event::Release(scenario_release())],
    );
    assert_eq!(actions[0], Action::PrintHelp);
    assert!(actions.iter().all(|a| !is_effect(a)));
}

#[test]
fn fresh_install_end_to_end() {
    let (inst, actions) = drive(
        config(&["-d", "/tmp/j"]),
        vec![
            Event::Done,
            Event::Release(scenario_release()),
            Event::Exists(false),
            Event::Done,
            Event::Done,
            Event::Done,
        ],
    );
    let path = s("/tmp/j/Joplin-2.14.0.AppImage");
    assert_eq!(
        actions,
        vec![
            Action::EnsureDir { dir: s("/tmp/j") },
            Action::FetchRelease {
                url: s("https://api.github.com/repos/laurent22/joplin/releases/latest")
            },
            Action::CheckInstalled { path: path.clone() },
            Action::Download { url: s("https://x/y.AppImage"), path: path.clone() },
            Action::MakeExecutable { path: path.clone() },
            Action::Link { link: s("/tmp/j/joplin"), target: s("Joplin-2.14.0.AppImage") },
            Action::Finish { outcome: Outcome::InstalledFresh },
        ]
    );
    assert_eq!(inst.tag, "v2.14.0");
    assert_eq!(inst.phase, Phase::Finished);
}

#[test]
fn rerun_without_force_skips_download() {
    let (_, actions) = drive(
        config(&["-d", "/tmp/j"]),
        vec![
            Event::Done,
            Event::Release(scenario_release()),
            Event::Exists(true),
            Event::Done,
            Event::Done,
        ],
    );
    let path = s("/tmp/j/Joplin-2.14.0.AppImage");
    assert_eq!(
        actions,
        vec![
            Action::EnsureDir { dir: s("/tmp/j") },
            Action::FetchRelease {
                url: s("https://api.github.com/repos/laurent22/joplin/releases/latest")
            },
            Action::CheckInstalled { path: path.clone() },
            Action::MakeExecutable { path },
            Action::Link { link: s("/tmp/j/joplin"), target: s("Joplin-2.14.0.AppImage") },
            Action::Finish { outcome: Outcome::AlreadyInstalled },
        ]
    );
    assert!(!actions.iter().any(|a| matches!(a, Action::Download { .. })));
}

#[test]
fn force_downloads_existing_file() {
    let (_, actions) = drive(
        config(&["--force", "-d", "/tmp/j"]),
        vec![Event::Done, Event::Release(scenario_release()), Event::Exists(true)],
    );
    assert_eq!(
        actions[3],
        Action::Download {
            url: s("https://x/y.AppImage"),
            path: s("/tmp/j/Joplin-2.14.0.AppImage"),
        }
    );
}

#[test]
fn no_symlink_never_links() {
    let (_, actions) = drive(
        config(&["--no-symlink", "-d", "/tmp/j"]),
        vec![
            Event::Done,
            Event::Release(scenario_release()),
            Event::Exists(false),
            Event::Done,
            Event::Done,
            Event::Done,
        ],
    );
    assert_eq!(actions[5], Action::Finish { outcome: Outcome::InstalledFresh });
    assert!(!actions.iter().any(|a| matches!(a, Action::Link { .. })));
}

#[test]
fn no_symlink_rerun_finishes_after_permissions() {
    let (_, actions) = drive(
        config(&["--no-symlink", "-d", "/tmp/j"]),
        vec![Event::Done, Event::Release(scenario_release()), Event::Exists(true), Event::Done],
    );
    assert_eq!(actions[4], Action::Finish { outcome: Outcome::AlreadyInstalled });
}

#[test]
fn missing_asset_fails_without_file_actions() {
    let release = ReleaseInfo {
        tag: s("v2.14.0"),
        assets: vec![asset("Joplin-2.14.0.deb", "https://x/z.deb"), asset("x.appimage", "u")],
    };
    let (_, actions) = drive(
        config(&[]),
        vec![Event::Done, Event::Release(release), Event::Exists(false), Event::Done],
    );
    assert_eq!(actions[2], Action::Fail { error: InstallError::NoMatchingAsset });
    assert!(actions[3..]
        .iter()
        .all(|a| *a == Action::Fail { error: InstallError::UnexpectedEvent }));
    assert!(!actions.iter().any(|a| matches!(
        a,
        Action::Download { .. } | Action::MakeExecutable { .. } | Action::Link { .. }
    )));
}

#[test]
fn out_of_order_answer_fails() {
    let (inst, actions) = drive(config(&[]), vec![Event::Exists(true)]);
    assert_eq!(actions[1], Action::Fail { error: InstallError::UnexpectedEvent });
    assert_eq!(inst.phase, Phase::Finished);
}

#[test]
fn default_dir_paths() {
    let (_, actions) = drive(
        config(&[]),
        vec![Event::Done, Event::Release(scenario_release())],
    );
    assert_eq!(
        actions[0],
        Action::EnsureDir { dir: s("/home/u/Documents/repository/rust-unicorn") }
    );
    assert_eq!(
        actions[2],
        Action::CheckInstalled {
            path: s("/home/u/Documents/repository/rust-unicorn/Joplin-2.14.0.AppImage")
        }
    );
}
