//! The installer as a state machine. The caller performs each `Action` and
//! answers with the `Event` that it produced, until a `Finish` or `Fail`.
use vstd::prelude::*;
use crate::config::{Config, ConfigView};
use crate::release::{
    first_match, latest_release_url, release_url, select_asset, AssetInfo, AssetView,
    ReleaseInfo, ReleaseView, Target, TargetView,
};
use crate::text::{join, join_path};

verus! {

/// Where a run stands: which answer it waits for.
#[derive(PartialEq, Eq, Clone, Copy, Debug, Structural)]
pub enum Phase {
    /// Waits for the usage text to be printed.
    ShowingHelp,
    /// Waits for the install directory to exist.
    PreparingDir,
    /// Waits for the latest release's metadata.
    Resolving,
    /// Waits to learn whether the asset file exists.
    Checking,
    /// Waits for the asset to be downloaded.
    Downloading,
    /// Waits for the asset file to be made executable; `fresh` when it was
    /// just downloaded.
    MakingExecutable { fresh: bool },
    /// Waits for the symlink to be made.
    Linking { fresh: bool },
    /// The run is over.
    Finished,
}

/// How a successful run ended.
#[derive(PartialEq, Eq, Clone, Copy, Debug, Structural)]
pub enum Outcome {
    HelpPrinted,
    AlreadyInstalled,
    InstalledFresh,
}

/// Why a run failed.
#[derive(PartialEq, Eq, Clone, Copy, Debug, Structural)]
pub enum InstallError {
    /// No asset of the release has a name with the wanted suffix.
    NoMatchingAsset,
    /// The answer does not fit the action that was asked for.
    UnexpectedEvent,
}

/// What the caller is asked to do next.
#[derive(Debug, PartialEq, Eq)]
pub enum Action {
    /// Print the usage text.
    PrintHelp,
    /// Make sure the directory exists, creating it and its parents.
    EnsureDir { dir: String },
    /// Fetch and read the release metadata at `url`.
    FetchRelease { url: String },
    /// Tell whether anything exists at `path`.
    CheckInstalled { path: String },
    /// Download `url` into `path`, replacing what is there.
    Download { url: String, path: String },
    /// Add the executable bits to the mode of the file at `path`.
    MakeExecutable { path: String },
    /// Remove whatever is at `link` and make it a symlink to `target`.
    Link { link: String, target: String },
    /// Stop: the run succeeded.
    Finish { outcome: Outcome },
    /// Stop: the run failed.
    Fail { error: InstallError },
}

pub ghost enum ActionView {
    PrintHelp,
    EnsureDir { dir: Seq<char> },
    FetchRelease { url: Seq<char> },
    CheckInstalled { path: Seq<char> },
    Download { url: Seq<char>, path: Seq<char> },
    MakeExecutable { path: Seq<char> },
    Link { link: Seq<char>, target: Seq<char> },
    Finish { outcome: Outcome },
    Fail { error: InstallError },
}

impl View for Action {
    type V = ActionView;

    open spec fn view(&self) -> ActionView {
        match self {
            Action::PrintHelp => ActionView::PrintHelp,
            Action::EnsureDir { dir } => ActionView::EnsureDir { dir: dir@ },
            Action::FetchRelease { url } => ActionView::FetchRelease { url: url@ },
            Action::CheckInstalled { path } => ActionView::CheckInstalled { path: path@ },
            Action::Download { url, path } => ActionView::Download { url: url@, path: path@ },
            Action::MakeExecutable { path } => ActionView::MakeExecutable { path: path@ },
            Action::Link { link, target } => ActionView::Link { link: link@, target: target@ },
            Action::Finish { outcome } => ActionView::Finish { outcome: *outcome },
            Action::Fail { error } => ActionView::Fail { error: *error },
        }
    }
}

/// The caller's answer to the last action.
#[derive(Debug, PartialEq, Eq)]
pub enum Event {
    /// The action was carried out.
    Done,
    /// The release metadata that was fetched.
    Release(ReleaseInfo),
    /// Whether something exists at the path that was checked.
    Exists(bool),
}

pub ghost enum EventView {
    Done,
    Release(ReleaseView),
    Exists(bool),
}

impl View for Event {
    type V = EventView;

    open spec fn view(&self) -> EventView {
        match self {
            Event::Done => EventView::Done,
            Event::Release(r) => EventView::Release(r@),
            Event::Exists(b) => EventView::Exists(*b),
        }
    }
}

/// One run of the installer: its configuration, its target, where it stands,
/// and the release tag and asset chosen once the metadata has been read.
pub struct Installer {
    pub config: Config,
    pub target: Target,
    pub phase: Phase,
    pub tag: String,
    pub asset: AssetInfo,
}

pub ghost struct InstallerView {
    pub config: ConfigView,
    pub target: TargetView,
    pub phase: Phase,
    pub tag: Seq<char>,
    pub asset: AssetView,
}

impl View for Installer {
    type V = InstallerView;

    open spec fn view(&self) -> InstallerView {
        InstallerView {
            config: self.config@,
            target: self.target@,
            phase: self.phase,
            tag: self.tag@,
            asset: self.asset@,
        }
    }
}

/// Path of the asset file inside the install directory.
pub open spec fn install_path(s: InstallerView) -> Seq<char> {
    join(s.config.install_dir, s.asset.name)
}

/// Path of the symlink inside the install directory.
pub open spec fn link_path(s: InstallerView) -> Seq<char> {
    join(s.config.install_dir, s.target.link_name)
}

/// The symlink to make: at `link_path`, pointing at the asset's bare name.
pub open spec fn link_action(s: InstallerView) -> ActionView {
    ActionView::Link { link: link_path(s), target: s.asset.name }
}

pub open spec fn outcome_of(fresh: bool) -> Outcome {
    if fresh {
        Outcome::InstalledFresh
    } else {
        Outcome::AlreadyInstalled
    }
}

/// The state of a run that has just started.
pub open spec fn launch_state(config: ConfigView, target: TargetView) -> InstallerView {
    InstallerView {
        config,
        target,
        phase: if config.help_requested {
            Phase::ShowingHelp
        } else {
            Phase::PreparingDir
        },
        tag: Seq::empty(),
        asset: AssetView { name: Seq::empty(), download_url: Seq::empty() },
    }
}

/// The first action of a run: the usage text when asked for, whatever else
/// the command line says; otherwise preparing the install directory.
pub open spec fn first_action(config: ConfigView) -> ActionView {
    if config.help_requested {
        ActionView::PrintHelp
    } else {
        ActionView::EnsureDir { dir: config.install_dir }
    }
}

pub open spec fn finished(s: InstallerView) -> InstallerView {
    InstallerView { phase: Phase::Finished, ..s }
}

pub open spec fn unexpected(s: InstallerView) -> (InstallerView, ActionView) {
    (finished(s), ActionView::Fail { error: InstallError::UnexpectedEvent })
}

/// The state after link or permission work on a file that is in place.
pub open spec fn after_permissions(s: InstallerView, fresh: bool) -> (InstallerView, ActionView) {
    if s.config.create_symlink {
        (InstallerView { phase: Phase::Linking { fresh }, ..s }, link_action(s))
    } else {
        (finished(s), ActionView::Finish { outcome: outcome_of(fresh) })
    }
}

/// The next state and action of a run in state `s` that receives `e`.
pub open spec fn next(s: InstallerView, e: EventView) -> (InstallerView, ActionView) {
    match s.phase {
        Phase::ShowingHelp => if e is Done {
            (finished(s), ActionView::Finish { outcome: Outcome::HelpPrinted })
        } else {
            unexpected(s)
        },
        Phase::PreparingDir => if e is Done {
            (
                InstallerView { phase: Phase::Resolving, ..s },
                ActionView::FetchRelease {
                    url: latest_release_url(s.target.owner, s.target.repo),
                },
            )
        } else {
            unexpected(s)
        },
        Phase::Resolving => match e {
            EventView::Release(r) => match first_match(r.assets, s.target.asset_suffix) {
                Some(i) => {
                    let t = InstallerView {
                        phase: Phase::Checking,
                        tag: r.tag,
                        asset: r.assets[i],
                        ..s
                    };
                    (t, ActionView::CheckInstalled { path: install_path(t) })
                },
                None => (finished(s), ActionView::Fail { error: InstallError::NoMatchingAsset }),
            },
            _ => unexpected(s),
        },
        Phase::Checking => match e {
            EventView::Exists(present) => if present && !s.config.force_update {
                (
                    InstallerView { phase: Phase::MakingExecutable { fresh: false }, ..s },
                    ActionView::MakeExecutable { path: install_path(s) },
                )
            } else {
                (
                    InstallerView { phase: Phase::Downloading, ..s },
                    ActionView::Download { url: s.asset.download_url, path: install_path(s) },
                )
            },
            _ => unexpected(s),
        },
        Phase::Downloading => if e is Done {
            (
                InstallerView { phase: Phase::MakingExecutable { fresh: true }, ..s },
                ActionView::MakeExecutable { path: install_path(s) },
            )
        } else {
            unexpected(s)
        },
        Phase::MakingExecutable { fresh } => if e is Done {
            after_permissions(s, fresh)
        } else {
            unexpected(s)
        },
        Phase::Linking { fresh } => if e is Done {
            (finished(s), ActionView::Finish { outcome: outcome_of(fresh) })
        } else {
            unexpected(s)
        },
        Phase::Finished => unexpected(s),
    }
}

impl Installer {
    /// Starts a run and returns it with its first action.
    pub fn launch(config: Config, target: Target) -> (r: (Installer, Action))
        ensures
            r.0@ == launch_state(config@, target@),
            r.1@ == first_action(config@),
    {
        let action = if config.help_requested {
            Action::PrintHelp
        } else {
            Action::EnsureDir { dir: config.install_dir.clone() }
        };
        let phase = if config.help_requested {
            Phase::ShowingHelp
        } else {
            Phase::PreparingDir
        };
        let asset = AssetInfo { name: String::new(), download_url: String::new() };
        let run = Installer { config, target, phase, tag: String::new(), asset };
        assert(run@.asset == launch_state(config@, target@).asset);
        (run, action)
    }

    fn finish(&mut self, outcome: Outcome) -> (a: Action)
        ensures
            final(self)@ == finished(old(self)@),
            a@ == (ActionView::Finish { outcome }),
    {
        self.phase = Phase::Finished;
        Action::Finish { outcome }
    }

    fn fail(&mut self, error: InstallError) -> (a: Action)
        ensures
            final(self)@ == finished(old(self)@),
            a@ == (ActionView::Fail { error }),
    {
        self.phase = Phase::Finished;
        Action::Fail { error }
    }

    fn install_path(&self) -> (r: String)
        ensures
            r@ == install_path(self@),
    {
        join_path(self.config.install_dir.as_str(), self.asset.name.as_str())
    }

    /// Takes the answer to the last action and returns the next action.
    pub fn step(&mut self, event: Event) -> (a: Action)
        ensures
            (final(self)@, a@) == next(old(self)@, event@),
    {
        match self.phase {
            Phase::ShowingHelp => match event {
                Event::Done => self.finish(Outcome::HelpPrinted),
                _ => self.fail(InstallError::UnexpectedEvent),
            },
            Phase::PreparingDir => match event {
                Event::Done => {
                    self.phase = Phase::Resolving;
                    Action::FetchRelease { url: release_url(&self.target) }
                },
                _ => self.fail(InstallError::UnexpectedEvent),
            },
            Phase::Resolving => match event {
                Event::Release(release) => {
                    match select_asset(&release, self.target.asset_suffix.as_str()) {
                        Some(i) => {
                            proof {
                                crate::release::lemma_first_match(
                                    release@.assets,
                                    self.target.asset_suffix@,
                                );
                            }
                            let asset = release.assets[i].duplicate();
                            assert(asset@ == release@.assets[i as int]);
                            self.asset = asset;
                            self.tag = release.tag;
                            self.phase = Phase::Checking;
                            Action::CheckInstalled { path: self.install_path() }
                        },
                        None => self.fail(InstallError::NoMatchingAsset),
                    }
                },
                _ => self.fail(InstallError::UnexpectedEvent),
            },
            Phase::Checking => match event {
                Event::Exists(present) => {
                    if present && !self.config.force_update {
                        self.phase = Phase::MakingExecutable { fresh: false };
                        Action::MakeExecutable { path: self.install_path() }
                    } else {
                        self.phase = Phase::Downloading;
                        Action::Download {
                            url: self.asset.download_url.clone(),
                            path: self.install_path(),
                        }
                    }
                },
                _ => self.fail(InstallError::UnexpectedEvent),
            },
            Phase::Downloading => match event {
                Event::Done => {
                    self.phase = Phase::MakingExecutable { fresh: true };
                    Action::MakeExecutable { path: self.install_path() }
                },
                _ => self.fail(InstallError::UnexpectedEvent),
            },
            Phase::MakingExecutable { fresh } => match event {
                Event::Done => {
                    if self.config.create_symlink {
                        self.phase = Phase::Linking { fresh };
                        Action::Link {
                            link: join_path(
                                self.config.install_dir.as_str(),
                                self.target.link_name.as_str(),
                            ),
                            target: self.asset.name.clone(),
                        }
                    } else {
                        self.finish(if fresh {
                            Outcome::InstalledFresh
                        } else {
                            Outcome::AlreadyInstalled
                        })
                    }
                },
                _ => self.fail(InstallError::UnexpectedEvent),
            },
            Phase::Linking { fresh } => match event {
                Event::Done => self.finish(if fresh {
                    Outcome::InstalledFresh
                } else {
                    Outcome::AlreadyInstalled
                }),
                _ => self.fail(InstallError::UnexpectedEvent),
            },
            Phase::Finished => self.fail(InstallError::UnexpectedEvent),
        }
    }
}

} // verus!
