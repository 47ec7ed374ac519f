//! What holds of whole runs of the installer, over every sequence of answers.
use vstd::prelude::*;
use crate::config::ConfigView;
use crate::installer::{
    first_action, install_path, launch_state, next, ActionView, EventView, InstallError,
    InstallerView, Outcome,
};
use crate::release::{
    first_match, is_wanted, latest_release_url, lemma_first_match, ReleaseView, TargetView,
};
use crate::text::join;

verus! {

/// The actions that a run in state `s` asks for, one for each answer in `events`.
pub open spec fn run(s: InstallerView, events: Seq<EventView>) -> Seq<ActionView>
    decreases events.len(),
{
    if events.len() == 0 {
        Seq::empty()
    } else {
        let (t, a) = next(s, events[0]);
        seq![a] + run(t, events.drop_first())
    }
}

/// Every action of a run that starts with `config` and `target` and receives
/// `events`: the first action, then one for each answer.
pub open spec fn trace(config: ConfigView, target: TargetView, events: Seq<EventView>) -> Seq<
    ActionView,
> {
    seq![first_action(config)] + run(launch_state(config, target), events)
}

/// An action that touches the file system or the network.
pub open spec fn is_effect(a: ActionView) -> bool {
    !(a is PrintHelp || a is Finish || a is Fail)
}

proof fn lemma_run_len(s: InstallerView, events: Seq<EventView>)
    ensures
        run(s, events).len() == events.len(),
    decreases events.len(),
{
    if events.len() > 0 {
        lemma_run_len(next(s, events[0]).0, events.drop_first());
    }
}

/// A finished run answers everything with a failure.
proof fn lemma_finished_fails(s: InstallerView, events: Seq<EventView>)
    requires
        s.phase is Finished,
    ensures
        forall|k: int|
            0 <= k < run(s, events).len() ==> #[trigger] run(s, events)[k] == (ActionView::Fail {
                error: InstallError::UnexpectedEvent,
            }),
    decreases events.len(),
{
    lemma_run_len(s, events);
    if events.len() > 0 {
        let t = next(s, events[0]).0;
        lemma_finished_fails(t, events.drop_first());
        assert forall|k: int| 0 <= k < run(s, events).len() implies #[trigger] run(s, events)[k]
            == (ActionView::Fail { error: InstallError::UnexpectedEvent }) by {
            if k > 0 {
                assert(run(s, events)[k] == run(t, events.drop_first())[k - 1]);
            }
        }
    }
}

/// With help asked for, a run prints the usage text first and then only
/// finishes or fails: it never touches the file system or the network, and
/// once the text is printed it ends successfully.
pub proof fn law_help_has_no_effect(
    config: ConfigView,
    target: TargetView,
    events: Seq<EventView>,
)
    requires
        config.help_requested,
    ensures
        trace(config, target, events)[0] == ActionView::PrintHelp,
        forall|k: int|
            0 <= k < trace(config, target, events).len() ==> !is_effect(
                #[trigger] trace(config, target, events)[k],
            ),
        events.len() > 0 && events[0] is Done ==> trace(config, target, events)[1] == (
        ActionView::Finish { outcome: Outcome::HelpPrinted }),
{
    let s = launch_state(config, target);
    let tr = trace(config, target, events);
    lemma_run_len(s, events);
    if events.len() > 0 {
        let t = next(s, events[0]).0;
        lemma_finished_fails(t, events.drop_first());
        assert forall|k: int| 0 <= k < tr.len() implies !is_effect(#[trigger] tr[k]) by {
            if k >= 2 {
                assert(tr[k] == run(t, events.drop_first())[k - 2]);
            }
        }
    }
}

/// Every symlink that a run makes is asked for by a configuration that wants
/// one, and sits at the link name inside the install directory.
pub proof fn law_links(s: InstallerView, events: Seq<EventView>)
    ensures
        forall|k: int|
            0 <= k < run(s, events).len() && #[trigger] run(s, events)[k] is Link ==> {
                &&& s.config.create_symlink
                &&& run(s, events)[k]->link == join(s.config.install_dir, s.target.link_name)
            },
    decreases events.len(),
{
    lemma_run_len(s, events);
    if events.len() > 0 {
        let t = next(s, events[0]).0;
        law_links(t, events.drop_first());
        assert forall|k: int| 0 <= k < run(s, events).len() && #[trigger] run(s, events)[k] is Link
            implies s.config.create_symlink && run(s, events)[k]->link == join(
            s.config.install_dir,
            s.target.link_name,
        ) by {
            if k > 0 {
                assert(run(s, events)[k] == run(t, events.drop_first())[k - 1]);
            }
        }
    }
}

/// With symlinks switched off, no run makes one.
pub proof fn law_no_link_when_disabled(
    config: ConfigView,
    target: TargetView,
    events: Seq<EventView>,
)
    requires
        !config.create_symlink,
    ensures
        forall|k: int|
            0 <= k < trace(config, target, events).len() ==> !(#[trigger] trace(
                config,
                target,
                events,
            )[k] is Link),
{
    let s = launch_state(config, target);
    let tr = trace(config, target, events);
    law_links(s, events);
    assert forall|k: int| 0 <= k < tr.len() implies !(#[trigger] tr[k] is Link) by {
        if k > 0 {
            assert(tr[k] == run(s, events)[k - 1]);
        }
    }
}

/// The asset is downloaded only in answer to a check that found nothing at
/// its path, or under forced update.
pub proof fn law_download_needs_absence_or_force(s: InstallerView, events: Seq<EventView>)
    ensures
        forall|k: int|
            0 <= k < run(s, events).len() && #[trigger] run(s, events)[k] is Download ==> {
                &&& events[k] is Exists
                &&& (!events[k]->Exists_0 || s.config.force_update)
            },
    decreases events.len(),
{
    lemma_run_len(s, events);
    if events.len() > 0 {
        let t = next(s, events[0]).0;
        law_download_needs_absence_or_force(t, events.drop_first());
        assert forall|k: int|
            0 <= k < run(s, events).len() && #[trigger] run(s, events)[k] is Download implies {
            &&& events[k] is Exists
            &&& (!events[k]->Exists_0 || s.config.force_update)
        } by {
            if k > 0 {
                assert(run(s, events)[k] == run(t, events.drop_first())[k - 1]);
                assert(events[k] == events.drop_first()[k - 1]);
            }
        }
    }
}

/// When the asset file is found in place and no forced update is asked for,
/// the file is made executable at its path instead of being downloaded, and
/// the rest of the run never downloads.
pub proof fn law_present_file_is_kept(s: InstallerView, events: Seq<EventView>)
    requires
        s.phase is Checking,
        !s.config.force_update,
    ensures
        next(s, EventView::Exists(true)).1 == (ActionView::MakeExecutable {
            path: install_path(s),
        }),
        forall|k: int|
            0 <= k < run(next(s, EventView::Exists(true)).0, events).len() ==> !(#[trigger] run(
                next(s, EventView::Exists(true)).0,
                events,
            )[k] is Download),
{
    lemma_no_download_after_check(next(s, EventView::Exists(true)).0, events);
}

proof fn lemma_no_download_after_check(s: InstallerView, events: Seq<EventView>)
    requires
        s.phase is MakingExecutable || s.phase is Linking || s.phase is Finished,
    ensures
        forall|k: int|
            0 <= k < run(s, events).len() ==> !(#[trigger] run(s, events)[k] is Download),
    decreases events.len(),
{
    lemma_run_len(s, events);
    if events.len() > 0 {
        let t = next(s, events[0]).0;
        lemma_no_download_after_check(t, events.drop_first());
        assert forall|k: int| 0 <= k < run(s, events).len() implies !(#[trigger] run(
            s,
            events,
        )[k] is Download) by {
            if k > 0 {
                assert(run(s, events)[k] == run(t, events.drop_first())[k - 1]);
            }
        }
    }
}

/// Under forced update a found asset file is downloaded again, in full, to
/// the same path.
pub proof fn law_force_downloads(s: InstallerView, present: bool)
    requires
        s.phase is Checking,
        s.config.force_update,
    ensures
        next(s, EventView::Exists(present)).1 == (ActionView::Download {
            url: s.asset.download_url,
            path: install_path(s),
        }),
{
}

/// A successful install with symlinks switched on ends right after the
/// symlink is made.
pub proof fn law_success_follows_link(s: InstallerView, events: Seq<EventView>)
    requires
        s.config.create_symlink,
    ensures
        forall|k: int|
            0 <= k < run(s, events).len() && #[trigger] run(s, events)[k] is Finish && run(
                s,
                events,
            )[k]->outcome != Outcome::HelpPrinted ==> {
                ||| k == 0 && s.phase is Linking
                ||| k > 0 && run(s, events)[k - 1] is Link
            },
    decreases events.len(),
{
    lemma_run_len(s, events);
    if events.len() > 0 {
        let t = next(s, events[0]).0;
        law_success_follows_link(t, events.drop_first());
        assert forall|k: int|
            0 <= k < run(s, events).len() && #[trigger] run(s, events)[k] is Finish && run(
                s,
                events,
            )[k]->outcome != Outcome::HelpPrinted implies {
            ||| k == 0 && s.phase is Linking
            ||| k > 0 && run(s, events)[k - 1] is Link
        } by {
            if k > 0 {
                assert(run(s, events)[k] == run(t, events.drop_first())[k - 1]);
                if k > 1 {
                    assert(run(s, events)[k - 1] == run(t, events.drop_first())[k - 2]);
                }
            }
        }
    }
}

/// A run whose release has no asset with the wanted suffix prepares the
/// directory, fetches the metadata and then fails: it downloads nothing,
/// changes no file and makes no symlink.
pub proof fn law_no_matching_asset(
    config: ConfigView,
    target: TargetView,
    release: ReleaseView,
    events: Seq<EventView>,
)
    requires
        !config.help_requested,
        events.len() >= 2,
        events[0] is Done,
        events[1] == EventView::Release(release),
        forall|j: int|
            0 <= j < release.assets.len() ==> !is_wanted(
                #[trigger] release.assets[j],
                target.asset_suffix,
            ),
    ensures
        trace(config, target, events)[2] == (ActionView::Fail {
            error: InstallError::NoMatchingAsset,
        }),
        forall|k: int|
            0 <= k < trace(config, target, events).len() ==> {
                let a = #[trigger] trace(config, target, events)[k];
                a is EnsureDir || a is FetchRelease || a is Fail
            },
{
    lemma_first_match(release.assets, target.asset_suffix);
    let s0 = launch_state(config, target);
    let s1 = next(s0, events[0]).0;
    let rest = events.drop_first().drop_first();
    assert(events.drop_first()[0] == events[1]);
    let s2 = next(s1, events[1]).0;
    lemma_run_len(s2, rest);
    lemma_finished_fails(s2, rest);
    assert(run(s1, events.drop_first()) == seq![next(s1, events[1]).1] + run(s2, rest));
    assert(run(s0, events) == seq![next(s0, events[0]).1] + run(s1, events.drop_first()));
    let tr = trace(config, target, events);
    assert(tr =~= seq![
        first_action(config),
        ActionView::FetchRelease { url: latest_release_url(target.owner, target.repo) },
        ActionView::Fail { error: InstallError::NoMatchingAsset },
    ] + run(s2, rest));
}

/// A fresh install: the directory is prepared, the metadata fetched, the
/// chosen asset found missing, downloaded into the install directory, made
/// executable and linked under the link name, and the run succeeds.
pub proof fn law_fresh_install(
    config: ConfigView,
    target: TargetView,
    release: ReleaseView,
    i: int,
)
    requires
        !config.help_requested,
        config.create_symlink,
        first_match(release.assets, target.asset_suffix) == Some(i),
    ensures
        ({
            let asset = release.assets[i];
            let path = join(config.install_dir, asset.name);
            trace(
                config,
                target,
                seq![
                    EventView::Done,
                    EventView::Release(release),
                    EventView::Exists(false),
                    EventView::Done,
                    EventView::Done,
                    EventView::Done,
                ],
            ) == seq![
                ActionView::EnsureDir { dir: config.install_dir },
                ActionView::FetchRelease { url: latest_release_url(target.owner, target.repo) },
                ActionView::CheckInstalled { path },
                ActionView::Download { url: asset.download_url, path },
                ActionView::MakeExecutable { path },
                ActionView::Link {
                    link: join(config.install_dir, target.link_name),
                    target: asset.name,
                },
                ActionView::Finish { outcome: Outcome::InstalledFresh },
            ]
        }),
{
    let events = seq![
        EventView::Done,
        EventView::Release(release),
        EventView::Exists(false),
        EventView::Done,
        EventView::Done,
        EventView::Done,
    ];
    reveal_with_fuel(run, 7);
    assert(events.drop_first() =~= events.subrange(1, 6));
    assert(events.drop_first().drop_first() =~= events.subrange(2, 6));
    assert(events.subrange(2, 6).drop_first() =~= events.subrange(3, 6));
    assert(events.subrange(3, 6).drop_first() =~= events.subrange(4, 6));
    assert(events.subrange(4, 6).drop_first() =~= events.subrange(5, 6));
    assert(events.subrange(5, 6).drop_first() =~= Seq::<EventView>::empty());
    assert(trace(config, target, events) =~= seq![
        ActionView::EnsureDir { dir: config.install_dir },
        ActionView::FetchRelease { url: latest_release_url(target.owner, target.repo) },
        ActionView::CheckInstalled { path: join(config.install_dir, release.assets[i].name) },
        ActionView::Download {
            url: release.assets[i].download_url,
            path: join(config.install_dir, release.assets[i].name),
        },
        ActionView::MakeExecutable { path: join(config.install_dir, release.assets[i].name) },
        ActionView::Link {
            link: join(config.install_dir, target.link_name),
            target: release.assets[i].name,
        },
        ActionView::Finish { outcome: Outcome::InstalledFresh },
    ]);
}

/// A run that finds the asset file already in place, without forced update:
/// the file is made executable and linked again, nothing is downloaded, and
/// the run succeeds.
pub proof fn law_reinstall(config: ConfigView, target: TargetView, release: ReleaseView, i: int)
    requires
        !config.help_requested,
        !config.force_update,
        config.create_symlink,
        first_match(release.assets, target.asset_suffix) == Some(i),
    ensures
        ({
            let asset = release.assets[i];
            let path = join(config.install_dir, asset.name);
            trace(
                config,
                target,
                seq![
                    EventView::Done,
                    EventView::Release(release),
                    EventView::Exists(true),
                    EventView::Done,
                    EventView::Done,
                ],
            ) == seq![
                ActionView::EnsureDir { dir: config.install_dir },
                ActionView::FetchRelease { url: latest_release_url(target.owner, target.repo) },
                ActionView::CheckInstalled { path },
                ActionView::MakeExecutable { path },
                ActionView::Link {
                    link: join(config.install_dir, target.link_name),
                    target: asset.name,
                },
                ActionView::Finish { outcome: Outcome::AlreadyInstalled },
            ]
        }),
{
    let events = seq![
        EventView::Done,
        EventView::Release(release),
        EventView::Exists(true),
        EventView::Done,
        EventView::Done,
    ];
    reveal_with_fuel(run, 6);
    assert(events.drop_first() =~= events.subrange(1, 5));
    assert(events.drop_first().drop_first() =~= events.subrange(2, 5));
    assert(events.subrange(2, 5).drop_first() =~= events.subrange(3, 5));
    assert(events.subrange(3, 5).drop_first() =~= events.subrange(4, 5));
    assert(events.subrange(4, 5).drop_first() =~= Seq::<EventView>::empty());
    assert(trace(config, target, events) =~= seq![
        ActionView::EnsureDir { dir: config.install_dir },
        ActionView::FetchRelease { url: latest_release_url(target.owner, target.repo) },
        ActionView::CheckInstalled { path: join(config.install_dir, release.assets[i].name) },
        ActionView::MakeExecutable { path: join(config.install_dir, release.assets[i].name) },
        ActionView::Link {
            link: join(config.install_dir, target.link_name),
            target: release.assets[i].name,
        },
        ActionView::Finish { outcome: Outcome::AlreadyInstalled },
    ]);
}

} // verus!
