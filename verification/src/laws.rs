use vstd::prelude::*;

use crate::config::ConfigModel;
use crate::errors::ServerErrors;
use crate::mods::LatestFileModel;
use crate::mods::ModModel;
use crate::server::Manager;
use crate::server::SpawnOutcome;
use crate::server::StopOutcome;
use crate::server::spec_mark_ready;
use crate::server::spec_new;
use crate::server::spec_online;
use crate::server::spec_start;
use crate::server::spec_stop;
use crate::update::ActionModel;
use crate::update::InstallerDownload;
use crate::update::InstallerRunModel;
use crate::update::ListingFetchModel;
use crate::update::MetaFetchModel;
use crate::update::UpdateEnvModel;
use crate::update::opt_act;
use crate::update::spec_first_match;
use crate::update::spec_parse_install_line;
use crate::update::spec_reconcile_from;
use crate::update::spec_reconcile_one;
use crate::update::spec_update;

verus! {

/// Once a start has succeeded, any further start while the files are
/// still installed fails with `ServerAlreadyOnline`, whatever spawn
/// outcome the caller could have observed, and the supervised-process
/// slot is untouched: still exactly the one process.
pub proof fn lemma_start_twice(
    m: Manager,
    files1: bool,
    spawn1: SpawnOutcome,
    files2: bool,
    spawn2: SpawnOutcome,
)
    requires
        spec_start(m, files1, spawn1).1 is Ok,
        files2,
    ensures
        ({
            let m1 = spec_start(m, files1, spawn1).0;
            spec_start(m1, files2, spawn2) == (
                m1,
                Result::<u32, ServerErrors>::Err(ServerErrors::ServerAlreadyOnline),
            ) && m1.server is Some
        }),
{
}

/// A stop with no prior start fails with `ServerOffline`, and no
/// process comes into being as a side effect: the manager is left
/// exactly as constructed.
pub proof fn lemma_stop_before_start(alive: bool, flow: StopOutcome)
    ensures
        spec_stop(spec_new(), alive, flow) == (
            spec_new(),
            Result::<(), ServerErrors>::Err(ServerErrors::ServerOffline),
        ),
{
}

/// A stop straight after a successful start, before the readiness
/// marker has been observed, fails with `ServerStillStarting`, whatever
/// the process observations were, and the process stays supervised.
pub proof fn lemma_stop_while_starting(
    m: Manager,
    files: bool,
    spawn: SpawnOutcome,
    alive: bool,
    flow: StopOutcome,
)
    requires
        spec_start(m, files, spawn).1 is Ok,
    ensures
        ({
            let m1 = spec_start(m, files, spawn).0;
            spec_stop(m1, alive, flow) == (
                m1,
                Result::<(), ServerErrors>::Err(ServerErrors::ServerStillStarting),
            ) && m1.server is Some
        }),
{
}

/// Once the readiness marker has been observed, a stop whose shutdown
/// flow ran to completion — the command delivered, the log tailer
/// joined, the process reaped — succeeds, and the manager is offline:
/// no process is queryable as running any more.
pub proof fn lemma_stop_after_ready(m: Manager, files: bool, spawn: SpawnOutcome)
    requires
        spec_start(m, files, spawn).1 is Ok,
    ensures
        ({
            let m2 = spec_mark_ready(spec_start(m, files, spawn).0);
            spec_stop(m2, true, StopOutcome::Stopped) == (
                spec_new(),
                Result::<(), ServerErrors>::Ok(()),
            ) && !spec_online(spec_stop(m2, true, StopOutcome::Stopped).0)
        }),
{
}

/// The version a successful metadata fetch carried.
pub open spec fn meta_version(m: MetaFetchModel) -> Seq<char> {
    match m {
        MetaFetchModel::Available(v) => v,
        _ => Seq::empty(),
    }
}

/// The line a completed installer run reported.
pub open spec fn run_line(r: InstallerRunModel) -> Seq<char> {
    match r {
        InstallerRunModel::Completed(l) => l,
        _ => Seq::empty(),
    }
}

/// The file listings a successful listing fetch carried.
pub open spec fn listed_files(lf: ListingFetchModel) -> Seq<LatestFileModel> {
    match lf {
        ListingFetchModel::Listed(ls) => ls,
        _ => Seq::empty(),
    }
}

/// The game version an update run with this environment installs.
pub open spec fn env_game_version(env: UpdateEnvModel) -> Seq<char> {
    match spec_parse_install_line(run_line(env.installer_run)) {
        Some(lg) => lg.1,
        None => Seq::empty(),
    }
}

/// An environment in which the metadata fetch, the installer download
/// and the installer run all succeed and the installer reports a
/// well-formed version line, so the run reaches mod reconciliation.
pub open spec fn env_reaches_mods(env: UpdateEnvModel) -> bool {
    &&& env.meta is Available
    &&& env.installer_download == InstallerDownload::Saved
    &&& env.installer_run is Completed
    &&& spec_parse_install_line(run_line(env.installer_run)) is Some
}

/// An action list that asks for no installer and no mod downloads.
pub open spec fn has_no_downloads(acts: Seq<ActionModel>) -> bool {
    forall|k: int|
        0 <= k < acts.len() ==> !(acts[k] is DownloadInstaller) && !(acts[k] is DownloadMod)
}

/// Reconciliation touches each entry independently: the result keeps
/// the length; an entry whose own listing outcome was processed becomes
/// its own one-step reconciliation, every other entry is untouched.
pub proof fn lemma_reconcile_from_pointwise(
    mods: Seq<ModModel>,
    game: Seq<char>,
    listings: Seq<ListingFetchModel>,
    i: int,
)
    requires
        0 <= i,
    ensures
        spec_reconcile_from(mods, game, listings, i).0.len() == mods.len(),
        forall|j: int|
            0 <= j < mods.len() && i <= j && j < listings.len() ==> spec_reconcile_from(
                mods,
                game,
                listings,
                i,
            ).0[j] == spec_reconcile_one(mods[j], game, listings[j]).0,
        forall|j: int|
            0 <= j < mods.len() && (j < i || j >= listings.len()) ==> spec_reconcile_from(
                mods,
                game,
                listings,
                i,
            ).0[j] == mods[j],
    decreases mods.len() - i,
{
    if i >= mods.len() || i >= listings.len() {
    } else {
        let one = spec_reconcile_one(mods[i], game, listings[i]);
        let mods2 = mods.update(i, one.0);
        lemma_reconcile_from_pointwise(mods2, game, listings, i + 1);
        let r = spec_reconcile_from(mods, game, listings, i);
        assert forall|j: int|
            0 <= j < mods.len() && i <= j && j < listings.len() implies r.0[j]
            == spec_reconcile_one(mods[j], game, listings[j]).0 by {
            if j == i {
                assert(r.0[j] == mods2[i]);
            } else {
                assert(mods2[j] == mods[j]);
            }
        }
        assert forall|j: int|
            0 <= j < mods.len() && (j < i || j >= listings.len()) implies r.0[j] == mods[j] by {
            assert(mods2[j] == mods[j]);
        }
    }
}

/// Reconciling an entry a second time against the same listing outcome
/// and game version changes nothing and asks for nothing.
pub proof fn lemma_reconcile_one_idempotent(m: ModModel, game: Seq<char>, lf: ListingFetchModel)
    ensures
        spec_reconcile_one(spec_reconcile_one(m, game, lf).0, game, lf) == (
            spec_reconcile_one(m, game, lf).0,
            Option::<ActionModel>::None,
        ),
{
}

/// When no entry would change, reconciliation keeps the entries and
/// asks for no downloads.
pub proof fn lemma_reconcile_from_no_changes(
    mods: Seq<ModModel>,
    game: Seq<char>,
    listings: Seq<ListingFetchModel>,
    i: int,
)
    requires
        0 <= i,
        forall|j: int|
            i <= j < mods.len() && j < listings.len() ==> spec_reconcile_one(
                mods[j],
                game,
                listings[j],
            ).1 is None,
    ensures
        spec_reconcile_from(mods, game, listings, i).0 == mods,
        spec_reconcile_from(mods, game, listings, i).1 == Seq::<ActionModel>::empty(),
    decreases mods.len() - i,
{
    if i >= mods.len() || i >= listings.len() {
    } else {
        let one = spec_reconcile_one(mods[i], game, listings[i]);
        assert(one.1 is None);
        assert(one.0 == mods[i]);
        assert(mods.update(i, one.0) =~= mods);
        lemma_reconcile_from_no_changes(mods, game, listings, i + 1);
        assert(opt_act(one.1) + spec_reconcile_from(mods, game, listings, i + 1).1
            =~= Seq::<ActionModel>::empty());
    }
}

/// Reconciling twice against the same listings and game version: the
/// second pass keeps every entry and asks for no downloads.
pub proof fn lemma_reconcile_idempotent(
    mods: Seq<ModModel>,
    game: Seq<char>,
    listings: Seq<ListingFetchModel>,
)
    ensures
        ({
            let r1 = spec_reconcile_from(mods, game, listings, 0);
            let r2 = spec_reconcile_from(r1.0, game, listings, 0);
            r2.0 == r1.0 && r2.1 == Seq::<ActionModel>::empty()
        }),
{
    let r1 = spec_reconcile_from(mods, game, listings, 0);
    lemma_reconcile_from_pointwise(mods, game, listings, 0);
    assert forall|j: int|
        0 <= j < r1.0.len() && j < listings.len() implies spec_reconcile_one(
        r1.0[j],
        game,
        listings[j],
    ).1 is None by {
        lemma_reconcile_one_idempotent(mods[j], game, listings[j]);
    }
    lemma_reconcile_from_no_changes(r1.0, game, listings, 0);
}

/// Running the update pipeline twice with unchanged remote answers: the
/// first run succeeds, the second leaves the record byte-identical and
/// asks for no downloads at all.
pub proof fn lemma_update_idempotent(m1: Manager, m2: Manager, c: ConfigModel, env: UpdateEnvModel)
    requires
        env_reaches_mods(env),
    ensures
        ({
            let r1 = spec_update(m1, c, env);
            let r2 = spec_update(m2, r1.1, env);
            r1.3 == Result::<(), ServerErrors>::Ok(()) && r2.1 == r1.1 && has_no_downloads(r2.2)
                && r2.3 == Result::<(), ServerErrors>::Ok(())
        }),
{
    let u1 = spec_update(m1, c, env);
    match env.meta {
        MetaFetchModel::Available(ver) => {
            match env.installer_run {
                InstallerRunModel::Completed(line) => {
                    match spec_parse_install_line(line) {
                        Some(lg) => {
                            let c1 = if ver != c.installer_version {
                                ConfigModel { installer_version: ver, ..c }
                            } else {
                                c
                            };
                            let c2 = if lg.0 != c1.loader_version {
                                ConfigModel { loader_version: lg.0, ..c1 }
                            } else {
                                c1
                            };
                            let c3 = if lg.1 != c2.game_version {
                                ConfigModel { game_version: lg.1, ..c2 }
                            } else {
                                c2
                            };
                            let rec1 = spec_reconcile_from(
                                c3.mods,
                                c3.game_version,
                                env.listings,
                                0,
                            );
                            assert(u1.1 == (ConfigModel { mods: rec1.0, ..c3 }));
                            assert(u1.3 == Result::<(), ServerErrors>::Ok(()));
                            assert(u1.1.installer_version == ver);
                            assert(u1.1.loader_version == lg.0);
                            assert(u1.1.game_version == lg.1);
                            assert(c3.game_version == lg.1);
                            assert(c3.mods == c.mods);
                            let u2 = spec_update(m2, u1.1, env);
                            let rec2 = spec_reconcile_from(u1.1.mods, lg.1, env.listings, 0);
                            lemma_reconcile_idempotent(c3.mods, lg.1, env.listings);
                            assert(rec2.0 == rec1.0);
                            assert(u2.1 == (ConfigModel { mods: rec2.0, ..u1.1 }));
                            assert(u2.1 == u1.1);
                            assert(u2.2 =~= seq![ActionModel::EnsureEula, ActionModel::RunInstaller]);
                            assert(has_no_downloads(u2.2));
                        },
                        None => {
                            assert(false);
                        },
                    }
                },
                InstallerRunModel::LaunchFailed => {
                    assert(false);
                },
            }
        },
        _ => {
            assert(false);
        },
    }
}

/// Every action mod reconciliation asks for is a mod download.
pub proof fn lemma_reconcile_actions_are_mod_downloads(
    mods: Seq<ModModel>,
    game: Seq<char>,
    listings: Seq<ListingFetchModel>,
    i: int,
)
    ensures
        forall|k: int|
            0 <= k < spec_reconcile_from(mods, game, listings, i).1.len()
                ==> spec_reconcile_from(mods, game, listings, i).1[k] is DownloadMod,
    decreases mods.len() - i,
{
    if i < 0 || i >= mods.len() || i >= listings.len() {
    } else {
        let one = spec_reconcile_one(mods[i], game, listings[i]);
        let rest = spec_reconcile_from(mods.update(i, one.0), game, listings, i + 1);
        lemma_reconcile_one_action_shape(mods[i], game, listings[i]);
        lemma_reconcile_actions_are_mod_downloads(mods.update(i, one.0), game, listings, i + 1);
        assert forall|k: int|
            0 <= k < (opt_act(one.1) + rest.1).len() implies (opt_act(one.1) + rest.1)[k]
            is DownloadMod by {
            if k < opt_act(one.1).len() {
                assert((opt_act(one.1) + rest.1)[k] == opt_act(one.1)[k]);
            } else {
                assert((opt_act(one.1) + rest.1)[k] == rest.1[k - opt_act(one.1).len()]);
            }
        }
    }
}

/// The recovery model: a run that failed after the installer sync has
/// durably recorded the new installer version and nothing downstream;
/// a re-run against unchanged remote metadata skips the completed
/// installer step — it never transfers the installer again — and
/// retries from where the failed run left off.
pub proof fn lemma_update_resumes(
    m1: Manager,
    m2: Manager,
    c: ConfigModel,
    env1: UpdateEnvModel,
    env2: UpdateEnvModel,
)
    requires
        env1.meta is Available,
        env1.installer_download == InstallerDownload::Saved,
        env1.installer_run is LaunchFailed,
        env_reaches_mods(env2),
        env2.meta == env1.meta,
    ensures
        ({
            let r1 = spec_update(m1, c, env1);
            let r2 = spec_update(m2, r1.1, env2);
            r1.3 == Result::<(), ServerErrors>::Err(ServerErrors::IoError)
                && r1.1.installer_version == meta_version(env1.meta) && r1.1.loader_version
                == c.loader_version && r1.1.game_version == c.game_version && r1.1.mods == c.mods
                && (forall|k: int| 0 <= k < r2.2.len() ==> !(r2.2[k] is DownloadInstaller))
                && r2.3 == Result::<(), ServerErrors>::Ok(())
        }),
{
    let r1 = spec_update(m1, c, env1);
    let r2 = spec_update(m2, r1.1, env2);
    match env2.meta {
        MetaFetchModel::Available(ver) => {
            match env2.installer_run {
                InstallerRunModel::Completed(line) => {
                    match spec_parse_install_line(line) {
                        Some(lg) => {
                            assert(r1.1.installer_version == ver);
                            let c2 = if lg.0 != r1.1.loader_version {
                                ConfigModel { loader_version: lg.0, ..r1.1 }
                            } else {
                                r1.1
                            };
                            let c3 = if lg.1 != c2.game_version {
                                ConfigModel { game_version: lg.1, ..c2 }
                            } else {
                                c2
                            };
                            let rec = spec_reconcile_from(
                                c3.mods,
                                c3.game_version,
                                env2.listings,
                                0,
                            );
                            assert(r2.2 == (Seq::<ActionModel>::empty() + seq![
                                ActionModel::EnsureEula,
                            ] + seq![ActionModel::RunInstaller]) + rec.1);
                            lemma_reconcile_actions_are_mod_downloads(
                                c3.mods,
                                c3.game_version,
                                env2.listings,
                                0,
                            );
                            let head = Seq::<ActionModel>::empty() + seq![ActionModel::EnsureEula]
                                + seq![ActionModel::RunInstaller];
                            assert(head =~= seq![ActionModel::EnsureEula, ActionModel::RunInstaller]);
                            assert forall|k: int|
                                0 <= k < r2.2.len() implies !(r2.2[k] is DownloadInstaller) by {
                                if k < head.len() {
                                    assert(r2.2[k] == head[k]);
                                } else {
                                    assert(r2.2[k] == rec.1[k - head.len()]);
                                }
                            }
                        },
                        None => {
                            assert(false);
                        },
                    }
                },
                InstallerRunModel::LaunchFailed => {
                    assert(false);
                },
            }
        },
        _ => {
            assert(false);
        },
    }
}

/// How many download requests for the mod with this identity an action
/// list holds.
pub open spec fn count_mod_downloads(acts: Seq<ActionModel>, target: u64) -> int
    decreases acts.len(),
{
    if acts.len() == 0 {
        0
    } else {
        (match acts[0] {
            ActionModel::DownloadMod { mod_id, .. } => if mod_id == target {
                1int
            } else {
                0int
            },
            _ => 0int,
        }) + count_mod_downloads(acts.drop_first(), target)
    }
}

/// The one action a reconciliation step can ask for is a download of
/// that very mod, and it is asked for exactly when the entry changed.
pub proof fn lemma_reconcile_one_action_shape(m: ModModel, game: Seq<char>, lf: ListingFetchModel)
    ensures
        ({
            let one = spec_reconcile_one(m, game, lf);
            match one.1 {
                Some(a) => match a {
                    ActionModel::DownloadMod { mod_id, file_id, file_name } => mod_id == m.mod_id
                        && one.0 == (ModModel { file_id: Some(file_id), ..m }),
                    _ => false,
                },
                None => one.0 == m,
            }
        }),
{
}

/// An action list without mod downloads counts zero for every mod.
pub proof fn lemma_count_no_mod_download(acts: Seq<ActionModel>, target: u64)
    requires
        forall|k: int| 0 <= k < acts.len() ==> !(acts[k] is DownloadMod),
    ensures
        count_mod_downloads(acts, target) == 0,
    decreases acts.len(),
{
    if acts.len() != 0 {
        assert(!(acts[0] is DownloadMod));
        assert forall|k: int|
            0 <= k < acts.drop_first().len() implies !(acts.drop_first()[k] is DownloadMod) by {
            assert(acts.drop_first()[k] == acts[k + 1]);
        }
        lemma_count_no_mod_download(acts.drop_first(), target);
    }
}

/// Download counting distributes over concatenation.
pub proof fn lemma_count_concat(a: Seq<ActionModel>, b: Seq<ActionModel>, target: u64)
    ensures
        count_mod_downloads(a + b, target) == count_mod_downloads(a, target)
            + count_mod_downloads(b, target),
    decreases a.len(),
{
    if a.len() == 0 {
        assert(a + b =~= b);
    } else {
        assert((a + b).drop_first() =~= a.drop_first() + b);
        assert((a + b)[0] == a[0]);
        lemma_count_concat(a.drop_first(), b, target);
    }
}

/// Reconciliation asks for exactly one download of a mod whose own
/// reconciliation changes it, and none of it otherwise, as long as no
/// other entry shares its identity.
pub proof fn lemma_reconcile_download_count(
    mods: Seq<ModModel>,
    game: Seq<char>,
    listings: Seq<ListingFetchModel>,
    i: int,
    t: int,
)
    requires
        0 <= i,
        0 <= t < mods.len(),
        t < listings.len(),
        forall|j: int| 0 <= j < mods.len() && j != t ==> mods[j].mod_id != mods[t].mod_id,
    ensures
        count_mod_downloads(spec_reconcile_from(mods, game, listings, i).1, mods[t].mod_id)
            == if i <= t && spec_reconcile_one(mods[t], game, listings[t]).1 is Some {
            1int
        } else {
            0int
        },
    decreases mods.len() - i,
{
    if i >= mods.len() || i >= listings.len() {
    } else {
        let one = spec_reconcile_one(mods[i], game, listings[i]);
        let mods2 = mods.update(i, one.0);
        let rest = spec_reconcile_from(mods2, game, listings, i + 1);
        assert(one.0.mod_id == mods[i].mod_id);
        assert(mods2[t].mod_id == mods[t].mod_id);
        assert forall|j: int|
            0 <= j < mods2.len() && j != t implies mods2[j].mod_id != mods2[t].mod_id by {
            assert(mods2[j].mod_id == mods[j].mod_id);
        }
        lemma_reconcile_download_count(mods2, game, listings, i + 1, t);
        lemma_count_concat(opt_act(one.1), rest.1, mods[t].mod_id);
        match one.1 {
            Some(a) => {
                lemma_reconcile_one_action_shape(mods[i], game, listings[i]);
                assert(opt_act(one.1) =~= seq![a]);
                assert(seq![a][0] == a);
                assert(seq![a].drop_first() =~= Seq::<ActionModel>::empty());
                assert(count_mod_downloads(Seq::<ActionModel>::empty(), mods[t].mod_id) == 0);
                if i == t {
                    assert(count_mod_downloads(seq![a], mods[t].mod_id) == 1);
                    assert(count_mod_downloads(opt_act(one.1), mods[t].mod_id) == 1);
                } else {
                    assert(mods[i].mod_id != mods[t].mod_id);
                    assert(count_mod_downloads(seq![a], mods[t].mod_id) == 0);
                    assert(count_mod_downloads(opt_act(one.1), mods[t].mod_id) == 0);
                    assert(spec_reconcile_one(mods2[t], game, listings[t]) == spec_reconcile_one(
                        mods[t],
                        game,
                        listings[t],
                    ));
                }
            },
            None => {
                assert(opt_act(one.1) =~= Seq::<ActionModel>::empty());
                assert(count_mod_downloads(opt_act(one.1), mods[t].mod_id) == 0);
                if i != t {
                    assert(spec_reconcile_one(mods2[t], game, listings[t]) == spec_reconcile_one(
                        mods[t],
                        game,
                        listings[t],
                    ));
                } else {
                    assert(one.0 == mods[i]);
                }
            },
        }
    }
}

/// A mod not yet recorded as installed, with a remote listing matching
/// the installed game version: one successful update run leaves its
/// single entry holding exactly the matched file id, and asks for
/// exactly one download of that mod — provided no other configured mod
/// shares its identity.
pub proof fn lemma_new_mod_recorded(m1: Manager, c: ConfigModel, env: UpdateEnvModel, t: int)
    requires
        env_reaches_mods(env),
        0 <= t < c.mods.len(),
        t < env.listings.len(),
        env.listings[t] is Listed,
        spec_first_match(listed_files(env.listings[t]), env_game_version(env)) is Some,
        c.mods[t].file_id is None,
        forall|j: int| 0 <= j < c.mods.len() && j != t ==> c.mods[j].mod_id != c.mods[t].mod_id,
    ensures
        ({
            let u = spec_update(m1, c, env);
            let fm = spec_first_match(listed_files(env.listings[t]), env_game_version(env));
            u.3 == Result::<(), ServerErrors>::Ok(()) && u.1.mods.len() == c.mods.len() && (match fm {
                Some(f) => u.1.mods[t] == (ModModel {
                    file_id: Some(f.project_file_id),
                    ..c.mods[t]
                }) && count_mod_downloads(u.2, c.mods[t].mod_id) == 1,
                None => false,
            })
        }),
{
    let u = spec_update(m1, c, env);
    match env.meta {
        MetaFetchModel::Available(ver) => {
            match env.installer_run {
                InstallerRunModel::Completed(line) => {
                    match spec_parse_install_line(line) {
                        Some(lg) => {
                            let c1 = if ver != c.installer_version {
                                ConfigModel { installer_version: ver, ..c }
                            } else {
                                c
                            };
                            let c2 = if lg.0 != c1.loader_version {
                                ConfigModel { loader_version: lg.0, ..c1 }
                            } else {
                                c1
                            };
                            let c3 = if lg.1 != c2.game_version {
                                ConfigModel { game_version: lg.1, ..c2 }
                            } else {
                                c2
                            };
                            assert(c3.mods == c.mods);
                            assert(c3.game_version == lg.1);
                            assert(env_game_version(env) == lg.1);
                            let rec = spec_reconcile_from(c.mods, lg.1, env.listings, 0);
                            assert(u.1.mods == rec.0);
                            lemma_reconcile_from_pointwise(c.mods, lg.1, env.listings, 0);
                            let one = spec_reconcile_one(c.mods[t], lg.1, env.listings[t]);
                            assert(one.1 is Some);
                            lemma_reconcile_download_count(c.mods, lg.1, env.listings, 0, t);
                            assert(count_mod_downloads(rec.1, c.mods[t].mod_id) == 1);
                            let acts1 = if ver != c.installer_version {
                                seq![ActionModel::DownloadInstaller(ver)]
                            } else {
                                Seq::<ActionModel>::empty()
                            };
                            let acts3 = acts1 + seq![ActionModel::EnsureEula] + seq![
                                ActionModel::RunInstaller,
                            ];
                            assert(u.2 == acts3 + rec.1);
                            lemma_count_concat(acts3, rec.1, c.mods[t].mod_id);
                            assert(count_mod_downloads(acts3, c.mods[t].mod_id) == 0) by {
                                assert forall|k: int|
                                    0 <= k < acts3.len() implies !(acts3[k] is DownloadMod) by {
                                    if ver != c.installer_version {
                                        assert(acts3 =~= seq![
                                            ActionModel::DownloadInstaller(ver),
                                            ActionModel::EnsureEula,
                                            ActionModel::RunInstaller,
                                        ]);
                                    } else {
                                        assert(acts3 =~= seq![
                                            ActionModel::EnsureEula,
                                            ActionModel::RunInstaller,
                                        ]);
                                    }
                                }
                                lemma_count_no_mod_download(acts3, c.mods[t].mod_id);
                            }
                        },
                        None => {
                            assert(false);
                        },
                    }
                },
                InstallerRunModel::LaunchFailed => {
                    assert(false);
                },
            }
        },
        _ => {
            assert(false);
        },
    }
}

/// One mod's failed listing fetch is isolated: the failed mod keeps its
/// entry exactly as it was, any other mod is reconciled precisely as
/// its own listing outcome dictates, and the run still succeeds.
pub proof fn lemma_partial_failure_isolated(
    m1: Manager,
    c: ConfigModel,
    env: UpdateEnvModel,
    a: int,
    b: int,
)
    requires
        env_reaches_mods(env),
        0 <= a < c.mods.len(),
        a < env.listings.len(),
        0 <= b < c.mods.len(),
        b < env.listings.len(),
        a != b,
        env.listings[a] is FetchFailed,
    ensures
        ({
            let u = spec_update(m1, c, env);
            u.3 == Result::<(), ServerErrors>::Ok(()) && u.1.mods[a] == c.mods[a] && u.1.mods[b]
                == spec_reconcile_one(c.mods[b], env_game_version(env), env.listings[b]).0
        }),
{
    let u = spec_update(m1, c, env);
    match env.meta {
        MetaFetchModel::Available(ver) => {
            match env.installer_run {
                InstallerRunModel::Completed(line) => {
                    match spec_parse_install_line(line) {
                        Some(lg) => {
                            assert(env_game_version(env) == lg.1);
                            lemma_reconcile_from_pointwise(c.mods, lg.1, env.listings, 0);
                        },
                        None => {
                            assert(false);
                        },
                    }
                },
                InstallerRunModel::LaunchFailed => {
                    assert(false);
                },
            }
        },
        _ => {
            assert(false);
        },
    }
}

} // verus!
