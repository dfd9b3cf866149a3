use vstd::prelude::*;

use crate::config::Config;
use crate::config::ConfigModel;
use crate::errors::FileKind;
use crate::errors::ServerErrors;
use crate::mods::LatestFile;
use crate::mods::LatestFileModel;
use crate::mods::ModModel;
use crate::server::Manager;
use crate::server::StopOutcome;
use crate::server::spec_stop;

verus! {

/// Result of fetching the remote installer metadata and extracting the
/// latest installer version from it.
#[derive(Debug, Clone)]
pub enum MetaFetch {
    /// The metadata was fetched and parsed; this is the latest version.
    Available(String),
    /// The fetch failed on the network.
    NetworkDown,
    /// The fetched document could not be parsed.
    Malformed,
}

/// Mathematical value of a `MetaFetch`.
pub ghost enum MetaFetchModel {
    Available(Seq<char>),
    NetworkDown,
    Malformed,
}

impl View for MetaFetch {
    type V = MetaFetchModel;

    open spec fn view(&self) -> MetaFetchModel {
        match *self {
            MetaFetch::Available(ref v) => MetaFetchModel::Available(v@),
            MetaFetch::NetworkDown => MetaFetchModel::NetworkDown,
            MetaFetch::Malformed => MetaFetchModel::Malformed,
        }
    }
}

/// Outcome of downloading the installer artifact and persisting it to
/// disk, consulted only when the remote version differs from the
/// persisted one.
#[derive(Clone, Copy, Debug, PartialEq, Eq, Structural)]
pub enum InstallerDownload {
    /// The artifact was downloaded and written.
    Saved,
    /// The download failed on the network.
    NetworkDown,
    /// The bytes could not be read or the file could not be written.
    SaveFailed,
}

/// Outcome of running the installer process to materialize loader and
/// game files.
#[derive(Debug, Clone)]
pub enum InstallerRun {
    /// The installer ran; this is its version-report line.
    Completed(String),
    /// The installer process could not be spawned.
    LaunchFailed,
}

/// Mathematical value of an `InstallerRun`.
pub ghost enum InstallerRunModel {
    Completed(Seq<char>),
    LaunchFailed,
}

impl View for InstallerRun {
    type V = InstallerRunModel;

    open spec fn view(&self) -> InstallerRunModel {
        match *self {
            InstallerRun::Completed(ref l) => InstallerRunModel::Completed(l@),
            InstallerRun::LaunchFailed => InstallerRunModel::LaunchFailed,
        }
    }
}

/// Result of querying the metadata service for one mod's file listings.
#[derive(Debug, Clone)]
pub enum ListingFetch {
    /// The listings that were reported, in the remote-supplied order.
    Listed(Vec<LatestFile>),
    /// The query failed; this mod is skipped, the others proceed.
    FetchFailed,
}

/// Mathematical value of a `ListingFetch`.
pub ghost enum ListingFetchModel {
    Listed(Seq<LatestFileModel>),
    FetchFailed,
}

impl View for ListingFetch {
    type V = ListingFetchModel;

    open spec fn view(&self) -> ListingFetchModel {
        match *self {
            ListingFetch::Listed(ref ls) => ListingFetchModel::Listed(
                ls@.map_values(|f: LatestFile| f@),
            ),
            ListingFetch::FetchFailed => ListingFetchModel::FetchFailed,
        }
    }
}

/// Everything the environment answered during one update run: the
/// process observations for the initial quiesce, the remote metadata
/// outcomes, and one listing outcome per configured mod.
#[derive(Debug, Clone)]
pub struct UpdateEnv {
    /// Whether the supervised process, if any, was still alive.
    pub alive: bool,
    /// Outcome of the best-effort stop of a running process.
    pub stop_flow: StopOutcome,
    /// Outcome of the installer-metadata fetch.
    pub meta: MetaFetch,
    /// Outcome of the installer download, where one was needed.
    pub installer_download: InstallerDownload,
    /// Outcome of the installer run.
    pub installer_run: InstallerRun,
    /// One listing outcome per configured mod, in mod order.
    pub listings: Vec<ListingFetch>,
}

/// Mathematical value of an `UpdateEnv`.
pub ghost struct UpdateEnvModel {
    pub alive: bool,
    pub stop_flow: StopOutcome,
    pub meta: MetaFetchModel,
    pub installer_download: InstallerDownload,
    pub installer_run: InstallerRunModel,
    pub listings: Seq<ListingFetchModel>,
}

impl View for UpdateEnv {
    type V = UpdateEnvModel;

    open spec fn view(&self) -> UpdateEnvModel {
        UpdateEnvModel {
            alive: self.alive,
            stop_flow: self.stop_flow,
            meta: self.meta@,
            installer_download: self.installer_download,
            installer_run: self.installer_run@,
            listings: self.listings@.map_values(|l: ListingFetch| l@),
        }
    }
}

/// One side-effecting step the pipeline asked for, in order.
#[derive(Debug, Clone, PartialEq, Eq)]
pub enum Action {
    /// Create the server directory.
    CreateDir,
    /// Download this installer version and persist it to disk.
    DownloadInstaller(String),
    /// Make sure the agreement marker file exists; never overwrite it.
    EnsureEula,
    /// Run the installer to materialize loader and game files.
    RunInstaller,
    /// Download this mod file into the mods directory under the
    /// remote-supplied file name.
    DownloadMod { mod_id: u64, file_id: u64, file_name: String },
}

/// Mathematical value of an `Action`.
pub ghost enum ActionModel {
    CreateDir,
    DownloadInstaller(Seq<char>),
    EnsureEula,
    RunInstaller,
    DownloadMod { mod_id: u64, file_id: u64, file_name: Seq<char> },
}

impl View for Action {
    type V = ActionModel;

    open spec fn view(&self) -> ActionModel {
        match *self {
            Action::CreateDir => ActionModel::CreateDir,
            Action::DownloadInstaller(ref v) => ActionModel::DownloadInstaller(v@),
            Action::EnsureEula => ActionModel::EnsureEula,
            Action::RunInstaller => ActionModel::RunInstaller,
            Action::DownloadMod { mod_id, file_id, ref file_name } => ActionModel::DownloadMod {
                mod_id,
                file_id,
                file_name: file_name@,
            },
        }
    }
}

/// The views of a sequence of actions.
pub open spec fn acts_view(s: Seq<Action>) -> Seq<ActionModel> {
    s.map_values(|a: Action| a@)
}

/// What one update run did: every side-effecting step it asked for, in
/// order, and how the run ended.
#[derive(Debug)]
pub struct UpdateReport {
    pub actions: Vec<Action>,
    pub outcome: Result<(), ServerErrors>,
}

/// Mathematical value of an `UpdateReport`.
pub ghost struct UpdateReportModel {
    pub actions: Seq<ActionModel>,
    pub outcome: Result<(), ServerErrors>,
}

impl View for UpdateReport {
    type V = UpdateReportModel;

    open spec fn view(&self) -> UpdateReportModel {
        UpdateReportModel { actions: acts_view(self.actions@), outcome: self.outcome }
    }
}

/// Index of the first occurrence of `c` in `s`, if any.
pub open spec fn spec_find(s: Seq<char>, c: char) -> Option<int>
    decreases s.len(),
{
    if s.len() == 0 {
        None
    } else if s[0] == c {
        Some(0int)
    } else {
        match spec_find(s.drop_first(), c) {
            None => None,
            Some(i) => Some(i + 1),
        }
    }
}

/// `spec_find` returns exactly the first occurrence.
pub proof fn lemma_find_is_first(s: Seq<char>, c: char)
    ensures
        match spec_find(s, c) {
            Some(i) => 0 <= i < s.len() && s[i] == c && (forall|j: int| 0 <= j < i ==> s[j] != c),
            None => forall|j: int| 0 <= j < s.len() ==> s[j] != c,
        },
    decreases s.len(),
{
    if s.len() != 0 && s[0] != c {
        let sub = s.drop_first();
        lemma_find_is_first(sub, c);
        assert forall|j: int| 0 <= j < sub.len() implies sub[j] == s[j + 1] by {}
        match spec_find(sub, c) {
            None => {
                assert forall|j: int| 0 <= j < s.len() implies s[j] != c by {
                    if j > 0 {
                        assert(sub[j - 1] == s[j]);
                    }
                }
            },
            Some(i) => {
                assert(spec_find(s, c) == Some(i + 1));
                assert(s[i + 1] == sub[i]);
                assert forall|j: int| 0 <= j < i + 1 implies s[j] != c by {
                    if j > 0 {
                        assert(sub[j - 1] == s[j]);
                    }
                }
            },
        }
    }
}

/// First occurrence of `c` in `s`, scanning character positions.
pub fn find_char(s: &str, c: char) -> (r: Option<usize>)
    ensures
        match r {
            Some(i) => spec_find(s@, c) == Some(i as int),
            None => spec_find(s@, c) is None,
        },
{
    let n = s.unicode_len();
    let mut i: usize = 0;
    while i < n
        invariant
            i <= n,
            n == s@.len(),
            forall|j: int| 0 <= j < i ==> s@[j] != c,
        decreases n - i,
    {
        if s.get_char(i) == c {
            proof {
                lemma_find_is_first(s@, c);
                match spec_find(s@, c) {
                    Some(k) => {
                        if k < i {
                            assert(s@[k] != c);
                        }
                        if k > i {
                            assert(s@[i as int] != c);
                        }
                    },
                    None => {
                        assert(s@[i as int] != c);
                    },
                }
            }
            return Some(i);
        }
        i += 1;
    }
    proof {
        lemma_find_is_first(s@, c);
    }
    None
}

/// What the installer's version-report line yields: the loader version
/// between the fixed prefix and the opening parenthesis, and the game
/// version between the parentheses.  A line without that shape yields
/// nothing.
pub open spec fn spec_parse_install_line(line: Seq<char>) -> Option<(Seq<char>, Seq<char>)> {
    match (spec_find(line, '('), spec_find(line, ')')) {
        (Some(l), Some(r)) => if 25 <= l && l + 1 <= r {
            Some((line.subrange(25, l), line.subrange(l + 1, r)))
        } else {
            None
        },
        _ => None,
    }
}

/// Extracts the installed loader and game versions from the installer's
/// version-report line.
pub fn parse_install_line(line: &str) -> (r: Option<(String, String)>)
    ensures
        match r {
            Some(p) => spec_parse_install_line(line@) == Some((p.0@, p.1@)),
            None => spec_parse_install_line(line@) is None,
        },
{
    let l = match find_char(line, '(') {
        Some(l) => l,
        None => {
            return None;
        },
    };
    let rp = match find_char(line, ')') {
        Some(x) => x,
        None => {
            return None;
        },
    };
    if l < 25 || rp <= l {
        return None;
    }
    proof {
        lemma_find_is_first(line@, '(');
        lemma_find_is_first(line@, ')');
    }
    let loader = line.substring_char(25, l).to_owned();
    let game = line.substring_char(l + 1, rp).to_owned();
    Some((loader, game))
}

/// The views of a vector of listings.
pub open spec fn listings_view(s: Seq<LatestFile>) -> Seq<LatestFileModel> {
    s.map_values(|f: LatestFile| f@)
}

/// The first listing whose game version matches exactly, in the
/// remote-supplied order — first match wins, no tie-break among several
/// candidates for the same game version.
pub open spec fn spec_first_match(listings: Seq<LatestFileModel>, game: Seq<char>) -> Option<
    LatestFileModel,
>
    decreases listings.len(),
{
    if listings.len() == 0 {
        None
    } else if listings[0].game_version == game {
        Some(listings[0])
    } else {
        spec_first_match(listings.drop_first(), game)
    }
}

/// Finds the first listing built for exactly the given game version.
pub fn first_match(listings: &Vec<LatestFile>, game: &String) -> (r: Option<usize>)
    ensures
        match r {
            Some(j) => j < listings.len() && spec_first_match(listings_view(listings@), game@)
                == Some(listings@[j as int]@) && listings@[j as int]@.game_version == game@
                && (forall|k: int| 0 <= k < j ==> listings@[k]@.game_version != game@),
            None => spec_first_match(listings_view(listings@), game@) is None,
        },
{
    let ghost lv = listings_view(listings@);
    proof {
        assert(lv.skip(0) =~= lv);
    }
    let n = listings.len();
    let mut i: usize = 0;
    while i < n
        invariant
            i <= n,
            n == listings.len(),
            lv == listings_view(listings@),
            lv.len() == n,
            spec_first_match(lv, game@) == spec_first_match(lv.skip(i as int), game@),
            forall|k: int| 0 <= k < i ==> lv[k].game_version != game@,
        decreases n - i,
    {
        if listings[i].game_version == *game {
            proof {
                assert(lv.skip(i as int)[0] == lv[i as int]);
                assert(lv[i as int] == listings@[i as int]@);
                assert(lv[i as int].game_version == game@);
                assert forall|k: int| 0 <= k < i implies listings@[k]@.game_version != game@ by {
                    assert(lv[k] == listings@[k]@);
                }
            }
            return Some(i);
        }
        proof {
            assert(lv.skip(i as int)[0] == lv[i as int]);
            assert(lv[i as int] == listings@[i as int]@);
            assert(lv.skip(i as int).drop_first() =~= lv.skip(i as int + 1));
        }
        i += 1;
    }
    None
}

/// Reconciling one mod against one listing outcome: a failed query or a
/// version without a matching listing leaves the entry alone; a match
/// that is already the installed file is skipped; any other match is
/// recorded as the new installed file and downloaded.
pub open spec fn spec_reconcile_one(m: ModModel, game: Seq<char>, lf: ListingFetchModel) -> (
    ModModel,
    Option<ActionModel>,
) {
    match lf {
        ListingFetchModel::FetchFailed => (m, None),
        ListingFetchModel::Listed(ls) => match spec_first_match(ls, game) {
            None => (m, None),
            Some(f) => if m.file_id == Some(f.project_file_id) {
                (m, None)
            } else {
                (
                    (ModModel { file_id: Some(f.project_file_id), ..m }),
                    Some(
                        ActionModel::DownloadMod {
                            mod_id: m.mod_id,
                            file_id: f.project_file_id,
                            file_name: f.project_file_name,
                        },
                    ),
                )
            },
        },
    }
}

/// The zero-or-one actions a single reconciliation asked for.
pub open spec fn opt_act(a: Option<ActionModel>) -> Seq<ActionModel> {
    match a {
        Some(x) => seq![x],
        None => Seq::empty(),
    }
}

/// Reconciles the mods from position `i` on, one at a time against the
/// listing outcome of the same position; each entry's new value depends
/// only on its own listing outcome, so one mod's failure never touches
/// another's record.
pub open spec fn spec_reconcile_from(
    mods: Seq<ModModel>,
    game: Seq<char>,
    listings: Seq<ListingFetchModel>,
    i: int,
) -> (Seq<ModModel>, Seq<ActionModel>)
    decreases mods.len() - i,
{
    if i < 0 || i >= mods.len() || i >= listings.len() {
        (mods, Seq::empty())
    } else {
        let one = spec_reconcile_one(mods[i], game, listings[i]);
        let rest = spec_reconcile_from(mods.update(i, one.0), game, listings, i + 1);
        (rest.0, opt_act(one.1) + rest.1)
    }
}

/// The whole update pipeline, in strict order: quiesce a running
/// process best-effort; sync the installer against the latest remote
/// version, downloading only on a difference; ensure the agreement
/// marker; run the installer and persist whichever of the loader and
/// game versions changed; then reconcile every mod independently.
/// Yields the manager and record afterwards, every side-effecting step
/// asked for in order, and how the run ended.
pub open spec fn spec_update(m: Manager, c: ConfigModel, env: UpdateEnvModel) -> (
    Manager,
    ConfigModel,
    Seq<ActionModel>,
    Result<(), ServerErrors>,
) {
    let m1 = spec_stop(m, env.alive, env.stop_flow).0;
    match env.meta {
        MetaFetchModel::NetworkDown => (m1, c, Seq::empty(), Err(ServerErrors::NetworkError)),
        MetaFetchModel::Malformed => (
            m1,
            c,
            Seq::empty(),
            Err(ServerErrors::FileError(FileKind::Metadata)),
        ),
        MetaFetchModel::Available(ver) => {
            if ver != c.installer_version && env.installer_download != InstallerDownload::Saved {
                let e = if env.installer_download == InstallerDownload::NetworkDown {
                    ServerErrors::NetworkError
                } else {
                    ServerErrors::FileError(FileKind::Installer)
                };
                (m1, c, seq![ActionModel::DownloadInstaller(ver)], Err(e))
            } else {
                let c1 = if ver != c.installer_version {
                    ConfigModel { installer_version: ver, ..c }
                } else {
                    c
                };
                let acts1 = if ver != c.installer_version {
                    seq![ActionModel::DownloadInstaller(ver)]
                } else {
                    Seq::empty()
                };
                let acts3 = acts1 + seq![ActionModel::EnsureEula] + seq![ActionModel::RunInstaller];
                match env.installer_run {
                    InstallerRunModel::LaunchFailed => (m1, c1, acts3, Err(ServerErrors::IoError)),
                    InstallerRunModel::Completed(line) => match spec_parse_install_line(line) {
                        None => (
                            m1,
                            c1,
                            acts3,
                            Err(ServerErrors::FileError(FileKind::InstallerOutput)),
                        ),
                        Some(lg) => {
                            let c2 = if lg.0 != c1.loader_version {
                                ConfigModel { loader_version: lg.0, ..c1 }
                            } else {
                                c1
                            };
                            let c3 = if lg.1 != c2.game_version {
                                ConfigModel { game_version: lg.1, ..c2 }
                            } else {
                                c2
                            };
                            let rec = spec_reconcile_from(c3.mods, c3.game_version, env.listings, 0);
                            (m1, (ConfigModel { mods: rec.0, ..c3 }), acts3 + rec.1, Ok(()))
                        },
                    },
                }
            }
        },
    }
}

impl Manager {
    /// Runs one update: quiesce best-effort, installer sync, agreement
    /// marker, installer run with version persistence, then per-mod
    /// reconciliation.  `env` holds what the environment answered for
    /// each step, one listing outcome per configured mod; the returned
    /// report lists every side-effecting step asked for, in order, and
    /// how the run ended.
    pub fn update(&mut self, config: &mut Config, env: &UpdateEnv) -> (r: UpdateReport)
        ensures
            ({
                let u = spec_update(*old(self), old(config)@, env@);
                *final(self) == u.0 && final(config)@ == u.1 && r@.actions == u.2 && r@.outcome
                    == u.3
            }),
    {
        let mut actions: Vec<Action> = Vec::new();
        let _quiesce = self.stop(env.alive, env.stop_flow);

        let ver: String = match &env.meta {
            MetaFetch::NetworkDown => {
                proof {
                    assert(acts_view(actions@) =~= Seq::<ActionModel>::empty());
                }
                return UpdateReport { actions, outcome: Err(ServerErrors::NetworkError) };
            },
            MetaFetch::Malformed => {
                proof {
                    assert(acts_view(actions@) =~= Seq::<ActionModel>::empty());
                }
                return UpdateReport {
                    actions,
                    outcome: Err(ServerErrors::FileError(FileKind::Metadata)),
                };
            },
            MetaFetch::Available(v) => v.clone(),
        };

        let differs = config.needs_installer_download(&ver);
        if differs {
            actions.push(Action::DownloadInstaller(ver.clone()));
            proof {
                assert(acts_view(actions@) =~= seq![ActionModel::DownloadInstaller(ver@)]);
            }
            match env.installer_download {
                InstallerDownload::Saved => {},
                InstallerDownload::NetworkDown => {
                    return UpdateReport { actions, outcome: Err(ServerErrors::NetworkError) };
                },
                InstallerDownload::SaveFailed => {
                    return UpdateReport {
                        actions,
                        outcome: Err(ServerErrors::FileError(FileKind::Installer)),
                    };
                },
            }
            config.update_installer_version(ver.clone());
        }

        actions.push(Action::EnsureEula);
        actions.push(Action::RunInstaller);
        proof {
            assert(acts_view(actions@) =~= (if differs {
                seq![ActionModel::DownloadInstaller(ver@)]
            } else {
                Seq::<ActionModel>::empty()
            }) + seq![ActionModel::EnsureEula] + seq![ActionModel::RunInstaller]);
        }

        let line: String = match &env.installer_run {
            InstallerRun::LaunchFailed => {
                return UpdateReport { actions, outcome: Err(ServerErrors::IoError) };
            },
            InstallerRun::Completed(l) => l.clone(),
        };

        let (loader, game) = match parse_install_line(line.as_str()) {
            None => {
                return UpdateReport {
                    actions,
                    outcome: Err(ServerErrors::FileError(FileKind::InstallerOutput)),
                };
            },
            Some(p) => p,
        };

        if !(loader == config.loader_version) {
            config.update_loader_version(loader);
        }
        if !(game == config.game_version) {
            config.update_game_version(game);
        }

        let ghost c3v = config@;
        let ghost g = config@.game_version;
        let ghost lsv = env@.listings;
        let ghost base = acts_view(actions@);
        let ghost total = spec_reconcile_from(c3v.mods, g, lsv, 0);

        let n = if config.mods.len() <= env.listings.len() {
            config.mods.len()
        } else {
            env.listings.len()
        };
        let mut i: usize = 0;
        while i < n
            invariant
                i <= n,
                config.mods.len() == c3v.mods.len(),
                env.listings.len() == lsv.len(),
                n == if c3v.mods.len() <= lsv.len() {
                    c3v.mods.len()
                } else {
                    lsv.len()
                },
                lsv == env@.listings,
                g == c3v.game_version,
                config@ == (ConfigModel { mods: config@.mods, ..c3v }),
                spec_reconcile_from(config@.mods, g, lsv, i as int).0 == total.0,
                base + total.1 == acts_view(actions@) + spec_reconcile_from(
                    config@.mods,
                    g,
                    lsv,
                    i as int,
                ).1,
            decreases n - i,
        {
            let ghost cur = config@.mods;
            let ghost acts0 = actions@;
            let ghost one = spec_reconcile_one(cur[i as int], g, lsv[i as int]);
            proof {
                assert(lsv[i as int] == env.listings@[i as int]@);
            }
            let lf = &env.listings[i];
            match lf {
                ListingFetch::FetchFailed => {
                    proof {
                        assert(*lf == env.listings@[i as int]);
                        assert((*lf)@ == lsv[i as int]);
                        assert(lsv[i as int] is FetchFailed);
                        assert(one == (cur[i as int], Option::<ActionModel>::None));
                        assert(cur.update(i as int, cur[i as int]) =~= cur);
                        assert(opt_act(one.1) + spec_reconcile_from(cur, g, lsv, i + 1).1
                            =~= spec_reconcile_from(cur, g, lsv, i + 1).1);
                    }
                },
                ListingFetch::Listed(ls) => {
                    proof {
                        assert(*lf == env.listings@[i as int]);
                        assert((*lf)@ == lsv[i as int]);
                        assert(lsv[i as int] == ListingFetchModel::Listed(listings_view(ls@)));
                    }
                    match first_match(ls, &config.game_version) {
                        None => {
                            proof {
                                assert(config@.game_version == g);
                                assert(spec_first_match(listings_view(ls@), g) is None);
                                assert(one == (cur[i as int], Option::<ActionModel>::None));
                                assert(cur.update(i as int, cur[i as int]) =~= cur);
                                assert(opt_act(one.1) + spec_reconcile_from(cur, g, lsv, i + 1).1
                                    =~= spec_reconcile_from(cur, g, lsv, i + 1).1);
                            }
                        },
                        Some(j) => {
                            let fid = ls[j].project_file_id;
                            let already = match config.mods[i].file_id {
                                Some(x) => x == fid,
                                None => false,
                            };
                            proof {
                                assert(config.mods@[i as int]@ == cur[i as int]);
                                assert(config@.game_version == g);
                                assert(spec_first_match(listings_view(ls@), g) == Some(
                                    ls@[j as int]@,
                                ));
                                assert(ls@[j as int]@.project_file_id == fid);
                            }
                            if already {
                                proof {
                                    assert(cur[i as int].file_id == Some(fid));
                                    assert(one == (cur[i as int], Option::<ActionModel>::None));
                                    assert(cur.update(i as int, cur[i as int]) =~= cur);
                                    assert(opt_act(one.1) + spec_reconcile_from(
                                        cur,
                                        g,
                                        lsv,
                                        i + 1,
                                    ).1 =~= spec_reconcile_from(cur, g, lsv, i + 1).1);
                                }
                            } else {
                                let m_id = config.mods[i].mod_id;
                                let name = ls[j].project_file_name.clone();
                                config.set_mod_file_id(i, fid);
                                actions.push(
                                    Action::DownloadMod {
                                        mod_id: m_id,
                                        file_id: fid,
                                        file_name: name,
                                    },
                                );
                                proof {
                                    assert(cur[i as int].file_id != Some(fid));
                                    assert(one.0 == (ModModel {
                                        file_id: Some(fid),
                                        ..cur[i as int]
                                    }));
                                    assert(config@.mods == cur.update(i as int, one.0));
                                    assert(acts_view(actions@) =~= acts_view(acts0) + opt_act(
                                        one.1,
                                    ));
                                    assert((acts_view(acts0) + opt_act(one.1))
                                        + spec_reconcile_from(
                                        cur.update(i as int, one.0),
                                        g,
                                        lsv,
                                        i + 1,
                                    ).1 =~= acts_view(acts0) + (opt_act(one.1)
                                        + spec_reconcile_from(
                                        cur.update(i as int, one.0),
                                        g,
                                        lsv,
                                        i + 1,
                                    ).1));
                                }
                            }
                        },
                    }
                },
            }
            i += 1;
        }
        proof {
            assert(spec_reconcile_from(config@.mods, g, lsv, i as int).1
                =~= Seq::<ActionModel>::empty());
            assert(base + total.1 =~= acts_view(actions@));
            assert(config@.mods == total.0);
            assert(config@ == (ConfigModel { mods: total.0, ..c3v }));
        }
        UpdateReport { actions, outcome: Ok(()) }
    }

    /// Creates the server from nothing: refuses when the installed
    /// artifact already exists, otherwise has the caller create the
    /// server directory and runs a full install, which is an update from
    /// empty state.
    pub fn create(&mut self, config: &mut Config, files_exist: bool, env: &UpdateEnv) -> (r:
        UpdateReport)
        ensures
            ({
                let u = spec_create(*old(self), old(config)@, files_exist, env@);
                *final(self) == u.0 && final(config)@ == u.1 && r@.actions == u.2 && r@.outcome
                    == u.3
            }),
    {
        if files_exist {
            let empty: Vec<Action> = Vec::new();
            proof {
                assert(acts_view(empty@) =~= Seq::<ActionModel>::empty());
            }
            return UpdateReport { actions: empty, outcome: Err(ServerErrors::ServerAlreadyExists) };
        }
        let mut actions: Vec<Action> = Vec::new();
        actions.push(Action::CreateDir);
        let mut rep = self.update(config, env);
        actions.append(&mut rep.actions);
        proof {
            assert(acts_view(actions@) =~= seq![ActionModel::CreateDir] + spec_update(
                *old(self),
                old(config)@,
                env@,
            ).2);
        }
        UpdateReport { actions, outcome: rep.outcome }
    }
}

/// The `create` decision: refuse when the installed artifact already
/// exists, otherwise create the server directory and run a full install,
/// which is an update from empty state.
pub open spec fn spec_create(m: Manager, c: ConfigModel, files_exist: bool, env: UpdateEnvModel) -> (
    Manager,
    ConfigModel,
    Seq<ActionModel>,
    Result<(), ServerErrors>,
) {
    if files_exist {
        (m, c, Seq::empty(), Err(ServerErrors::ServerAlreadyExists))
    } else {
        let u = spec_update(m, c, env);
        (u.0, u.1, seq![ActionModel::CreateDir] + u.2, u.3)
    }
}

} // verus!
