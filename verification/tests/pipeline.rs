use servman::Action;
use servman::FileKind;
use servman::InstallerDownload;
use servman::InstallerRun;
use servman::LatestFile;
use servman::ListingFetch;
use servman::MCMod;
use servman::Manager;
use servman::MetaFetch;
use servman::Platform;
use servman::ServerErrors;
use servman::SpawnOutcome;
use servman::StopOutcome;
use servman::UpdateEnv;
use servman::create_new_config;
use servman::first_match;
use servman::parse_install_line;

const LINE: &str = "Done installing, loader: 0.15.7(1.20.4)";

fn ok_env(listings: Vec<ListingFetch>) -> UpdateEnv {
    UpdateEnv {
        alive: true,
        stop_flow: StopOutcome::Stopped,
        meta: MetaFetch::Available(String::from("0.11.2")),
        installer_download: InstallerDownload::Saved,
        installer_run: InstallerRun::Completed(String::from(LINE)),
        listings,
    }
}

fn listing(game: &str, file_id: u64, name: &str) -> LatestFile {
    LatestFile::new(String::from(game), file_id, String::from(name))
}

fn downloads_of(actions: &[Action]) -> Vec<&Action> {
    actions
        .iter()
        .filter(|a| matches!(a, Action::DownloadInstaller(_) | Action::DownloadMod { .. }))
        .collect()
}

#[test]
fn parse_extracts_loader_and_game_version() {
    let parsed = parse_install_line(LINE);
    assert_eq!(parsed, Some((String::from("0.15.7"), String::from("1.20.4"))));
}

#[test]
fn parse_rejects_malformed_lines() {
    assert_eq!(parse_install_line(""), None);
    assert_eq!(parse_install_line("no parentheses anywhere in this line"), None);
    // An opening parenthesis before the fixed prefix ends.
    assert_eq!(parse_install_line("(1.20.4) far too early in this line"), None);
    // A closing parenthesis before the opening one.
    assert_eq!(parse_install_line("Done installing, loader: )0.15.7(1.20.4"), None);
}

#[test]
fn first_match_takes_the_first_listing_for_the_version() {
    let ls = vec![
        listing("1.20.1", 1, "a.jar"),
        listing("1.20.4", 2, "b.jar"),
        listing("1.20.4", 3, "c.jar"),
    ];
    let game = String::from("1.20.4");
    let i = first_match(&ls, &game);
    assert_eq!(i, Some(1));
    assert_eq!(first_match(&ls, &String::from("1.19.2")), None);
}

#[test]
fn metadata_network_failure_aborts_untouched() {
    let mut m = Manager::new();
    let mut c = create_new_config();
    let mut env = ok_env(vec![]);
    env.meta = MetaFetch::NetworkDown;
    let r = m.update(&mut c, &env);
    assert_eq!(r.outcome, Err(ServerErrors::NetworkError));
    assert!(r.actions.is_empty());
    assert_eq!(c, create_new_config());
}

#[test]
fn metadata_parse_failure_aborts_untouched() {
    let mut m = Manager::new();
    let mut c = create_new_config();
    let mut env = ok_env(vec![]);
    env.meta = MetaFetch::Malformed;
    let r = m.update(&mut c, &env);
    assert_eq!(r.outcome, Err(ServerErrors::FileError(FileKind::Metadata)));
    assert!(r.actions.is_empty());
}

#[test]
fn new_installer_version_is_downloaded_and_persisted() {
    let mut m = Manager::new();
    let mut c = create_new_config();
    let r = m.update(&mut c, &ok_env(vec![]));
    assert_eq!(r.outcome, Ok(()));
    assert_eq!(c.installer_version, "0.11.2");
    assert_eq!(c.loader_version, "0.15.7");
    assert_eq!(c.game_version, "1.20.4");
    assert_eq!(
        r.actions,
        vec![
            Action::DownloadInstaller(String::from("0.11.2")),
            Action::EnsureEula,
            Action::RunInstaller,
        ]
    );
}

#[test]
fn matching_installer_version_skips_the_download() {
    let mut m = Manager::new();
    let mut c = create_new_config();
    c.update_installer_version(String::from("0.11.2"));
    let r = m.update(&mut c, &ok_env(vec![]));
    assert_eq!(r.outcome, Ok(()));
    assert_eq!(r.actions, vec![Action::EnsureEula, Action::RunInstaller]);
}

#[test]
fn failed_installer_download_aborts_without_persisting() {
    let mut m = Manager::new();
    let mut c = create_new_config();
    let mut env = ok_env(vec![]);
    env.installer_download = InstallerDownload::NetworkDown;
    let r = m.update(&mut c, &env);
    assert_eq!(r.outcome, Err(ServerErrors::NetworkError));
    assert_eq!(c.installer_version, "");
    assert_eq!(r.actions, vec![Action::DownloadInstaller(String::from("0.11.2"))]);

    env.installer_download = InstallerDownload::SaveFailed;
    let r2 = m.update(&mut c, &env);
    assert_eq!(r2.outcome, Err(ServerErrors::FileError(FileKind::Installer)));
    assert_eq!(c.installer_version, "");
}

#[test]
fn failed_installer_launch_aborts_with_io_error() {
    let mut m = Manager::new();
    let mut c = create_new_config();
    let mut env = ok_env(vec![]);
    env.installer_run = InstallerRun::LaunchFailed;
    let r = m.update(&mut c, &env);
    assert_eq!(r.outcome, Err(ServerErrors::IoError));
    assert_eq!(c.installer_version, "0.11.2");
    assert_eq!(c.loader_version, "");
}

#[test]
fn malformed_installer_output_aborts() {
    let mut m = Manager::new();
    let mut c = create_new_config();
    let mut env = ok_env(vec![]);
    env.installer_run = InstallerRun::Completed(String::from("nothing useful here"));
    let r = m.update(&mut c, &env);
    assert_eq!(r.outcome, Err(ServerErrors::FileError(FileKind::InstallerOutput)));
    assert_eq!(c.loader_version, "");
}

#[test]
fn new_mod_is_recorded_and_downloaded_once() {
    // A mod with no installed file and a matching remote listing: one
    // run records the matched file id and downloads exactly once.
    let mut m = Manager::new();
    let mut c = create_new_config();
    c.mods.push(MCMod::new(String::from("sodium"), 394468, Platform::CurseForge, None));
    let env = ok_env(vec![ListingFetch::Listed(vec![
        listing("1.20.1", 1, "old.jar"),
        listing("1.20.4", 4623162, "sodium-1.20.4.jar"),
    ])]);
    let r = m.update(&mut c, &env);
    assert_eq!(r.outcome, Ok(()));
    assert_eq!(c.mods.len(), 1);
    assert_eq!(c.mods[0].file_id, Some(4623162));
    let mod_downloads: Vec<&Action> = r
        .actions
        .iter()
        .filter(|a| matches!(a, Action::DownloadMod { .. }))
        .collect();
    assert_eq!(mod_downloads.len(), 1);
    assert_eq!(
        mod_downloads[0],
        &Action::DownloadMod {
            mod_id: 394468,
            file_id: 4623162,
            file_name: String::from("sodium-1.20.4.jar"),
        }
    );
}

#[test]
fn current_mod_is_skipped() {
    let mut m = Manager::new();
    let mut c = create_new_config();
    c.mods.push(MCMod::new(String::from("sodium"), 394468, Platform::CurseForge, Some(4623162)));
    let env = ok_env(vec![ListingFetch::Listed(vec![listing(
        "1.20.4",
        4623162,
        "sodium-1.20.4.jar",
    )])]);
    let r = m.update(&mut c, &env);
    assert_eq!(r.outcome, Ok(()));
    assert_eq!(c.mods[0].file_id, Some(4623162));
    assert!(!r.actions.iter().any(|a| matches!(a, Action::DownloadMod { .. })));
}

#[test]
fn outdated_mod_is_replaced() {
    let mut m = Manager::new();
    let mut c = create_new_config();
    c.mods.push(MCMod::new(String::from("sodium"), 394468, Platform::CurseForge, Some(111)));
    let env = ok_env(vec![ListingFetch::Listed(vec![listing(
        "1.20.4",
        4623162,
        "sodium-1.20.4.jar",
    )])]);
    let r = m.update(&mut c, &env);
    assert_eq!(r.outcome, Ok(()));
    assert_eq!(c.mods[0].file_id, Some(4623162));
    assert_eq!(
        r.actions
            .iter()
            .filter(|a| matches!(a, Action::DownloadMod { .. }))
            .count(),
        1
    );
}

#[test]
fn listing_without_matching_game_version_is_skipped() {
    let mut m = Manager::new();
    let mut c = create_new_config();
    c.mods.push(MCMod::new(String::from("sodium"), 394468, Platform::CurseForge, None));
    let env = ok_env(vec![ListingFetch::Listed(vec![listing("1.19.2", 9, "old.jar")])]);
    let r = m.update(&mut c, &env);
    assert_eq!(r.outcome, Ok(()));
    assert_eq!(c.mods[0].file_id, None);
    assert!(!r.actions.iter().any(|a| matches!(a, Action::DownloadMod { .. })));
}

#[test]
fn update_twice_downloads_nothing_the_second_time() {
    // Idempotence: with unchanged remote answers the second run asks
    // for zero downloads and leaves the record identical.
    let mut m = Manager::new();
    let mut c = create_new_config();
    c.mods.push(MCMod::new(String::from("sodium"), 394468, Platform::CurseForge, None));
    let env = ok_env(vec![ListingFetch::Listed(vec![listing(
        "1.20.4",
        4623162,
        "sodium-1.20.4.jar",
    )])]);
    let r1 = m.update(&mut c, &env);
    assert_eq!(r1.outcome, Ok(()));
    assert!(!downloads_of(&r1.actions).is_empty());
    let snapshot = c.clone();
    let r2 = m.update(&mut c, &env);
    assert_eq!(r2.outcome, Ok(()));
    assert!(downloads_of(&r2.actions).is_empty());
    assert_eq!(c, snapshot);
}

#[test]
fn a_failed_run_resumes_without_redoing_the_installer() {
    // Recovery model: after the installer was synced but the run failed
    // downstream, the record holds the new installer version and the
    // old loader and game versions; the next run skips the installer
    // download and retries from there.
    let mut m = Manager::new();
    let mut c = create_new_config();
    let mut env = ok_env(vec![]);
    env.installer_run = InstallerRun::LaunchFailed;
    let r1 = m.update(&mut c, &env);
    assert_eq!(r1.outcome, Err(ServerErrors::IoError));
    assert_eq!(c.installer_version, "0.11.2");
    assert_eq!(c.loader_version, "");
    assert_eq!(c.game_version, "");
    let r2 = m.update(&mut c, &ok_env(vec![]));
    assert_eq!(r2.outcome, Ok(()));
    assert!(!r2.actions.iter().any(|a| matches!(a, Action::DownloadInstaller(_))));
    assert_eq!(c.loader_version, "0.15.7");
    assert_eq!(c.game_version, "1.20.4");
}

#[test]
fn one_mods_failure_does_not_block_another() {
    // Partial failure isolation: A's fetch fails, B is still recorded.
    let mut m = Manager::new();
    let mut c = create_new_config();
    c.mods.push(MCMod::new(String::from("alpha"), 100, Platform::CurseForge, None));
    c.mods.push(MCMod::new(String::from("beta"), 200, Platform::CurseForge, None));
    let env = ok_env(vec![
        ListingFetch::FetchFailed,
        ListingFetch::Listed(vec![listing("1.20.4", 777, "beta.jar")]),
    ]);
    let r = m.update(&mut c, &env);
    assert_eq!(r.outcome, Ok(()));
    assert_eq!(c.mods[0].file_id, None);
    assert_eq!(c.mods[1].file_id, Some(777));
    let mod_downloads: Vec<&Action> = r
        .actions
        .iter()
        .filter(|a| matches!(a, Action::DownloadMod { .. }))
        .collect();
    assert_eq!(mod_downloads.len(), 1);
    assert_eq!(
        mod_downloads[0],
        &Action::DownloadMod { mod_id: 200, file_id: 777, file_name: String::from("beta.jar") }
    );
}

#[test]
fn create_on_empty_directory_runs_a_full_install() {
    // Directory creation, then installer + loader/game + all mods,
    // from empty state.
    let mut m = Manager::new();
    let mut c = create_new_config();
    c.mods.push(MCMod::new(String::from("sodium"), 394468, Platform::CurseForge, None));
    let env = ok_env(vec![ListingFetch::Listed(vec![listing(
        "1.20.4",
        4623162,
        "sodium-1.20.4.jar",
    )])]);
    let r = m.create(&mut c, false, &env);
    assert_eq!(r.outcome, Ok(()));
    assert_eq!(r.actions[0], Action::CreateDir);
    assert!(r.actions.contains(&Action::DownloadInstaller(String::from("0.11.2"))));
    assert!(r.actions.contains(&Action::EnsureEula));
    assert!(r.actions.contains(&Action::RunInstaller));
    assert!(r.actions.iter().any(|a| matches!(a, Action::DownloadMod { .. })));
    assert_eq!(c.installer_version, "0.11.2");
    assert_eq!(c.game_version, "1.20.4");
    assert_eq!(c.mods[0].file_id, Some(4623162));
}

#[test]
fn create_refuses_existing_files() {
    let mut m = Manager::new();
    let mut c = create_new_config();
    let r = m.create(&mut c, true, &ok_env(vec![]));
    assert_eq!(r.outcome, Err(ServerErrors::ServerAlreadyExists));
    assert!(r.actions.is_empty());
    assert_eq!(c, create_new_config());
}

#[test]
fn update_quiesces_a_ready_server_first() {
    let mut m = Manager::new();
    assert!(m.start(true, SpawnOutcome::Spawned).is_ok());
    m.mark_ready();
    let mut c = create_new_config();
    let r = m.update(&mut c, &ok_env(vec![]));
    assert_eq!(r.outcome, Ok(()));
    assert!(!m.is_online());
}

#[test]
fn mods_beyond_the_answered_listings_are_left_alone() {
    let mut m = Manager::new();
    let mut c = create_new_config();
    c.mods.push(MCMod::new(String::from("alpha"), 100, Platform::CurseForge, None));
    c.mods.push(MCMod::new(String::from("beta"), 200, Platform::CurseForge, None));
    let env = ok_env(vec![ListingFetch::Listed(vec![listing("1.20.4", 5, "alpha.jar")])]);
    let r = m.update(&mut c, &env);
    assert_eq!(r.outcome, Ok(()));
    assert_eq!(c.mods[0].file_id, Some(5));
    assert_eq!(c.mods[1].file_id, None);
}
