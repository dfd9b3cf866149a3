use servman::Config;
use servman::LatestFile;
use servman::MCMod;
use servman::Platform;
use servman::create_new_config;

#[test]
fn new_config_has_documented_defaults() {
    let c = create_new_config();
    assert_eq!(c.port, 8080);
    assert_eq!(c.installer_version, "");
    assert_eq!(c.loader_version, "");
    assert_eq!(c.game_version, "");
    assert!(c.mods.is_empty());
}

#[test]
fn version_updates_touch_one_field_each() {
    let mut c = create_new_config();
    c.update_installer_version(String::from("0.11.2"));
    assert_eq!(c.installer_version, "0.11.2");
    assert_eq!(c.loader_version, "");
    c.update_loader_version(String::from("0.15.7"));
    assert_eq!(c.loader_version, "0.15.7");
    assert_eq!(c.installer_version, "0.11.2");
    c.update_game_version(String::from("1.20.4"));
    assert_eq!(c.game_version, "1.20.4");
    assert_eq!(c.loader_version, "0.15.7");
    assert_eq!(c.installer_version, "0.11.2");
    assert_eq!(c.port, 8080);
}

#[test]
fn set_mod_file_id_touches_one_entry() {
    let mut c = create_new_config();
    c.mods.push(MCMod::new(String::from("sodium"), 394468, Platform::CurseForge, None));
    c.mods.push(MCMod::new(String::from("lithium"), 360438, Platform::CurseForge, Some(7)));
    c.set_mod_file_id(0, 4623162);
    assert_eq!(c.mods[0].file_id, Some(4623162));
    assert_eq!(c.mods[0].mod_name, "sodium");
    assert_eq!(c.mods[0].mod_id, 394468);
    assert_eq!(c.mods[1].file_id, Some(7));
}

#[test]
fn installer_download_is_due_only_on_a_difference() {
    let mut c = create_new_config();
    assert!(c.needs_installer_download(&String::from("0.11.2")));
    c.update_installer_version(String::from("0.11.2"));
    assert!(!c.needs_installer_download(&String::from("0.11.2")));
    assert!(c.needs_installer_download(&String::from("0.11.3")));
}

#[test]
fn mcmod_new_fills_every_field() {
    let m = MCMod::new(String::from("sodium"), 394468, Platform::Modrinth, Some(1));
    assert_eq!(m.mod_name, "sodium");
    assert_eq!(m.mod_id, 394468);
    assert_eq!(m.file_id, Some(1));
    assert_eq!(m.platform, Platform::Modrinth);
}

#[test]
fn mcmod_copy_is_value_identical() {
    let m = MCMod::new(String::from("sodium"), 394468, Platform::CurseForge, Some(1));
    let c = MCMod::copy(&m);
    assert_eq!(c, m);
}

#[test]
fn latest_file_carries_listing_fields() {
    let f = LatestFile::new(String::from("1.20.4"), 4623162, String::from("sodium-1.20.4.jar"));
    assert_eq!(f.game_version, "1.20.4");
    assert_eq!(f.project_file_id, 4623162);
    assert_eq!(f.project_file_name, "sodium-1.20.4.jar");
}
