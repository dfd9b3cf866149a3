use vstd::prelude::*;

use crate::mods::MCMod;
use crate::mods::ModModel;

verus! {

/// The platform a mod is hosted on.
#[derive(Clone, Copy, Debug, PartialEq, Eq, Structural)]
pub enum Platform {
    CurseForge,
    Modrinth,
}

/// Mathematical value of the persisted configuration record.
#[verifier::ext_equal]
pub ghost struct ConfigModel {
    pub port: u16,
    pub installer_version: Seq<char>,
    pub loader_version: Seq<char>,
    pub game_version: Seq<char>,
    pub mods: Seq<ModModel>,
}

/// The persisted record of installed software: the installer, loader and
/// game versions last installed successfully, and the mods the server is
/// configured to carry.  Mutated one field group at a time; the caller
/// persists the record durably after each mutation.
#[derive(Debug, Clone, PartialEq, Eq)]
pub struct Config {
    pub port: u16,
    pub installer_version: String,
    pub loader_version: String,
    pub game_version: String,
    pub mods: Vec<MCMod>,
}

impl View for Config {
    type V = ConfigModel;

    open spec fn view(&self) -> ConfigModel {
        ConfigModel {
            port: self.port,
            installer_version: self.installer_version@,
            loader_version: self.loader_version@,
            game_version: self.game_version@,
            mods: self.mods@.map_values(|m: MCMod| m@),
        }
    }
}

/// The documented default record: all versions empty, no mods.
pub open spec fn initial_config() -> ConfigModel {
    ConfigModel {
        port: 8080,
        installer_version: Seq::empty(),
        loader_version: Seq::empty(),
        game_version: Seq::empty(),
        mods: Seq::empty(),
    }
}

/// The record used when no persisted record exists or it cannot be read.
pub fn create_new_config() -> (c: Config)
    ensures
        c@ == initial_config(),
{
    let c = Config {
        port: 8080,
        installer_version: String::new(),
        loader_version: String::new(),
        game_version: String::new(),
        mods: Vec::new(),
    };
    proof {
        assert(c@ =~= initial_config());
    }
    c
}

impl Config {
    pub fn update_installer_version(&mut self, new_version: String)
        ensures
            final(self)@ == (ConfigModel { installer_version: new_version@, ..old(self)@ }),
    {
        self.installer_version = new_version;
    }

    pub fn update_loader_version(&mut self, new_version: String)
        ensures
            final(self)@ == (ConfigModel { loader_version: new_version@, ..old(self)@ }),
    {
        self.loader_version = new_version;
    }

    pub fn update_game_version(&mut self, new_version: String)
        ensures
            final(self)@ == (ConfigModel { game_version: new_version@, ..old(self)@ }),
    {
        self.game_version = new_version;
    }

    /// Whether the latest remote installer version differs from the
    /// persisted one, so that an installer download is due; identical
    /// versions are skipped and nothing is transferred again.
    pub fn needs_installer_download(&self, latest: &String) -> (r: bool)
        ensures
            r == (latest@ != self@.installer_version),
    {
        !(*latest == self.installer_version)
    }

    /// Records that `file_id` is now the installed file of mod `i`.
    pub fn set_mod_file_id(&mut self, i: usize, file_id: u64)
        requires
            i < old(self).mods.len(),
        ensures
            final(self)@ == (ConfigModel {
                mods: old(self)@.mods.update(
                    i as int,
                    (ModModel { file_id: Some(file_id), ..old(self)@.mods[i as int] }),
                ),
                ..old(self)@
            }),
    {
        let entry = MCMod {
            mod_name: self.mods[i].mod_name.clone(),
            mod_id: self.mods[i].mod_id,
            file_id: Some(file_id),
            platform: self.mods[i].platform,
        };
        self.mods.set(i, entry);
        proof {
            assert(self@.mods =~= old(self)@.mods.update(
                i as int,
                (ModModel { file_id: Some(file_id), ..old(self)@.mods[i as int] }),
            ));
        }
    }
}

} // verus!
