use vstd::prelude::*;

use crate::config::Platform;

verus! {

/// Mathematical value of one mod entry.
#[verifier::ext_equal]
pub ghost struct ModModel {
    pub mod_name: Seq<char>,
    pub mod_id: u64,
    pub file_id: Option<u64>,
    pub platform: Platform,
}

/// One mod the server is configured to carry: its name, its numeric
/// identity on the hosting platform, and the file actually installed in
/// the mods directory (`None` until a file has been recorded).
#[derive(Debug, Clone, PartialEq, Eq)]
pub struct MCMod {
    pub mod_name: String,
    pub mod_id: u64,
    pub file_id: Option<u64>,
    pub platform: Platform,
}

impl View for MCMod {
    type V = ModModel;

    open spec fn view(&self) -> ModModel {
        ModModel {
            mod_name: self.mod_name@,
            mod_id: self.mod_id,
            file_id: self.file_id,
            platform: self.platform,
        }
    }
}

impl MCMod {
    pub fn new(mod_name: String, mod_id: u64, platform: Platform, file_id: Option<u64>) -> (m:
        Self)
        ensures
            m@ == (ModModel { mod_name: mod_name@, mod_id, file_id, platform }),
    {
        Self { mod_name, mod_id, file_id, platform }
    }

    /// A value-identical duplicate of an entry.
    pub fn copy(mc_mod: &Self) -> (m: Self)
        ensures
            m@ == mc_mod@,
    {
        Self {
            mod_name: mc_mod.mod_name.clone(),
            mod_id: mc_mod.mod_id,
            file_id: mc_mod.file_id,
            platform: mc_mod.platform,
        }
    }
}

/// Mathematical value of one remote file listing.
#[verifier::ext_equal]
pub ghost struct LatestFileModel {
    pub game_version: Seq<char>,
    pub project_file_id: u64,
    pub project_file_name: Seq<char>,
}

/// One file listing a metadata service reports for a mod: the game
/// version the file was built for, its numeric file identity, and the
/// name under which it is to be saved.
#[derive(Debug, Clone, PartialEq, Eq)]
pub struct LatestFile {
    pub game_version: String,
    pub project_file_id: u64,
    pub project_file_name: String,
}

impl View for LatestFile {
    type V = LatestFileModel;

    open spec fn view(&self) -> LatestFileModel {
        LatestFileModel {
            game_version: self.game_version@,
            project_file_id: self.project_file_id,
            project_file_name: self.project_file_name@,
        }
    }
}

impl LatestFile {
    pub fn new(game_version: String, project_file_id: u64, project_file_name: String) -> (f:
        Self)
        ensures
            f@ == (LatestFileModel {
                game_version: game_version@,
                project_file_id,
                project_file_name: project_file_name@,
            }),
    {
        Self { game_version, project_file_id, project_file_name }
    }
}

} // verus!
