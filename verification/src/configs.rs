//! Persisted configuration records.
//!
//! The crate consumes already-parsed configuration values: an optional
//! global record carrying the private token and an optional local record
//! carrying the server URL and a default project.  Reading and writing
//! the files themselves is the caller's business; this module holds the
//! records, the file-path bookkeeping and the token update.

use vstd::prelude::*;
use vstd::string::StringExecFns;

verus! {

/// Which of the two configuration tiers is meant.
#[derive(Debug, Clone, Copy, PartialEq, Eq, Structural)]
pub enum CfgVariant {
    Global,
    Local,
}

/// The global configuration record: the private token.
#[derive(Debug, Clone, PartialEq, Eq)]
pub struct GlobalData {
    pub private_token: String,
}

impl GlobalData {
    /// Replaces the stored token.
    pub fn set_token(&mut self, token: &str)
        ensures
            final(self).private_token@ == token@,
    {
        self.private_token = String::from_str(token);
    }
}

/// The local configuration record: the server URL and an optional
/// default project.
#[derive(Debug, Clone, PartialEq, Eq)]
pub struct LocalData {
    pub repo_url: String,
    pub default_project: Option<String>,
}

/// The two optional configuration records together with the paths they
/// were loaded from (or would be stored to).
#[derive(Debug, Clone)]
pub struct Configs {
    pub global: Option<GlobalData>,
    pub local: Option<LocalData>,
    pub global_file_path: String,
    pub local_file_path: String,
}

impl Configs {
    /// Assembles a configuration from already-parsed records and their
    /// file paths.
    pub fn new(
        global: Option<GlobalData>,
        local: Option<LocalData>,
        global_file_path: String,
        local_file_path: String,
    ) -> (r: Configs)
        ensures
            r.global == global,
            r.local == local,
            r.global_file_path == global_file_path,
            r.local_file_path == local_file_path,
    {
        Configs { global, local, global_file_path, local_file_path }
    }

    /// The file path of the requested configuration tier.
    pub fn get_file_path(&self, cfg_variant: CfgVariant) -> (r: &str)
        ensures
            cfg_variant is Global ==> r@ == self.global_file_path@,
            cfg_variant is Local ==> r@ == self.local_file_path@,
    {
        match cfg_variant {
            CfgVariant::Global => self.global_file_path.as_str(),
            CfgVariant::Local => self.local_file_path.as_str(),
        }
    }

    /// Installs a new private token in the global record, creating the
    /// record when it was absent; everything else is unchanged.  The
    /// caller is responsible for storing the updated record afterwards.
    pub fn apply_new_token(&mut self, token: &str)
        ensures
            final(self).global matches Some(g) && g.private_token@ == token@,
            final(self).local == old(self).local,
            final(self).global_file_path == old(self).global_file_path,
            final(self).local_file_path == old(self).local_file_path,
    {
        let mut g = GlobalData { private_token: String::new() };
        g.set_token(token);
        self.global = Some(g);
    }
}

} // verus!
