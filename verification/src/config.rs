//! The settings of one run.

use vstd::prelude::*;
use vstd::string::*;
use crate::error::AppError;
use crate::text::{begins_with, occurs_at};

verus! {

/// What a run works on: the package, the resource, the working copy and the key.
#[derive(Debug, Clone)]
pub struct Config {
    pub package_name: String,
    pub original_url: String,
    pub work_dir: String,
    pub ssh_key_path: String,
}

/// `shellexpand::tilde`: a leading `~` that stands alone or before `/` gives
/// way to the home directory, which the environment decides. A text that does
/// not begin with `~` comes back as it is.
#[verifier::external_body]
fn expand_tilde(input: &str) -> (r: String)
    ensures
        (input@.len() == 0 || input@[0] != '~') ==> r@ == input@,
{
    shellexpand::tilde(input).into_owned()
}

/// The address names a web resource.
pub open spec fn is_web_url(url: Seq<char>) -> bool {
    occurs_at(url, "http://"@, 0) || occurs_at(url, "https://"@, 0)
}

impl Config {
    /// The settings for the key database package, with the key at `ssh_key_path`.
    pub fn with_key_path(ssh_key_path: String) -> (r: Config)
        ensures
            r.package_name@ == "aacs-keydb-daily"@,
            r.original_url@ == "http://fvonline-db.bplaced.net/export/keydb_eng.zip"@,
            r.work_dir@ == "/tmp/aur-aacs-keydb-daily"@,
            r.ssh_key_path == ssh_key_path,
    {
        Config {
            package_name: String::from_str("aacs-keydb-daily"),
            original_url: String::from_str("http://fvonline-db.bplaced.net/export/keydb_eng.zip"),
            work_dir: String::from_str("/tmp/aur-aacs-keydb-daily"),
            ssh_key_path,
        }
    }

    /// The settings for the key database package. The key is the one that
    /// `configured_key` names, or `~/.ssh/id_ed25519`, with a leading `~`
    /// expanded as the environment has it.
    pub fn new(configured_key: Option<String>) -> (r: Config)
        ensures
            r.package_name@ == "aacs-keydb-daily"@,
            r.original_url@ == "http://fvonline-db.bplaced.net/export/keydb_eng.zip"@,
            r.work_dir@ == "/tmp/aur-aacs-keydb-daily"@,
            match configured_key {
                Some(k) => (k@.len() == 0 || k@[0] != '~') ==> r.ssh_key_path@ == k@,
                None => true,
            },
    {
        let raw = match configured_key {
            Some(k) => k,
            None => String::from_str("~/.ssh/id_ed25519"),
        };
        Self::with_key_path(expand_tilde(raw.as_str()))
    }

    /// Whether a run can start with these settings, given whether the key
    /// file is there.
    pub fn validate(&self, key_exists: bool) -> (r: Result<(), AppError>)
        ensures
            match r {
                Ok(_) => key_exists && is_web_url(self.original_url@) && self.package_name@.len()
                    > 0,
                Err(e) => if !key_exists {
                    e == AppError::SshAuthFailed
                } else if !is_web_url(self.original_url@) {
                    e is Archive && e->Archive_0@ == "Invalid URL format"@
                } else {
                    self.package_name@.len() == 0 && e is Archive && e->Archive_0@
                        == "Package name cannot be empty"@
                },
            },
    {
        if !key_exists {
            return Err(AppError::SshAuthFailed);
        }
        let url = self.original_url.as_str();
        if !begins_with(url, "http://") && !begins_with(url, "https://") {
            return Err(AppError::Archive(String::from_str("Invalid URL format")));
        }
        if self.package_name.as_str().unicode_len() == 0 {
            return Err(AppError::Archive(String::from_str("Package name cannot be empty")));
        }
        Ok(())
    }
}

} // verus!
