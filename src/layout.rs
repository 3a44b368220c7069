use vstd::prelude::*;

use crate::text::join2;

verus! {

/// Directory, below the home directory, that holds the saved credentials.
pub const CONFIG_SUBDIR: &'static str = "/.overleaf-zed";

/// Name of the credentials file inside the configuration directory.
pub const CREDENTIALS_FILE: &'static str = "/credentials.json";

/// Directory, below the home directory, where the extension and its helper
/// scripts are installed.
pub const EXTENSION_SUBDIR: &'static str = "/.config/zed/extensions/overleaf-sync";

/// Where the files that the commands read and write live, derived from one
/// home directory instead of the process environment.
pub struct Layout {
    pub home: String,
}

pub open spec fn config_dir_of(home: Seq<char>) -> Seq<char> {
    home + CONFIG_SUBDIR@
}

pub open spec fn credentials_path_of(home: Seq<char>) -> Seq<char> {
    config_dir_of(home) + CREDENTIALS_FILE@
}

pub open spec fn extension_dir_of(home: Seq<char>) -> Seq<char> {
    home + EXTENSION_SUBDIR@
}

impl Layout {
    pub fn new(home: &str) -> (r: Layout)
        ensures
            r.home@ == home@,
    {
        Layout { home: String::from_str(home) }
    }

    /// The directory that holds the credentials file.
    pub fn config_dir(&self) -> (r: String)
        ensures
            r@ == config_dir_of(self.home@),
    {
        join2(self.home.as_str(), CONFIG_SUBDIR)
    }

    /// The full path of the credentials file.
    pub fn credentials_path(&self) -> (r: String)
        ensures
            r@ == credentials_path_of(self.home@),
    {
        let dir = self.config_dir();
        join2(dir.as_str(), CREDENTIALS_FILE)
    }

    /// The directory in which the helper scripts are run.
    pub fn extension_dir(&self) -> (r: String)
        ensures
            r@ == extension_dir_of(self.home@),
    {
        join2(self.home.as_str(), EXTENSION_SUBDIR)
    }
}

} // verus!
