//! Caller-side configuration and its validation.
//!
//! The engine itself needs one configured value — the license server's URL —
//! and refuses to start a subscription without one.  The rest of the
//! configuration names the install tree the launch decision's executable is
//! resolved under.  Reading and writing the configuration file is the
//! caller's I/O; this module holds the values and every decision made about
//! them.

use vstd::prelude::*;

use crate::response::Product;

verus! {

/// The license tier the caller chases; selects which executable a fired
/// launch decision names.
#[derive(Clone, Copy, Debug, PartialEq, Eq, Structural)]
pub enum LicenseType {
    Core,
    Fx,
    Other,
}

impl LicenseType {
    /// The tier a reported product kind belongs to.
    pub fn of_product(p: &Product) -> (r: LicenseType)
        ensures
            p is HoudiniCore ==> r is Core,
            p is HoudiniFx ==> r is Fx,
            !(p is HoudiniCore) && !(p is HoudiniFx) ==> r is Other,
    {
        match p {
            Product::HoudiniCore => LicenseType::Core,
            Product::HoudiniFx => LicenseType::Fx,
            _ => LicenseType::Other,
        }
    }

    /// The tier's display label.
    pub fn label(&self) -> (r: String)
        ensures
            self is Core ==> r@ == "Core"@,
            self is Fx ==> r@ == "Fx"@,
            self is Other ==> r@ == "Other"@,
    {
        let s: &str = match self {
            LicenseType::Core => "Core",
            LicenseType::Fx => "Fx",
            LicenseType::Other => "Other",
        };
        s.to_owned()
    }
}

/// The executable file resolved for a tier.
pub open spec fn spec_executable_name(t: LicenseType) -> Seq<char> {
    match t {
        LicenseType::Core => "houdinicore"@,
        LicenseType::Fx => "houdinifx"@,
        LicenseType::Other => "houdini"@,
    }
}

/// The user's configuration: the install tree and the license server URL.
#[derive(Clone, Debug)]
pub struct UserConfig {
    pub hfs: String,
    pub server_url: String,
}

impl UserConfig {
    /// The path of the executable to launch for a tier: the tier's file
    /// under the install tree's `bin` directory.
    pub fn houdini_executable(&self, lic_type: LicenseType) -> (r: String)
        ensures
            r@ == self.hfs@ + "/bin/"@ + spec_executable_name(lic_type),
    {
        let file: &str = match lic_type {
            LicenseType::Core => "houdinicore",
            LicenseType::Fx => "houdinifx",
            LicenseType::Other => "houdini",
        };
        let mut r = self.hfs.clone();
        r.append("/bin/");
        r.append(file);
        r
    }

    /// Whether the configuration can start a subscription: the server URL
    /// must be set.  The validation's other half — that the install tree's
    /// `bin` directory exists on disk — is the caller's I/O and is passed
    /// to [`startup_page`] as a plain fact.
    pub fn is_valid(&self) -> (r: bool)
        ensures
            r == (self.server_url@.len() != 0),
    {
        !self.server_url.as_str().is_empty()
    }
}

impl Default for UserConfig {
    /// An unconfigured state: both values empty, so not valid.
    fn default() -> (r: UserConfig)
        ensures
            r.hfs@.len() == 0,
            r.server_url@.len() == 0,
    {
        UserConfig { hfs: String::new(), server_url: String::new() }
    }
}

/// Why the caller's configuration could not be loaded; the I/O layer maps
/// its own errors to these plain causes.
#[derive(Clone, Debug)]
pub enum ConfigError {
    /// The configuration file does not exist yet.
    Missing,
    /// The file could not be read or written; the cause follows.
    Io(String),
    /// The file's contents could not be parsed; the cause follows.
    ParseError(String),
    /// Anything else, described in words.
    Other(String),
}

impl ConfigError {
    /// The human-readable description of this error.
    pub fn message(&self) -> (r: String)
        ensures
            self is Missing ==> r@ == "Config file is missing"@,
            self matches ConfigError::Io(e) ==> r@ == "IO Error: "@ + e@,
            self matches ConfigError::ParseError(e) ==> r@ == "Could not load config: "@ + e@,
            self matches ConfigError::Other(s) ==> r@ == s@,
    {
        match self {
            ConfigError::Missing => "Config file is missing".to_owned(),
            ConfigError::Io(e) => {
                let mut r = "IO Error: ".to_owned();
                r.append(e.as_str());
                r
            },
            ConfigError::ParseError(e) => {
                let mut r = "Could not load config: ".to_owned();
                r.append(e.as_str());
                r
            },
            ConfigError::Other(s) => s.clone(),
        }
    }
}

/// The pages the caller's window can show.
#[derive(Clone, Copy, Debug, PartialEq, Eq, Structural)]
pub enum PageType {
    Main,
    Settings,
    Error,
}

/// Which page a start of the application lands on, given how loading the
/// configuration went.
pub open spec fn spec_startup_page(
    load: Result<UserConfig, ConfigError>,
    install_dir_exists: bool,
) -> PageType {
    match load {
        Ok(c) => if c.server_url@.len() != 0 && install_dir_exists {
            PageType::Main
        } else {
            PageType::Settings
        },
        Err(ConfigError::Missing) => PageType::Settings,
        Err(_) => PageType::Error,
    }
}

/// Decide the landing page: a usable configuration lands on the main page;
/// a missing file or unusable values land on the settings page; a file that
/// exists but cannot be loaded lands on the error page.
/// `install_dir_exists` is the caller's filesystem fact about the install
/// tree's `bin` directory.
pub fn startup_page(load: &Result<UserConfig, ConfigError>, install_dir_exists: bool) -> (r:
    PageType)
    ensures
        r == spec_startup_page(*load, install_dir_exists),
{
    match load {
        Ok(c) => {
            if c.is_valid() && install_dir_exists {
                PageType::Main
            } else {
                PageType::Settings
            }
        },
        Err(ConfigError::Missing) => PageType::Settings,
        Err(_) => PageType::Error,
    }
}

/// Window state the caller remembers between runs.
#[derive(Clone, Copy, Debug)]
pub struct AppCache {
    pub window_position: [i32; 2],
}

impl Default for AppCache {
    /// A fresh cache: the window at the origin.
    fn default() -> (r: AppCache)
        ensures
            r.window_position@ =~= seq![0i32, 0i32],
    {
        AppCache { window_position: [0, 0] }
    }
}

} // verus!
