//! The application configuration: the watch delay, the application and
//! store directories, and the tracking-list file, all as plain values.

use vstd::prelude::*;

verus! {

/// The mathematical model of a configuration.
pub ghost struct ConfigModel {
    /// The file-watcher delay, in milliseconds.
    pub delay: u64,
    /// The main application directory.
    pub app_dir: Seq<char>,
    /// The directory that holds the compressed containers.
    pub store_dir: Seq<char>,
    /// The file that lists the tracked paths.
    pub tracking_list: Seq<char>,
}

/// The mathematical model of a partial configuration.
pub ghost struct MaybeConfigModel {
    /// The file-watcher delay, if set.
    pub delay: Option<u64>,
    /// The main application directory, if set.
    pub app_dir: Option<Seq<char>>,
    /// The store directory, if set.
    pub store_dir: Option<Seq<char>>,
    /// The tracking-list file, if set.
    pub tracking_list: Option<Seq<char>>,
}

/// The main configuration used by the application, but with optional
/// fields.
#[derive(Debug, Clone)]
pub struct MaybeConfig {
    delay: Option<u64>,
    app_dir: Option<String>,
    store_dir: Option<String>,
    tracking_list: Option<String>,
}

/// The characters an optional string holds.
pub open spec fn spec_opt_chars(o: Option<String>) -> Option<Seq<char>> {
    match o {
        Some(s) => Some(s@),
        None => None,
    }
}

impl View for MaybeConfig {
    type V = MaybeConfigModel;

    closed spec fn view(&self) -> MaybeConfigModel {
        MaybeConfigModel {
            delay: self.delay,
            app_dir: spec_opt_chars(self.app_dir),
            store_dir: spec_opt_chars(self.store_dir),
            tracking_list: spec_opt_chars(self.tracking_list),
        }
    }
}

impl Default for MaybeConfig {
    /// The default partial configuration sets nothing.
    fn default() -> (r: Self)
        ensures
            r@ == (MaybeConfigModel {
                delay: None,
                app_dir: None,
                store_dir: None,
                tracking_list: None,
            }),
    {
        Self { delay: None, app_dir: None, store_dir: None, tracking_list: None }
    }
}

/// The main configuration used by the application.
#[derive(Debug, Clone)]
pub struct Config {
    delay: u64,
    app_dir: String,
    store_dir: String,
    tracking_list: String,
}

/// The default watch delay, in milliseconds.
pub open spec fn spec_default_delay() -> u64 {
    1000u64
}

/// The default application directory.
pub open spec fn spec_default_app_dir() -> Seq<char> {
    "~/.storage-app-data"@
}

/// The default store directory.
pub open spec fn spec_default_store_dir() -> Seq<char> {
    "~/.storage-app-data/.store"@
}

/// The default tracking-list file.
pub open spec fn spec_default_tracking_list() -> Seq<char> {
    "~/.storage-app-store/tracking_list.json"@
}

impl View for Config {
    type V = ConfigModel;

    closed spec fn view(&self) -> ConfigModel {
        ConfigModel {
            delay: self.delay,
            app_dir: self.app_dir@,
            store_dir: self.store_dir@,
            tracking_list: self.tracking_list@,
        }
    }
}

impl Default for Config {
    /// The default configuration: a one-second delay and the standard
    /// application paths.
    fn default() -> (r: Self)
        ensures
            r@ == (ConfigModel {
                delay: spec_default_delay(),
                app_dir: spec_default_app_dir(),
                store_dir: spec_default_store_dir(),
                tracking_list: spec_default_tracking_list(),
            }),
    {
        Self {
            delay: 1000,
            app_dir: "~/.storage-app-data".to_owned(),
            store_dir: "~/.storage-app-data/.store".to_owned(),
            tracking_list: "~/.storage-app-store/tracking_list.json".to_owned(),
        }
    }
}

impl Config {
    /// Creates a new default config.
    pub fn new() -> (r: Self)
        ensures
            r@ == (ConfigModel {
                delay: spec_default_delay(),
                app_dir: spec_default_app_dir(),
                store_dir: spec_default_store_dir(),
                tracking_list: spec_default_tracking_list(),
            }),
    {
        Self::default()
    }

    /// Builds a configuration from its parts.
    pub fn from_parts(delay: u64, app_dir: String, store_dir: String, tracking_list: String) -> (r:
        Self)
        ensures
            r@ == (ConfigModel {
                delay,
                app_dir: app_dir@,
                store_dir: store_dir@,
                tracking_list: tracking_list@,
            }),
    {
        Self { delay, app_dir, store_dir, tracking_list }
    }

    /// Gets the file watcher delay (in milliseconds).
    pub fn delay(&self) -> (r: u64)
        ensures
            r == self@.delay,
    {
        self.delay
    }

    /// Gets the path to the main application directory as a string.
    pub fn app_dir(&self) -> (r: &str)
        ensures
            r@ == self@.app_dir,
    {
        self.app_dir.as_str()
    }

    /// Gets the path to the storage directory as a string.
    pub fn store_dir(&self) -> (r: &str)
        ensures
            r@ == self@.store_dir,
    {
        self.store_dir.as_str()
    }

    /// Gets the path to the tracking list file as a string.
    pub fn tracking_list(&self) -> (r: &str)
        ensures
            r@ == self@.tracking_list,
    {
        self.tracking_list.as_str()
    }

    /// Converts this config into a [`MaybeConfig`] with every field set.
    pub fn into_maybe(self) -> (r: MaybeConfig)
        ensures
            r@ == (MaybeConfigModel {
                delay: Some(self@.delay),
                app_dir: Some(self@.app_dir),
                store_dir: Some(self@.store_dir),
                tracking_list: Some(self@.tracking_list),
            }),
    {
        MaybeConfig {
            delay: Some(self.delay),
            app_dir: Some(self.app_dir),
            store_dir: Some(self.store_dir),
            tracking_list: Some(self.tracking_list),
        }
    }

    /// Combines this config with `other`, taking every field that `other`
    /// sets and keeping this config's value for the rest.
    pub fn extend_with(&self, other: &MaybeConfig) -> (r: Self)
        ensures
            r@.delay == (if other@.delay is Some {
                other@.delay.unwrap()
            } else {
                self@.delay
            }),
            r@.app_dir == (if other@.app_dir is Some {
                other@.app_dir.unwrap()
            } else {
                self@.app_dir
            }),
            r@.store_dir == (if other@.store_dir is Some {
                other@.store_dir.unwrap()
            } else {
                self@.store_dir
            }),
            r@.tracking_list == (if other@.tracking_list is Some {
                other@.tracking_list.unwrap()
            } else {
                self@.tracking_list
            }),
    {
        let delay: u64 = match other.delay {
            Some(d) => d,
            None => self.delay,
        };
        let app_dir: String = match &other.app_dir {
            Some(s) => s.clone(),
            None => self.app_dir.clone(),
        };
        let store_dir: String = match &other.store_dir {
            Some(s) => s.clone(),
            None => self.store_dir.clone(),
        };
        let tracking_list: String = match &other.tracking_list {
            Some(s) => s.clone(),
            None => self.tracking_list.clone(),
        };
        Self { delay, app_dir, store_dir, tracking_list }
    }
}

} // verus!
