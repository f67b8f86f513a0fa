//! The settings of the daemon, their defaults, and how values from the
//! environment replace values from the settings file.

use crate::models::opt_view;
use crate::sanitize::join_path;
use crate::text::{chars_of, parse_u64, string_of, u64_of_text};
use crate::paths::join_of;
use vstd::prelude::*;

verus! {

/// The settings of the daemon.
#[derive(Debug)]
pub struct Config {
    /// The directory of the game server.
    pub l4d2_server_dir: String,
    /// The file that the registry is stored in.
    pub registry_db_path: String,
    /// The base URL of the catalog backend.
    pub backend_api_url: String,
    /// The token for the backend, if it wants one.
    pub backend_api_key: Option<String>,
    /// The address that the control interface listens on.
    pub local_api_bind: String,
    /// The seconds between two reconciliations.
    pub sync_interval_secs: u64,
    /// The log level.
    pub log_level: String,
}

/// The values that the environment sets, one for each setting.
pub struct Overrides {
    pub l4d2_server_dir: Option<String>,
    pub registry_db_path: Option<String>,
    pub backend_api_url: Option<String>,
    pub backend_api_key: Option<String>,
    pub local_api_bind: Option<String>,
    pub sync_interval_secs: Option<String>,
    pub log_level: Option<String>,
}

/// Why the settings could not be put together.
#[derive(Clone, Copy, Debug, PartialEq, Eq, Structural)]
pub enum ConfigError {
    /// The interval from the environment is not a number of seconds.
    BadInterval,
}

/// The value from the environment if there is one, else the value from the
/// file.
pub open spec fn overridden(file: Seq<char>, env: Option<Seq<char>>) -> Seq<char> {
    match env {
        Some(v) => v,
        None => file,
    }
}

/// The add-ons directory below a server directory.
pub open spec fn addons_dir_of(server_dir: Seq<char>) -> Seq<char> {
    join_of(join_of(server_dir, "left4dead2"@), "addons"@)
}

/// The value from the environment if there is one, else the value from the
/// file.
fn pick(file: String, env: &Option<String>) -> (r: String)
    ensures
        r@ == overridden(file@, opt_view(*env)),
{
    match env {
        Some(v) => v.clone(),
        None => file,
    }
}

impl Config {
    /// The settings of a daemon that was given none.
    pub fn default() -> (c: Config)
        ensures
            c.l4d2_server_dir@ == "/opt/l4d2/server"@,
            c.registry_db_path@ == "registry.db"@,
            c.backend_api_url@ == "http://localhost:3000/api"@,
            c.backend_api_key is None,
            c.local_api_bind@ == "127.0.0.1:8080"@,
            c.sync_interval_secs == 300,
            c.log_level@ == "info"@,
    {
        Config {
            l4d2_server_dir: string_of(&chars_of("/opt/l4d2/server")),
            registry_db_path: string_of(&chars_of("registry.db")),
            backend_api_url: string_of(&chars_of("http://localhost:3000/api")),
            backend_api_key: None,
            local_api_bind: string_of(&chars_of("127.0.0.1:8080")),
            sync_interval_secs: 300,
            log_level: string_of(&chars_of("info")),
        }
    }

    /// The add-ons directory: `left4dead2/addons` below the server
    /// directory.
    pub fn addons_dir(&self) -> (r: String)
        ensures
            r@ == addons_dir_of(self.l4d2_server_dir@),
    {
        let game = join_path(self.l4d2_server_dir.as_str(), "left4dead2");
        join_path(game.as_str(), "addons")
    }

    /// The settings with every value that the environment sets in place of
    /// the value from the file. An interval from the environment must be a
    /// decimal number.
    pub fn with_overrides(self, env: &Overrides) -> (r: Result<Config, ConfigError>)
        ensures
            match r {
                Err(e) => e == ConfigError::BadInterval && env.sync_interval_secs is Some
                    && u64_of_text(env.sync_interval_secs->0@) is None,
                Ok(c) => {
                    &&& c.l4d2_server_dir@ == overridden(
                        self.l4d2_server_dir@,
                        opt_view(env.l4d2_server_dir),
                    )
                    &&& c.registry_db_path@ == overridden(
                        self.registry_db_path@,
                        opt_view(env.registry_db_path),
                    )
                    &&& c.backend_api_url@ == overridden(
                        self.backend_api_url@,
                        opt_view(env.backend_api_url),
                    )
                    &&& opt_view(c.backend_api_key) == match env.backend_api_key {
                        Some(k) => Some(k@),
                        None => opt_view(self.backend_api_key),
                    }
                    &&& c.local_api_bind@ == overridden(
                        self.local_api_bind@,
                        opt_view(env.local_api_bind),
                    )
                    &&& c.sync_interval_secs == match env.sync_interval_secs {
                        Some(t) => u64_of_text(t@)->0,
                        None => self.sync_interval_secs,
                    }
                    &&& env.sync_interval_secs is Some ==> u64_of_text(
                        env.sync_interval_secs->0@,
                    ) is Some
                    &&& c.log_level@ == overridden(self.log_level@, opt_view(env.log_level))
                },
            },
    {
        let interval = match &env.sync_interval_secs {
            None => self.sync_interval_secs,
            Some(t) => match parse_u64(t.as_str()) {
                Some(n) => n,
                None => {
                    return Err(ConfigError::BadInterval);
                },
            },
        };
        Ok(
            Config {
                l4d2_server_dir: pick(self.l4d2_server_dir, &env.l4d2_server_dir),
                registry_db_path: pick(self.registry_db_path, &env.registry_db_path),
                backend_api_url: pick(self.backend_api_url, &env.backend_api_url),
                backend_api_key: match &env.backend_api_key {
                    Some(k) => Some(k.clone()),
                    None => self.backend_api_key,
                },
                local_api_bind: pick(self.local_api_bind, &env.local_api_bind),
                sync_interval_secs: interval,
                log_level: pick(self.log_level, &env.log_level),
            },
        )
    }
}

} // verus!
