//! Application configuration: the configuration tree with its defaults and
//! validation rules, and the per-user file locations. Reading and writing
//! the files is left to the embedding program.

use vstd::prelude::*;

use crate::error::{ConfigError, ConfigResult};

verus! {

/// Application configuration.
#[derive(Debug, Clone)]
pub struct Config {
    /// Network configuration.
    pub network: NetworkConfig,
    /// Desktop capture configuration.
    pub desktop: DesktopConfig,
    /// Security configuration.
    pub security: SecurityConfig,
    /// Clipboard configuration.
    pub clipboard: ClipboardConfig,
    /// UI configuration.
    pub ui: UiConfig,
}

/// Network-related configuration.
#[derive(Debug, Clone)]
pub struct NetworkConfig {
    /// Port to listen on; zero asks for a random port.
    pub listen_port: u16,
    /// Whether to advertise and browse on the local network.
    pub enable_mdns: bool,
    /// STUN servers for NAT traversal.
    pub stun_servers: Vec<String>,
    /// Maximum concurrent connections.
    pub max_connections: u8,
}

/// Desktop capture configuration.
#[derive(Debug, Clone)]
pub struct DesktopConfig {
    /// Default quality (0-100).
    pub default_quality: u8,
    /// Default frame rate.
    pub default_fps: u8,
    /// zstd compression level (0-22).
    pub compression_level: u8,
}

/// Security configuration.
#[derive(Debug, Clone)]
pub struct SecurityConfig {
    /// Whether connections require a password.
    pub require_password: bool,
    /// Minimum password length.
    pub min_password_length: usize,
    /// Session timeout in minutes.
    pub session_timeout_minutes: u32,
    /// Idle timeout in minutes.
    pub idle_timeout_minutes: u32,
    /// Password attempts before lockout.
    pub max_password_attempts: u32,
    /// Lockout duration in minutes.
    pub lockout_duration_minutes: u32,
}

/// Clipboard configuration.
#[derive(Debug, Clone)]
pub struct ClipboardConfig {
    /// Whether clipboard synchronization is on.
    pub enabled: bool,
    /// Largest clipboard payload in mebibytes.
    pub max_size_mb: u32,
    /// Debounce before syncing, in milliseconds.
    pub sync_delay_ms: u64,
}

/// UI configuration.
#[derive(Debug, Clone)]
pub struct UiConfig {
    /// Whether to show a tray icon.
    pub show_tray_icon: bool,
    /// Whether closing minimizes to the tray.
    pub minimize_to_tray: bool,
}

impl Default for NetworkConfig {
    /// Defaults: random port, discovery on, one connection.
    fn default() -> (r: NetworkConfig)
        ensures
            r.listen_port == 0,
            r.enable_mdns,
            r.max_connections == 1,
    {
        let mut stun_servers: Vec<String> = Vec::new();
        stun_servers.push(String::from_str("stun:stun.l.google.com:19302"));
        stun_servers.push(String::from_str("stun:stun1.l.google.com:19302"));
        NetworkConfig { listen_port: 0, enable_mdns: true, stun_servers, max_connections: 1 }
    }
}

impl Default for DesktopConfig {
    /// Defaults: quality 80, 30 frames per second, zstd level 3.
    fn default() -> (r: DesktopConfig)
        ensures
            r.default_quality == 80,
            r.default_fps == 30,
            r.compression_level == 3,
    {
        DesktopConfig { default_quality: 80, default_fps: 30, compression_level: 3 }
    }
}

impl Default for SecurityConfig {
    /// Defaults: manual accept, six-character minimum.
    fn default() -> (r: SecurityConfig)
        ensures
            !r.require_password,
            r.min_password_length == 6,
            r.session_timeout_minutes == 30,
            r.idle_timeout_minutes == 10,
            r.max_password_attempts == 5,
            r.lockout_duration_minutes == 15,
    {
        SecurityConfig {
            require_password: false,
            min_password_length: 6,
            session_timeout_minutes: 30,
            idle_timeout_minutes: 10,
            max_password_attempts: 5,
            lockout_duration_minutes: 15,
        }
    }
}

impl Default for ClipboardConfig {
    /// Defaults: on, ten mebibytes, half-second debounce.
    fn default() -> (r: ClipboardConfig)
        ensures
            r.enabled,
            r.max_size_mb == 10,
            r.sync_delay_ms == 500,
    {
        ClipboardConfig { enabled: true, max_size_mb: 10, sync_delay_ms: 500 }
    }
}

impl Default for UiConfig {
    /// Defaults: tray icon shown, minimize to tray.
    fn default() -> (r: UiConfig)
        ensures
            r.show_tray_icon,
            r.minimize_to_tray,
    {
        UiConfig { show_tray_icon: true, minimize_to_tray: true }
    }
}

impl Default for Config {
    /// The default configuration tree.
    fn default() -> (r: Config)
        ensures
            r.network.listen_port == 0,
            r.desktop.default_quality == 80,
            r.security.min_password_length == 6,
            r.clipboard.enabled,
    {
        Config {
            network: NetworkConfig::default(),
            desktop: DesktopConfig::default(),
            security: SecurityConfig::default(),
            clipboard: ClipboardConfig::default(),
            ui: UiConfig::default(),
        }
    }
}

/// The rules a configuration must satisfy.
pub open spec fn config_valid(c: &Config) -> bool {
    &&& c.desktop.default_quality <= 100
    &&& 1 <= c.desktop.default_fps <= 60
    &&& c.desktop.compression_level <= 22
    &&& 4 <= c.security.min_password_length <= 128
}

/// Relies on the directories crate's `ProjectDirs`: the per-user
/// configuration directory for this application, which depends on the
/// user's environment; nothing is promised of the path.
#[verifier::external_body]
fn project_config_dir() -> Option<String> {
    directories::ProjectDirs::from("com", "remotedesk", "RemoteDesk").map(|dirs| {
        dirs.config_dir().to_string_lossy().into_owned()
    })
}

/// Knows where the configuration files live and which configurations are
/// acceptable. The embedding program performs the reads and writes.
#[derive(Debug)]
pub struct ConfigManager {
    config_dir: String,
}

impl ConfigManager {
    /// The configuration directory path.
    pub closed spec fn spec_config_dir(&self) -> Seq<char> {
        self.config_dir@
    }

    /// Locates the per-user configuration directory.
    pub fn new() -> (r: ConfigResult<ConfigManager>)
        ensures
            r matches Err(e) ==> e matches ConfigError::DirectoryNotFound(_),
    {
        match project_config_dir() {
            Some(config_dir) => Ok(ConfigManager { config_dir }),
            None => Err(
                ConfigError::DirectoryNotFound(
                    String::from_str("Could not determine configuration directory"),
                ),
            ),
        }
    }

    /// Checks a configuration against the accepted ranges.
    pub fn validate(&self, config: &Config) -> (r: ConfigResult<()>)
        ensures
            r is Ok <==> config_valid(config),
            r matches Err(e) ==> e matches ConfigError::InvalidValue(_),
    {
        if config.desktop.default_quality > 100 {
            return Err(
                ConfigError::InvalidValue(String::from_str("Quality must be between 0 and 100")),
            );
        }
        if config.desktop.default_fps == 0 || config.desktop.default_fps > 60 {
            return Err(
                ConfigError::InvalidValue(String::from_str("FPS must be between 1 and 60")),
            );
        }
        if config.desktop.compression_level > 22 {
            return Err(
                ConfigError::InvalidValue(
                    String::from_str("Compression level must be between 0 and 22"),
                ),
            );
        }
        if config.security.min_password_length < 4 || config.security.min_password_length > 128 {
            return Err(
                ConfigError::InvalidValue(
                    String::from_str("Minimum password length must be between 4 and 128"),
                ),
            );
        }
        Ok(())
    }

    /// The path of the device identifier file.
    pub fn device_id_path(&self) -> (r: String)
        ensures
            r@ == self.spec_config_dir() + "/device_id"@,
    {
        let mut p = self.config_dir.clone();
        p.append("/device_id");
        p
    }

    /// The path of the password hash file.
    pub fn password_hash_path(&self) -> (r: String)
        ensures
            r@ == self.spec_config_dir() + "/password.hash"@,
    {
        let mut p = self.config_dir.clone();
        p.append("/password.hash");
        p
    }

    /// The path of the connection log file.
    pub fn connection_log_path(&self) -> (r: String)
        ensures
            r@ == self.spec_config_dir() + "/connections.log"@,
    {
        let mut p = self.config_dir.clone();
        p.append("/connections.log");
        p
    }

    /// The path of the configuration file itself.
    pub fn config_file_path(&self) -> (r: String)
        ensures
            r@ == self.spec_config_dir() + "/config.toml"@,
    {
        let mut p = self.config_dir.clone();
        p.append("/config.toml");
        p
    }

    /// The configuration directory path.
    pub fn config_directory(&self) -> (r: &String)
        ensures
            r@ == self.spec_config_dir(),
    {
        &self.config_dir
    }
}

} // verus!
