//! The agent's settings: the monitored devices, the Uptime Kuma server,
//! their defaults, and how settings written by older versions are read.
use vstd::prelude::*;

use crate::text::{chars_of, chars_start_with, starts_with};

verus! {

/// How a device is checked.
#[derive(Clone, Copy, Debug, PartialEq, Eq, Structural)]
pub enum CheckType {
    /// An ICMP echo request (ping).
    Icmp,
    /// A TCP connection to a port.
    Tcp,
}

impl Default for CheckType {
    fn default() -> (c: Self)
        ensures
            c == CheckType::Icmp,
    {
        CheckType::Icmp
    }
}

/// One monitored device.
#[derive(Debug)]
pub struct DeviceConfig {
    pub name: String,
    pub target: String,
    pub check_type: CheckType,
    pub port: Option<u16>,
    pub token: String,
    pub enabled: bool,
}

impl Clone for DeviceConfig {
    fn clone(&self) -> (d: Self)
        ensures
            d == *self,
    {
        DeviceConfig {
            name: self.name.clone(),
            target: self.target.clone(),
            check_type: self.check_type,
            port: self.port,
            token: self.token.clone(),
            enabled: self.enabled,
        }
    }
}

/// A device, taken by its text.
pub struct DeviceView {
    pub name: Seq<char>,
    pub target: Seq<char>,
    pub check_type: CheckType,
    pub port: Option<u16>,
    pub token: Seq<char>,
    pub enabled: bool,
}

impl View for DeviceConfig {
    type V = DeviceView;

    open spec fn view(&self) -> DeviceView {
        DeviceView {
            name: self.name@,
            target: self.target@,
            check_type: self.check_type,
            port: self.port,
            token: self.token@,
            enabled: self.enabled,
        }
    }
}

/// The agent's settings.
#[derive(Clone, Debug)]
pub struct Config {
    pub branch_name: String,
    pub kuma_base_url: String,
    pub interval_sec: u64,
    pub autostart: bool,
    pub enable_logging: bool,
    pub agent_push_token: String,
    pub devices: Vec<DeviceConfig>,
    /// A full push URL, as settings of older versions held it.
    pub kuma_push_url: Option<String>,
    /// A single ping target, as settings of older versions held it.
    pub ping_target: Option<String>,
}

/// The settings, taken by their text.
pub struct ConfigView {
    pub branch_name: Seq<char>,
    pub kuma_base_url: Seq<char>,
    pub interval_sec: u64,
    pub autostart: bool,
    pub enable_logging: bool,
    pub agent_push_token: Seq<char>,
    pub devices: Seq<DeviceView>,
    pub kuma_push_url: Option<Seq<char>>,
    pub ping_target: Option<Seq<char>>,
}

/// The text of an optional string.
pub open spec fn opt_view(o: Option<String>) -> Option<Seq<char>> {
    match o {
        Some(s) => Some(s@),
        None => None,
    }
}

impl View for Config {
    type V = ConfigView;

    open spec fn view(&self) -> ConfigView {
        ConfigView {
            branch_name: self.branch_name@,
            kuma_base_url: self.kuma_base_url@,
            interval_sec: self.interval_sec,
            autostart: self.autostart,
            enable_logging: self.enable_logging,
            agent_push_token: self.agent_push_token@,
            devices: self.devices@.map_values(|d: DeviceConfig| d@),
            kuma_push_url: opt_view(self.kuma_push_url),
            ping_target: opt_view(self.ping_target),
        }
    }
}

/// The name a new device gets.
pub fn default_device_name() -> (s: String)
    ensures
        s@ == "New Device"@,
{
    "New Device".to_string()
}

/// The default of the flags that start out on.
pub fn default_true() -> (b: bool)
    ensures
        b,
{
    true
}

/// The default interval between two monitoring cycles, in seconds.
pub fn default_interval() -> (n: u64)
    ensures
        n == 30,
{
    30
}

/// The default branch name.
pub fn default_branch_name() -> (s: String)
    ensures
        s@ == "Main Branch"@,
{
    "Main Branch".to_string()
}

/// The settings a first run starts from.
pub open spec fn default_config() -> ConfigView {
    ConfigView {
        branch_name: "Main Branch"@,
        kuma_base_url: Seq::empty(),
        interval_sec: 30,
        autostart: false,
        enable_logging: true,
        agent_push_token: Seq::empty(),
        devices: Seq::empty(),
        kuma_push_url: None,
        ping_target: None,
    }
}

impl Default for Config {
    fn default() -> (c: Self)
        ensures
            c@ == default_config(),
    {
        let c = Config {
            branch_name: default_branch_name(),
            kuma_base_url: String::new(),
            interval_sec: default_interval(),
            autostart: false,
            enable_logging: default_true(),
            agent_push_token: String::new(),
            devices: Vec::new(),
            kuma_push_url: None,
            ping_target: None,
        };
        assert(c@.devices =~= Seq::<DeviceView>::empty());
        c
    }
}

/// The device that stands for the single ping target of older settings.
pub open spec fn gateway_device(target: Seq<char>) -> DeviceView {
    DeviceView {
        name: "Gateway / Ping Target"@,
        target,
        check_type: CheckType::Icmp,
        port: None,
        token: Seq::empty(),
        enabled: true,
    }
}

/// Whether a legacy push URL becomes the agent's heartbeat token: it is not
/// empty, starts with `http`, and neither a base URL nor a heartbeat token
/// is set.
pub open spec fn adopts_legacy_url(c: ConfigView) -> bool {
    c.kuma_push_url matches Some(u) && u.len() > 0 && c.kuma_base_url.len() == 0
        && c.agent_push_token.len() == 0 && starts_with(u, "http"@)
}

/// Whether a legacy ping target becomes a device: it is not empty and no
/// device is configured.
pub open spec fn adopts_legacy_target(c: ConfigView) -> bool {
    c.ping_target matches Some(t) && t.len() > 0 && c.devices.len() == 0
}

/// Settings of older versions carried over into the current form: the
/// legacy fields are cleared, and what they held is kept where the current
/// settings have no value of their own.
pub open spec fn migrate(c: ConfigView) -> ConfigView {
    ConfigView {
        branch_name: c.branch_name,
        kuma_base_url: c.kuma_base_url,
        interval_sec: c.interval_sec,
        autostart: c.autostart,
        enable_logging: c.enable_logging,
        agent_push_token: if adopts_legacy_url(c) {
            c.kuma_push_url->Some_0
        } else {
            c.agent_push_token
        },
        devices: if adopts_legacy_target(c) {
            seq![gateway_device(c.ping_target->Some_0)]
        } else {
            c.devices
        },
        kuma_push_url: None,
        ping_target: None,
    }
}

/// Carrying settings over a second time changes nothing: what comes out of
/// a migration holds no legacy field any more.
pub proof fn migrate_is_idempotent(c: ConfigView)
    ensures
        migrate(migrate(c)) == migrate(c),
{
}

/// A legacy push URL that is not empty and starts with `http` (so both
/// `http://` and `https://` URLs) becomes the heartbeat token when neither
/// a base URL nor a heartbeat token is set; otherwise the heartbeat token
/// stays as it was. Either way the legacy field is cleared and the other
/// settings are kept.
pub proof fn legacy_push_url_becomes_heartbeat_token(c: ConfigView)
    ensures
        ({
            let m = migrate(c);
            let adopted = c.kuma_push_url is Some && c.kuma_push_url->Some_0.len() > 0
                && starts_with(c.kuma_push_url->Some_0, "http"@) && c.kuma_base_url.len() == 0
                && c.agent_push_token.len() == 0;
            &&& adopted ==> m.agent_push_token == c.kuma_push_url->Some_0
            &&& !adopted ==> m.agent_push_token == c.agent_push_token
            &&& m.kuma_push_url is None
            &&& m.branch_name == c.branch_name
            &&& m.kuma_base_url == c.kuma_base_url
            &&& m.interval_sec == c.interval_sec
            &&& m.autostart == c.autostart
            &&& m.enable_logging == c.enable_logging
        }),
{
}

/// A legacy ping target that is not empty becomes the only device, an
/// enabled ICMP check named `Gateway / Ping Target` without port or token,
/// when no device is configured; otherwise the devices stay as they were.
/// Either way the legacy field is cleared.
pub proof fn legacy_ping_target_becomes_gateway_device(c: ConfigView)
    ensures
        ({
            let m = migrate(c);
            let adopted = c.ping_target is Some && c.ping_target->Some_0.len() > 0
                && c.devices.len() == 0;
            &&& adopted ==> m.devices.len() == 1 && m.devices[0].name == "Gateway / Ping Target"@
                && m.devices[0].target == c.ping_target->Some_0 && m.devices[0].check_type
                == CheckType::Icmp && m.devices[0].port is None && m.devices[0].token.len() == 0
                && m.devices[0].enabled
            &&& !adopted ==> m.devices == c.devices
            &&& m.ping_target is None
        }),
{
}

/// Carries settings written by older versions over into the current form.
pub fn migrate_legacy(config: Config) -> (c: Config)
    ensures
        c@ == migrate(config@),
{
    let Config {
        branch_name,
        kuma_base_url,
        interval_sec,
        autostart,
        enable_logging,
        agent_push_token,
        devices,
        kuma_push_url,
        ping_target,
    } = config;
    let mut agent_push_token = agent_push_token;
    let ghost old_devices = devices@;
    match kuma_push_url {
        Some(legacy_url) => {
            if !legacy_url.as_str().is_empty() && kuma_base_url.as_str().is_empty()
                && agent_push_token.as_str().is_empty() && chars_start_with(
                &chars_of(legacy_url.as_str()),
                &chars_of("http"),
            ) {
                agent_push_token = legacy_url;
            }
        },
        None => {},
    }
    let mut devices = devices;
    match ping_target {
        Some(legacy_target) => {
            if !legacy_target.as_str().is_empty() && devices.len() == 0 {
                devices.push(
                    DeviceConfig {
                        name: "Gateway / Ping Target".to_string(),
                        target: legacy_target,
                        check_type: CheckType::Icmp,
                        port: None,
                        token: String::new(),
                        enabled: true,
                    },
                );
            }
        },
        None => {},
    }
    let c = Config {
        branch_name,
        kuma_base_url,
        interval_sec,
        autostart,
        enable_logging,
        agent_push_token,
        devices,
        kuma_push_url: None,
        ping_target: None,
    };
    assert(c@.devices =~= migrate(config@).devices);
    c
}

/// The settings in effect: the defaults where none were stored, else the
/// stored settings carried over into the current form.
pub fn load_config(stored: Option<Config>) -> (c: Config)
    ensures
        stored is None ==> c@ == default_config(),
        stored matches Some(s) ==> c@ == migrate(s@),
{
    match stored {
        Some(s) => migrate_legacy(s),
        None => Config::default(),
    }
}

/// A single relative file name: not empty, not `.` or `..`, and free of
/// path separators and drive colons.
pub open spec fn is_plain_file_name(f: Seq<char>) -> bool {
    &&& f.len() > 0
    &&& f != "."@
    &&& f != ".."@
    &&& forall|i: int| 0 <= i < f.len() ==> #[trigger] f[i] != '/' && f[i] != '\\' && f[i] != ':'
}

/// `file` placed in the directory `dir`: appended directly, or after one
/// path separator.
pub open spec fn is_joined_path(p: Seq<char>, dir: Seq<char>, file: Seq<char>) -> bool {
    ||| p == dir + file
    ||| p == dir + seq!['/'] + file
    ||| p == dir + seq!['\\'] + file
}

/// A directory after which a path separator has to be written: not empty,
/// not ending in a separator, and not a bare drive such as `C:`.
pub open spec fn needs_separator(dir: Seq<char>) -> bool {
    &&& dir.len() > 0
    &&& dir.last() != '/'
    &&& dir.last() != '\\'
    &&& !(dir.len() == 2 && dir[1] == ':')
}

/// What joining `file` onto `dir` gives: `file` alone after an empty
/// directory, `dir` and `file` directly after a directory that ends in `/`,
/// one separator between them where a separator is needed, and one of the
/// three forms otherwise.
pub open spec fn is_path_join(p: Seq<char>, dir: Seq<char>, file: Seq<char>) -> bool {
    &&& is_joined_path(p, dir, file)
    &&& dir.len() == 0 ==> p == file
    &&& dir.len() > 0 && dir.last() == '/' ==> p == dir + file
    &&& needs_separator(dir) ==> (p == dir + seq!['/'] + file || p == dir + seq!['\\'] + file)
}

/// Whether `dir` is a verbatim Windows path (`\\?\...`).
pub open spec fn is_verbatim(dir: Seq<char>) -> bool {
    starts_with(dir, "\\\\?\\"@)
}

/// Calls `std::path::Path::join`. For a relative `file` without root or
/// prefix, its documentation says that the file name is pushed onto `dir`
/// with a separator where one is needed. The contract claims `is_path_join`:
/// nothing is added after an empty directory or one that ends in `/`, and
/// one separator is added after a directory that ends in neither separator
/// and is not a bare drive. Which separator that is (`/` or `\`) depends on
/// the platform, and is not stated; nor is which form a directory ending in
/// `\` gives (a separator on Windows only). Of a verbatim `dir` nothing is
/// stated: Windows rebuilds such a path from its components.
#[verifier::external_body]
pub(crate) fn join_path(dir: &str, file: &str) -> (p: String)
    requires
        is_plain_file_name(file@),
    ensures
        !is_verbatim(dir@) ==> is_path_join(p@, dir@, file@),
{
    std::path::Path::new(dir).join(file).to_string_lossy().into_owned()
}

/// The path of the settings file `config.toml` in the application data
/// directory `app_data_dir`.
pub fn get_config_path(app_data_dir: &str) -> (p: String)
    ensures
        !is_verbatim(app_data_dir@) ==> is_path_join(p@, app_data_dir@, "config.toml"@),
{
    proof {
        reveal_strlit("config.toml");
        reveal_strlit(".");
        reveal_strlit("..");
    }
    join_path(app_data_dir, "config.toml")
}

/// The directory of the agent's data: `KumaAgent` in the `APPDATA`
/// directory `appdata` where that is set, else the directory `exe_dir` of
/// the agent's executable, else the current directory `.`.
pub fn app_data_dir(appdata: Option<&str>, exe_dir: Option<&str>) -> (p: String)
    ensures
        appdata matches Some(a) ==> (!is_verbatim(a@) ==> is_path_join(p@, a@, "KumaAgent"@)),
        appdata is None ==> p@ == (match exe_dir {
            Some(d) => d@,
            None => "."@,
        }),
{
    proof {
        reveal_strlit("KumaAgent");
        reveal_strlit(".");
        reveal_strlit("..");
        assert("KumaAgent"@.len() == 9);
        assert("KumaAgent"@ != "."@);
        assert("KumaAgent"@ != ".."@);
        assert(is_plain_file_name("KumaAgent"@));
    }
    match appdata {
        Some(a) => join_path(a, "KumaAgent"),
        None => match exe_dir {
            Some(d) => d.to_string(),
            None => ".".to_string(),
        },
    }
}

/// The directory `logs` in the data directory `app_data_dir`.
pub fn logs_dir(app_data_dir: &str) -> (p: String)
    ensures
        !is_verbatim(app_data_dir@) ==> is_path_join(p@, app_data_dir@, "logs"@),
{
    proof {
        reveal_strlit("logs");
        reveal_strlit(".");
        reveal_strlit("..");
    }
    join_path(app_data_dir, "logs")
}

/// The log file `agent.log` in the log directory `logs_dir`.
pub fn log_file_path(logs_dir: &str) -> (p: String)
    ensures
        !is_verbatim(logs_dir@) ==> is_path_join(p@, logs_dir@, "agent.log"@),
{
    proof {
        reveal_strlit("agent.log");
        reveal_strlit(".");
        reveal_strlit("..");
    }
    join_path(logs_dir, "agent.log")
}

} // verus!
