//! The configuration manager: the listening port, the deployed version and
//! the persisted settings, reconciled at startup and kept in step afterwards,
//! and the paths and the download address derived from them.

use vstd::prelude::*;
use vstd::string::*;
use crate::cli::{Port, DEFAULT_PORT};
use crate::platform::{asset_filename, child_path, join_path, Arch, Os};
use crate::storage_config::{loaded, StorageConfig, StoredState};
use crate::store::{
    flag_bytes, op_view, port_bytes, written, written_if, SettingKey, StoreContents, StoreOp,
    StoreWrite, StoredSettings,
};

verus! {

/// What a [`Config`] holds.
pub struct ConfigState {
    pub port: u16,
    pub version: Seq<char>,
    pub storage: StoredState,
}

/// What to ask of the operating system's auto-launch facility.
#[derive(Clone, Copy, Debug, PartialEq, Eq, Structural)]
pub enum AutoLaunchAction {
    Nothing,
    Enable,
    Disable,
}

/// Why the auto-launch setting was not carried out.
#[derive(Clone, Copy, Debug, PartialEq, Eq, Structural)]
pub enum AutoLaunchError {
    /// The operating system's facility could not be built or asked, so
    /// nothing is known of the registration.
    Unavailable,
}

/// The configuration that a start with this version and this store gives,
/// and the write it owes the store. A stored port wins over the default and
/// nothing is written; without one the default is taken and written back.
pub open spec fn started(version: Seq<char>, store: StoreContents) -> (
    ConfigState,
    Option<StoreWrite>,
) {
    let settings = loaded(store);
    match settings.port {
        Some(port) => (ConfigState { port, version, storage: settings }, None),
        None => (
            ConfigState {
                port: DEFAULT_PORT,
                version,
                storage: StoredState { port: Some(DEFAULT_PORT), ..settings },
            },
            Some(StoreWrite::Put { key: SettingKey::Port, value: port_bytes(DEFAULT_PORT) }),
        ),
    }
}

/// The configuration after the port has been set.
pub open spec fn with_port(config: ConfigState, port: u16) -> ConfigState {
    ConfigState {
        port,
        storage: StoredState { port: Some(port), ..config.storage },
        ..config
    }
}

/// The configuration after the auto-launch intent has been set.
pub open spec fn with_auto_launch(config: ConfigState, enable: bool) -> ConfigState {
    ConfigState { storage: StoredState { auto_launch: enable, ..config.storage }, ..config }
}

/// Where releases are fetched from: the official release host, or the
/// regional mirror.
pub open spec fn download_base(is_github_download: bool) -> Seq<char> {
    if is_github_download {
        "https://github.com/ZingerLittleBee/server_bee-backend/releases/download"@
    } else {
        "https://serverbee-1253263310.cos.ap-shanghai.myqcloud.com"@
    }
}

/// The directory of a version on the host: `v` and the version on the
/// official release host, the bare version on the mirror.
pub open spec fn version_segment(version: Seq<char>, is_github_download: bool) -> Seq<char> {
    if is_github_download {
        "v"@ + version
    } else {
        version
    }
}

/// The address of the release archive: base, version segment and asset
/// name, each joined by `/`.
pub open spec fn download_url(config: ConfigState, os: Os, arch: Arch) -> Seq<char> {
    download_base(config.storage.is_github_download) + "/"@ + version_segment(
        config.version,
        config.storage.is_github_download,
    ) + "/"@ + asset_filename(os, arch)
}

/// The name of the managed binary on a system.
pub open spec fn binary_name(os: Os) -> Seq<char> {
    match os {
        Os::Windows => "serverbee-web.exe"@,
        _ => "serverbee-web"@,
    }
}

/// The directory to install under: that of the executable where it is
/// known, else the working directory, else none.
pub open spec fn install_root(
    executable_dir: Option<Seq<char>>,
    working_dir: Option<Seq<char>>,
) -> Option<Seq<char>> {
    match executable_dir {
        Some(dir) => Some(dir),
        None => working_dir,
    }
}

/// What to ask of the operating system, given the intent and whether the
/// supervisor is registered now: register where it is wanted and missing,
/// unregister where it is unwanted and present, else nothing.
pub open spec fn launch_action(enable: bool, registered: bool) -> AutoLaunchAction {
    if enable && !registered {
        AutoLaunchAction::Enable
    } else if !enable && registered {
        AutoLaunchAction::Disable
    } else {
        AutoLaunchAction::Nothing
    }
}

/// Whether the supervisor is registered once the action has been carried out.
pub open spec fn registered_after(action: AutoLaunchAction, registered: bool) -> bool {
    match action {
        AutoLaunchAction::Nothing => registered,
        AutoLaunchAction::Enable => true,
        AutoLaunchAction::Disable => false,
    }
}

/// The view of an optional string.
pub open spec fn text_view(text: Option<String>) -> Option<Seq<char>> {
    match text {
        Some(t) => Some(t@),
        None => None,
    }
}

/// The live configuration of the supervisor.
#[derive(Clone, Debug)]
pub struct Config {
    port: Port,
    version: String,
    storage_config: StorageConfig,
}

impl View for Config {
    type V = ConfigState;

    closed spec fn view(&self) -> ConfigState {
        ConfigState {
            port: self.port.value(),
            version: self.version@,
            storage: self.storage_config@,
        }
    }
}

impl Config {
    /// Starts from what the store holds. Returns the configuration and, where
    /// the store had no port, the write that stores the default one.
    pub fn new(version: &str, stored: &StoredSettings) -> (r: (Self, Option<StoreOp>))
        ensures
            (r.0@, op_view(r.1)) == started(version@, stored@),
    {
        let mut port: Port = Port::new(DEFAULT_PORT);
        let mut storage_config = StorageConfig::new(stored);
        let mut op: Option<StoreOp> = None;
        match storage_config.get_port() {
            Some(storage_port) => {
                port = Port::new(storage_port);
            },
            None => {
                op = Some(storage_config.set_port(port));
            },
        }
        (Config { port, version: String::from_str(version), storage_config }, op)
    }

    pub fn get_version(&self) -> (r: String)
        ensures
            r@ == self@.version,
    {
        self.version.clone()
    }

    pub fn get_port(&self) -> (r: u16)
        ensures
            r == self@.port,
    {
        self.port.get_value()
    }

    pub fn set_version(&mut self, version: &str)
        ensures
            final(self)@ == (ConfigState { version: version@, ..old(self)@ }),
    {
        self.version = String::from_str(version);
    }

    /// Chooses the download source and returns the write that stores it.
    pub fn set_is_github_download(&mut self, is_github_download: bool) -> (op: StoreOp)
        ensures
            final(self)@ == (ConfigState {
                storage: StoredState { is_github_download, ..old(self)@.storage },
                ..old(self)@
            }),
            op@ == (StoreWrite::Put {
                key: SettingKey::IsGithubDownload,
                value: flag_bytes(is_github_download),
            }),
    {
        self.storage_config.set_is_github_download(is_github_download)
    }

    /// Whether downloads come from the official release host.
    pub fn get_is_github_download(&self) -> (r: bool)
        ensures
            r == self@.storage.is_github_download,
    {
        self.storage_config.get_is_github_download()
    }

    /// Whether the supervisor is meant to start at login.
    pub fn get_auto_launch(&self) -> (r: bool)
        ensures
            r == self@.storage.auto_launch,
    {
        self.storage_config.get_auto_launch()
    }

    /// Changes the port, in memory and in the settings, and returns the
    /// write that stores it.
    pub fn set_port(&mut self, port: Port) -> (op: StoreOp)
        ensures
            final(self)@ == with_port(old(self)@, port.value()),
            op@ == (StoreWrite::Put { key: SettingKey::Port, value: port_bytes(port.value()) }),
    {
        self.port = port;
        self.storage_config.set_port(port)
    }

    /// The name of the release archive for a platform.
    pub fn get_filename(os: Os, arch: Arch) -> (r: String)
        ensures
            r@ == asset_filename(os, arch),
    {
        let arch_name = match arch {
            Arch::X86_64 => "x86_64",
            Arch::Aarch64 => "aarch64",
        };
        let triple = match os {
            Os::MacOs => "apple-darwin",
            Os::Windows => "pc-windows-gnu",
            Os::Linux | Os::Unknown => "unknown-linux-musl",
        };
        String::from_str("serverbee-web-").concat(arch_name).concat("-").concat(triple).concat(
            ".zip",
        )
    }

    /// The directory of this version's install, under `root`.
    pub fn web_bin_dir(&self, root: &str, os: Os) -> (r: String)
        ensures
            r@ == child_path(root@, self@.version, os),
    {
        join_path(root, self.version.as_str(), os)
    }

    /// The managed binary inside this version's install.
    pub fn web_bin_path(&self, root: &str, os: Os) -> (r: String)
        ensures
            r@ == child_path(child_path(root@, self@.version, os), binary_name(os), os),
    {
        let dir = self.web_bin_dir(root, os);
        let name = match os {
            Os::Windows => "serverbee-web.exe",
            _ => "serverbee-web",
        };
        join_path(dir.as_str(), name, os)
    }

    /// Where the downloaded archive is kept inside this version's install.
    pub fn web_bin_zip_path(&self, root: &str, os: Os, arch: Arch) -> (r: String)
        ensures
            r@ == child_path(child_path(root@, self@.version, os), asset_filename(os, arch), os),
    {
        let dir = self.web_bin_dir(root, os);
        let filename = Config::get_filename(os, arch);
        join_path(dir.as_str(), filename.as_str(), os)
    }

    /// The address to download this version's archive from.
    pub fn bin_zip_url(&self, os: Os, arch: Arch) -> (r: String)
        ensures
            r@ == download_url(self@, os, arch),
    {
        let is_github_download = self.storage_config.get_is_github_download();
        let base_url = if is_github_download {
            "https://github.com/ZingerLittleBee/server_bee-backend/releases/download"
        } else {
            "https://serverbee-1253263310.cos.ap-shanghai.myqcloud.com"
        };
        let version = if is_github_download {
            String::from_str("v").concat(self.version.as_str())
        } else {
            self.version.clone()
        };
        let filename = Config::get_filename(os, arch);
        String::from_str(base_url).concat("/").concat(version.as_str()).concat("/").concat(
            filename.as_str(),
        )
    }

    /// Records the auto-launch intent and decides what to ask of the
    /// operating system. `registered` says whether the supervisor is
    /// registered now, `None` where the system could not be asked: then
    /// nothing is recorded and nothing is asked. Otherwise the intent is
    /// recorded whatever the action is.
    pub fn set_auto_launch(&mut self, enable: bool, registered: Option<bool>) -> (r: Result<
        (AutoLaunchAction, StoreOp),
        AutoLaunchError,
    >)
        ensures
            match registered {
                Some(now) => {
                    &&& final(self)@ == with_auto_launch(old(self)@, enable)
                    &&& r matches Ok(step)
                    &&& step.0 == launch_action(enable, now)
                    &&& step.1@ == (StoreWrite::Put {
                        key: SettingKey::AutoLaunch,
                        value: flag_bytes(enable),
                    })
                },
                None => {
                    &&& final(self)@ == old(self)@
                    &&& r matches Err(AutoLaunchError::Unavailable)
                },
            },
    {
        let now = match registered {
            Some(now) => now,
            None => {
                return Err(AutoLaunchError::Unavailable);
            },
        };
        let action = if enable {
            if now {
                AutoLaunchAction::Nothing
            } else {
                AutoLaunchAction::Enable
            }
        } else if now {
            AutoLaunchAction::Disable
        } else {
            AutoLaunchAction::Nothing
        };
        let op = self.storage_config.set_auto_launch(enable);
        Ok((action, op))
    }

    /// The directory to install under, from the executable's directory and
    /// the working directory as far as they could be found. `None` means
    /// that there is nowhere to install.
    pub fn current_dir(executable_dir: Option<String>, working_dir: Option<String>) -> (r: Option<
        String,
    >)
        ensures
            text_view(r) == install_root(text_view(executable_dir), text_view(working_dir)),
    {
        match executable_dir {
            Some(dir) => Some(dir),
            None => working_dir,
        }
    }

    /// The supervisor's log file, beside the installs.
    pub fn deploy_log_path(root: &str, os: Os) -> (r: String)
        ensures
            r@ == child_path(root@, "deploy.log"@, os),
    {
        join_path(root, "deploy.log", os)
    }
}

/// A port that is in the store is the port after a start, the start writes
/// nothing, and so the next start finds the same port.
pub proof fn stored_port_survives_restart(
    version: Seq<char>,
    store: StoreContents,
    port: u16,
)
    requires
        loaded(store).port == Some(port),
    ensures
        started(version, store).0.port == port,
        started(version, store).0.storage.port == Some(port),
        started(version, store).1 is None,
        written_if(store, started(version, store).1) == store,
        started(version, written_if(store, started(version, store).1)) == started(version, store),
{
}

/// A start on a store without a port takes the default, and once its write
/// has been carried out the store holds exactly the default port: the next
/// start reads it and writes nothing.
pub proof fn first_start_stores_default_port(version: Seq<char>, store: StoreContents)
    requires
        loaded(store).port is None,
    ensures
        started(version, store).0.port == DEFAULT_PORT,
        started(version, store).0.storage.port == Some(DEFAULT_PORT),
        ({
            let after = written_if(store, started(version, store).1);
            &&& after.contains_key(SettingKey::Port)
            &&& after[SettingKey::Port] == port_bytes(DEFAULT_PORT)
            &&& loaded(after).port == Some(DEFAULT_PORT)
            &&& started(version, after).0 == started(version, store).0
            &&& started(version, after).1 is None
        }),
{
    let after = written_if(store, started(version, store).1);
    assert(after == written(
        store,
        StoreWrite::Put { key: SettingKey::Port, value: port_bytes(DEFAULT_PORT) },
    ));
    crate::storage_config::load_sees_what_was_set(store, DEFAULT_PORT, true);
}

/// Setting the port changes the port that is read back and nothing that the
/// download address is made of.
pub proof fn port_does_not_move_download(config: ConfigState, port: u16, os: Os, arch: Arch)
    ensures
        with_port(config, port).port == port,
        with_port(config, port).storage.port == Some(port),
        download_url(with_port(config, port), os, arch) == download_url(config, os, arch),
{
}

/// Asking for auto-launch twice asks the operating system for nothing the
/// second time, provided the first request was carried out, and the intent
/// is recorded as set after each.
pub proof fn repeated_enable_is_idempotent(config: ConfigState, registered: bool)
    ensures
        launch_action(
            true,
            registered_after(launch_action(true, registered), registered),
        ) == AutoLaunchAction::Nothing,
        with_auto_launch(config, true).storage.auto_launch,
        with_auto_launch(with_auto_launch(config, true), true) == with_auto_launch(config, true),
{
}

/// Whatever is asked, carrying it out leaves the registration as intended,
/// and asking again asks for nothing.
pub proof fn launch_action_reaches_intent(enable: bool, registered: bool)
    ensures
        registered_after(launch_action(enable, registered), registered) == enable,
        launch_action(enable, enable) == AutoLaunchAction::Nothing,
{
}

} // verus!
