//! The settings that outlive the process, loaded from the store and kept in
//! step with it: every setter hands back the write that makes the store
//! current.

use vstd::prelude::*;
use crate::cli::Port;
use crate::store::{
    bytes_flag, bytes_port, bytes_view, decode_flag, decode_port, encode_flag, encode_port,
    flag_bytes, port_bytes, written, SettingKey, StoreContents, StoreOp, StoreWrite,
    StoredSettings,
};

verus! {

/// What a [`StorageConfig`] holds.
pub struct StoredState {
    pub port: Option<u16>,
    pub is_github_download: bool,
    pub auto_launch: bool,
    pub token: Option<Seq<u8>>,
}

/// The flag under `key`, or `default` where the key is absent or its bytes
/// are no flag.
pub open spec fn flag_or(store: StoreContents, key: SettingKey, default: bool) -> bool {
    if store.contains_key(key) && bytes_flag(store[key]) is Some {
        bytes_flag(store[key])->0
    } else {
        default
    }
}

/// The settings that a store's contents stand for. A key that is absent, or
/// whose bytes cannot be read, leaves its setting at the default: no port,
/// the official release host, auto-launch on, no token.
pub open spec fn loaded(store: StoreContents) -> StoredState {
    StoredState {
        port: if store.contains_key(SettingKey::Port) {
            bytes_port(store[SettingKey::Port])
        } else {
            None
        },
        is_github_download: flag_or(store, SettingKey::IsGithubDownload, true),
        auto_launch: flag_or(store, SettingKey::AutoLaunch, true),
        token: if store.contains_key(SettingKey::Token) {
            Some(store[SettingKey::Token])
        } else {
            None
        },
    }
}

/// The persisted settings, as the running process knows them.
#[derive(Clone, Debug)]
pub struct StorageConfig {
    port: Option<u16>,
    is_github_download: bool,
    auto_launch: bool,
    token: Option<Vec<u8>>,
}

impl View for StorageConfig {
    type V = StoredState;

    closed spec fn view(&self) -> StoredState {
        StoredState {
            port: self.port,
            is_github_download: self.is_github_download,
            auto_launch: self.auto_launch,
            token: bytes_view(self.token),
        }
    }
}

fn read_flag(bytes: &Option<Vec<u8>>, default: bool) -> (r: bool)
    ensures
        r == match bytes_view(*bytes) {
            Some(b) => if bytes_flag(b) is Some { bytes_flag(b)->0 } else { default },
            None => default,
        },
{
    match bytes {
        Some(b) => match decode_flag(b.as_slice()) {
            Some(flag) => flag,
            None => default,
        },
        None => default,
    }
}

impl StorageConfig {
    /// Loads the settings from what the store holds.
    pub fn new(stored: &StoredSettings) -> (r: Self)
        ensures
            r@ == loaded(stored@),
    {
        let port = match &stored.port {
            Some(b) => decode_port(b.as_slice()),
            None => None,
        };
        let token = match &stored.token {
            Some(t) => Some(t.clone()),
            None => None,
        };
        StorageConfig {
            port,
            is_github_download: read_flag(&stored.is_github_download, true),
            auto_launch: read_flag(&stored.auto_launch, true),
            token,
        }
    }

    /// The stored port, if one has been chosen.
    pub fn get_port(&self) -> (r: Option<u16>)
        ensures
            r == self@.port,
    {
        self.port
    }

    /// Remembers the port and returns the write that stores it.
    pub fn set_port(&mut self, port: Port) -> (op: StoreOp)
        ensures
            final(self)@ == (StoredState { port: Some(port.value()), ..old(self)@ }),
            op@ == (StoreWrite::Put { key: SettingKey::Port, value: port_bytes(port.value()) }),
    {
        self.port = Some(port.get_value());
        StoreOp::Put { key: SettingKey::Port, value: encode_port(port.get_value()) }
    }

    /// Whether downloads come from the official release host.
    pub fn get_is_github_download(&self) -> (r: bool)
        ensures
            r == self@.is_github_download,
    {
        self.is_github_download
    }

    /// Remembers the download source and returns the write that stores it.
    pub fn set_is_github_download(&mut self, is_github_download: bool) -> (op: StoreOp)
        ensures
            final(self)@ == (StoredState { is_github_download, ..old(self)@ }),
            op@ == (StoreWrite::Put {
                key: SettingKey::IsGithubDownload,
                value: flag_bytes(is_github_download),
            }),
    {
        self.is_github_download = is_github_download;
        StoreOp::Put { key: SettingKey::IsGithubDownload, value: encode_flag(is_github_download) }
    }

    /// Whether the supervisor is meant to start at login.
    pub fn get_auto_launch(&self) -> (r: bool)
        ensures
            r == self@.auto_launch,
    {
        self.auto_launch
    }

    /// Remembers the auto-launch intent and returns the write that stores it.
    pub fn set_auto_launch(&mut self, enable: bool) -> (op: StoreOp)
        ensures
            final(self)@ == (StoredState { auto_launch: enable, ..old(self)@ }),
            op@ == (StoreWrite::Put { key: SettingKey::AutoLaunch, value: flag_bytes(enable) }),
    {
        self.auto_launch = enable;
        StoreOp::Put { key: SettingKey::AutoLaunch, value: encode_flag(enable) }
    }

    /// The token that was in the store when the settings were loaded.
    pub fn get_token(&self) -> (r: Option<Vec<u8>>)
        ensures
            bytes_view(r) == self@.token,
    {
        match &self.token {
            Some(t) => Some(t.clone()),
            None => None,
        }
    }
}

/// Loading reads each setting from its own key: after a setter's write has
/// reached the store, a fresh load sees the value that was set and leaves
/// the other settings as they were.
pub proof fn load_sees_what_was_set(store: StoreContents, port: u16, flag: bool)
    ensures
        loaded(
            written(store, StoreWrite::Put { key: SettingKey::Port, value: port_bytes(port) }),
        ) == (StoredState { port: Some(port), ..loaded(store) }),
        loaded(
            written(
                store,
                StoreWrite::Put { key: SettingKey::IsGithubDownload, value: flag_bytes(flag) },
            ),
        ) == (StoredState { is_github_download: flag, ..loaded(store) }),
        loaded(
            written(store, StoreWrite::Put { key: SettingKey::AutoLaunch, value: flag_bytes(flag) }),
        ) == (StoredState { auto_launch: flag, ..loaded(store) }),
{
}

} // verus!
