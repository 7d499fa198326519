//! The persisted settings store as this library sees it: four well-known
//! keys, each holding a few bytes, and the writes that keep it current.

use vstd::prelude::*;
use vstd::string::*;

verus! {

/// The keys under which settings are kept.
#[derive(Clone, Copy, Debug, PartialEq, Eq, Structural)]
pub enum SettingKey {
    Port,
    IsGithubDownload,
    AutoLaunch,
    Token,
}

/// What the store holds: the bytes under each key that is present.
pub type StoreContents = Map<SettingKey, Seq<u8>>;

/// The name of a key as it is written to the store.
pub open spec fn key_name(key: SettingKey) -> Seq<char> {
    match key {
        SettingKey::Port => "port"@,
        SettingKey::IsGithubDownload => "is_github_download"@,
        SettingKey::AutoLaunch => "auto_launch"@,
        SettingKey::Token => "token"@,
    }
}

/// A port is stored as two bytes, the high one first.
pub open spec fn port_bytes(port: u16) -> Seq<u8> {
    seq![(port / 256) as u8, (port % 256) as u8]
}

/// The port that stored bytes stand for, if they are two.
pub open spec fn bytes_port(bytes: Seq<u8>) -> Option<u16> {
    if bytes.len() == 2 {
        Some((bytes[0] as int * 256 + bytes[1] as int) as u16)
    } else {
        None
    }
}

/// A flag is stored as one byte, 1 for set and 0 for clear.
pub open spec fn flag_bytes(flag: bool) -> Seq<u8> {
    seq![if flag { 1u8 } else { 0u8 }]
}

/// The flag that stored bytes stand for, if they are one byte of 0 or 1.
pub open spec fn bytes_flag(bytes: Seq<u8>) -> Option<bool> {
    if bytes.len() == 1 && bytes[0] <= 1 {
        Some(bytes[0] == 1)
    } else {
        None
    }
}

/// A write to the store, as the library states it.
pub enum StoreWrite {
    Put { key: SettingKey, value: Seq<u8> },
    Remove { key: SettingKey },
}

/// The store after a write.
pub open spec fn written(store: StoreContents, write: StoreWrite) -> StoreContents {
    match write {
        StoreWrite::Put { key, value } => store.insert(key, value),
        StoreWrite::Remove { key } => store.remove(key),
    }
}

/// The store after a write that may be absent.
pub open spec fn written_if(store: StoreContents, write: Option<StoreWrite>) -> StoreContents {
    match write {
        Some(w) => written(store, w),
        None => store,
    }
}

/// A write for the program to carry out on the store.
#[derive(Clone, Debug, PartialEq, Eq)]
pub enum StoreOp {
    Put { key: SettingKey, value: Vec<u8> },
    Remove { key: SettingKey },
}

impl View for StoreOp {
    type V = StoreWrite;

    open spec fn view(&self) -> StoreWrite {
        match *self {
            StoreOp::Put { key, value } => StoreWrite::Put { key, value: value@ },
            StoreOp::Remove { key } => StoreWrite::Remove { key },
        }
    }
}

/// The views of an optional write.
pub open spec fn op_view(op: Option<StoreOp>) -> Option<StoreWrite> {
    match op {
        Some(o) => Some(o@),
        None => None,
    }
}

/// What was read from the store: the bytes under each key, `None` where
/// the key is absent.
#[derive(Clone, Debug, PartialEq, Eq)]
pub struct StoredSettings {
    pub port: Option<Vec<u8>>,
    pub is_github_download: Option<Vec<u8>>,
    pub auto_launch: Option<Vec<u8>>,
    pub token: Option<Vec<u8>>,
}

/// The view of optional bytes.
pub open spec fn bytes_view(bytes: Option<Vec<u8>>) -> Option<Seq<u8>> {
    match bytes {
        Some(b) => Some(b@),
        None => None,
    }
}

impl StoredSettings {
    /// The bytes under `key`, if any.
    pub open spec fn entry(self, key: SettingKey) -> Option<Seq<u8>> {
        match key {
            SettingKey::Port => bytes_view(self.port),
            SettingKey::IsGithubDownload => bytes_view(self.is_github_download),
            SettingKey::AutoLaunch => bytes_view(self.auto_launch),
            SettingKey::Token => bytes_view(self.token),
        }
    }

    /// A store that holds nothing.
    pub fn empty() -> (r: Self)
        ensures
            r@ == Map::<SettingKey, Seq<u8>>::empty(),
    {
        let r = StoredSettings { port: None, is_github_download: None, auto_launch: None, token: None };
        assert(r@ =~= Map::<SettingKey, Seq<u8>>::empty());
        r
    }

    /// Carries out a write on this copy of the store.
    pub fn apply(&mut self, op: StoreOp)
        ensures
            final(self)@ == written(old(self)@, op@),
    {
        let ghost before = *self;
        let ghost write = op@;
        let (key, value) = match op {
            StoreOp::Put { key, value } => (key, Some(value)),
            StoreOp::Remove { key } => (key, None),
        };
        match key {
            SettingKey::Port => {
                self.port = value;
            },
            SettingKey::IsGithubDownload => {
                self.is_github_download = value;
            },
            SettingKey::AutoLaunch => {
                self.auto_launch = value;
            },
            SettingKey::Token => {
                self.token = value;
            },
        }
        proof {
            assert forall|k: SettingKey| k != key implies self.entry(k) == before.entry(k) by {}
            assert(self.entry(key) == match write {
                StoreWrite::Put { key: _, value } => Some(value),
                StoreWrite::Remove { key: _ } => None::<Seq<u8>>,
            });
            assert(self@ =~= written(before@, write));
        }
    }
}

impl View for StoredSettings {
    type V = StoreContents;

    open spec fn view(&self) -> StoreContents {
        Map::new(|k: SettingKey| self.entry(k) is Some, |k: SettingKey| self.entry(k)->0)
    }
}

impl SettingKey {
    /// The key's name in the store.
    pub fn name(&self) -> (r: String)
        ensures
            r@ == key_name(*self),
    {
        match self {
            SettingKey::Port => String::from_str("port"),
            SettingKey::IsGithubDownload => String::from_str("is_github_download"),
            SettingKey::AutoLaunch => String::from_str("auto_launch"),
            SettingKey::Token => String::from_str("token"),
        }
    }
}

/// The bytes that stand for a port in the store.
pub fn encode_port(port: u16) -> (r: Vec<u8>)
    ensures
        r@ == port_bytes(port),
{
    let mut r: Vec<u8> = Vec::new();
    r.push((port / 256) as u8);
    r.push((port % 256) as u8);
    assert(r@ =~= port_bytes(port));
    r
}

/// Reads a port from stored bytes; `None` unless they are exactly two.
pub fn decode_port(bytes: &[u8]) -> (r: Option<u16>)
    ensures
        r == bytes_port(bytes@),
{
    if bytes.len() == 2 {
        let hi: u16 = bytes[0] as u16;
        let lo: u16 = bytes[1] as u16;
        Some(hi * 256 + lo)
    } else {
        None
    }
}

/// The byte that stands for a flag in the store.
pub fn encode_flag(flag: bool) -> (r: Vec<u8>)
    ensures
        r@ == flag_bytes(flag),
{
    let mut r: Vec<u8> = Vec::new();
    r.push(if flag { 1u8 } else { 0u8 });
    assert(r@ =~= flag_bytes(flag));
    r
}

/// Reads a flag from stored bytes; `None` unless they are one byte of 0 or 1.
pub fn decode_flag(bytes: &[u8]) -> (r: Option<bool>)
    ensures
        r == bytes_flag(bytes@),
{
    if bytes.len() == 1 && bytes[0] <= 1 {
        Some(bytes[0] == 1)
    } else {
        None
    }
}

/// Whether two byte strings are the same, byte for byte.
pub fn bytes_equal(a: &[u8], b: &[u8]) -> (r: bool)
    ensures
        r == (a@ == b@),
{
    if a.len() != b.len() {
        return false;
    }
    let mut i: usize = 0;
    while i < a.len()
        invariant
            a@.len() == b@.len(),
            i <= a@.len(),
            forall|j: int| 0 <= j < i ==> a@[j] == b@[j],
        decreases a@.len() - i,
    {
        if a[i] != b[i] {
            return false;
        }
        i += 1;
    }
    assert(a@ =~= b@);
    true
}

/// What was written as a port reads back as that port, and what was written
/// as a flag reads back as that flag.
pub proof fn encoding_round_trips(port: u16, flag: bool)
    ensures
        bytes_port(port_bytes(port)) == Some(port),
        bytes_flag(flag_bytes(flag)) == Some(flag),
{
}

/// A write changes the entry under its own key and no other.
pub proof fn write_touches_one_key(store: StoreContents, write: StoreWrite, other: SettingKey)
    requires
        other != (match write {
            StoreWrite::Put { key, value: _ } => key,
            StoreWrite::Remove { key } => key,
        }),
    ensures
        written(store, write).contains_key(other) == store.contains_key(other),
        store.contains_key(other) ==> written(store, write)[other] == store[other],
{
}

} // verus!
