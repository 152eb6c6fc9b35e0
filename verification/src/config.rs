//! The configuration surface the pipeline consumes, as plain values:
//! storage backend descriptors, the download settings, and the optional
//! classifier settings.

use vstd::prelude::*;

verus! {

/// Which flavour of the cloud-drive API a backend speaks.
#[derive(Clone, Copy, PartialEq, Eq, Debug)]
pub enum OnedriveApiType {
    Organizations,
    Consumers,
}

/// How a WebDAV backend authenticates.
#[derive(Clone, PartialEq, Eq, Debug)]
pub enum WebdavAuth {
    Basic { username: String, password: String },
    Digest { username: String, password: String },
    Anonymous,
}

/// One configured storage backend.
#[derive(Clone, PartialEq, Eq, Debug)]
pub enum Storage {
    Local { root: String },
    Onedrive {
        name: String,
        client_id: String,
        client_secret: String,
        root: String,
        api_type: OnedriveApiType,
    },
    Webdav { name: String, url: String, auth: WebdavAuth },
}

/// The transfer-engine and worker settings. Durations are held in seconds.
#[derive(Clone, PartialEq, Eq, Debug)]
pub struct Download {
    /// Where the engine writes payloads while they download.
    pub tmp_dir: String,
    /// Whether the engine should try to forward its port.
    pub upnp: bool,
    /// The engine's listen port.
    pub download_port: u16,
    /// How many workers consume the queue.
    pub threads: u16,
    /// How long a completed transfer keeps seeding; zero pauses it at
    /// once.
    pub seed_seconds: u64,
    /// The cap a submission or transfer races against.
    pub max_download_seconds: u64,
}

/// The classifier settings.
#[derive(Clone, PartialEq, Eq, Debug)]
pub struct Llama {
    pub model: String,
    pub url: String,
    pub token: String,
}

/// Everything the pipeline is configured with.
#[derive(Clone, PartialEq, Eq, Debug)]
pub struct Settings {
    pub storage: Vec<Storage>,
    pub subscribe: String,
    pub download: Download,
    pub proxy: Option<String>,
    pub llama: Option<Llama>,
}

} // verus!
