//! The facts a session is loaded from: the local client's lockfile
//! credentials, the account id, the client version, and the region/shard
//! routing pair.
//!
//! Discovering these (reading the lockfile and logs, calling the local
//! client) is outside the library's scope; these are the plain shapes that
//! discovery fills in and that a [`crate::SessionContext`] is assembled
//! from.

use vstd::prelude::*;

verus! {

/// Port and password of the locally running client, as read from its
/// lockfile.
#[derive(Debug, Clone, Default)]
pub struct Lockfile {
    pub port: String,
    pub password: String,
}

/// The account's stable player id.
#[derive(Debug, Clone, Default)]
pub struct UserId {
    pub puuid: String,
}

/// The hosting application block of the local client's session report.
#[derive(Debug, Clone, Default)]
pub struct HostApp {
    pub host_app: ValClient,
}

/// The local client's version string.
#[derive(Debug, Clone, Default)]
pub struct ValClient {
    pub version: String,
}

/// The token pair as the local client reports it.
#[derive(Debug, Clone, Default)]
pub struct Authorization {
    pub access_token: String,
    pub token: String,
}

/// Which step of session loading failed.
#[derive(Debug, Clone, Copy, PartialEq, Eq, Structural)]
pub enum LoaderError {
    Auth,
    PortPassword,
    RegionShard,
    ClientVersion,
    PlayerInfo,
    NotLoaded,
}

} // verus!
