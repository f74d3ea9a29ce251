//! What a connection opens, decided from the options given to `connect`.
use vstd::prelude::*;
use crate::error::DriverError;
use crate::policy::{starts_with, has_prefix};

verus! {

/// Whether a database location names a networked engine: it begins with
/// `libsql://`, `http://` or `https://`.
pub open spec fn is_remote_spec(path: Seq<char>) -> bool {
    has_prefix(path, "libsql://"@) || has_prefix(path, "http://"@) || has_prefix(path, "https://"@)
}

/// Whether a database location names a networked engine.
pub fn is_remote_path(path: &str) -> (r: bool)
    ensures
        r == is_remote_spec(path@),
{
    starts_with(path, "libsql://") || starts_with(path, "http://") || starts_with(path, "https://")
}

/// The options of `connect` that decide what is opened. Durations stay with
/// the caller, which applies them to what is opened.
#[derive(Clone, Debug)]
pub struct OpenOptions {
    pub database: String,
    pub sync_url: Option<String>,
    pub offline: bool,
    pub auth_token: Option<String>,
    pub encryption_key: Option<String>,
}

/// What to open.
#[derive(Clone, Debug, PartialEq, Eq)]
pub enum OpenPlan {
    /// A networked engine at `url`.
    Remote { url: String, auth_token: String },
    /// A local replica at `path` kept in sync with `sync_url`.
    Synced { path: String, sync_url: String, auth_token: String, remote_writes: bool },
    /// A local database file, encrypted when a key is given.
    Local { path: String, encryption_key: Option<String> },
}

/// The auth token sent to the engine: empty when none is given.
pub open spec fn token_spec(t: Option<String>) -> Seq<char> {
    match t {
        Some(s) => s@,
        None => Seq::empty(),
    }
}

/// The message of the configuration error for an encrypted synced database.
pub open spec fn encrypted_sync_message() -> Seq<char> {
    "encryption is not supported for synced databases"@
}

/// Decides what `connect` opens. A remote location ignores the sync and
/// encryption options; a sync URL with an encryption key is refused; a missing
/// auth token is the empty string.
pub fn plan_open(opts: &OpenOptions) -> (r: Result<OpenPlan, DriverError>)
    ensures
        is_remote_spec(opts.database@) ==> (r matches Ok(OpenPlan::Remote { url, auth_token })
            && url@ == opts.database@ && auth_token@ == token_spec(opts.auth_token)),
        !is_remote_spec(opts.database@) && opts.sync_url.is_some()
            && opts.encryption_key.is_some() ==> (r matches Err(DriverError::Configuration(m))
            && m@ == encrypted_sync_message()),
        !is_remote_spec(opts.database@) && opts.sync_url.is_some()
            && opts.encryption_key.is_none() ==> (r matches Ok(
            OpenPlan::Synced { path, sync_url, auth_token, remote_writes },
        ) && path@ == opts.database@ && sync_url@ == opts.sync_url.unwrap()@ && auth_token@
            == token_spec(opts.auth_token) && remote_writes == !opts.offline),
        !is_remote_spec(opts.database@) && opts.sync_url.is_none() ==> (r matches Ok(
            OpenPlan::Local { path, encryption_key },
        ) && path@ == opts.database@ && match (encryption_key, opts.encryption_key) {
            (Some(k), Some(o)) => k@ == o@,
            (None, None) => true,
            _ => false,
        }),
{
    let auth_token = match &opts.auth_token {
        Some(t) => t.clone(),
        None => String::new(),
    };
    if is_remote_path(opts.database.as_str()) {
        return Ok(OpenPlan::Remote { url: opts.database.clone(), auth_token });
    }
    match &opts.sync_url {
        Some(sync_url) => {
            if opts.encryption_key.is_some() {
                return Err(
                    DriverError::Configuration(
                        String::from_str("encryption is not supported for synced databases"),
                    ),
                );
            }
            Ok(
                OpenPlan::Synced {
                    path: opts.database.clone(),
                    sync_url: sync_url.clone(),
                    auth_token,
                    remote_writes: !opts.offline,
                },
            )
        },
        None => {
            let encryption_key = match &opts.encryption_key {
                Some(k) => Some(k.clone()),
                None => None,
            };
            Ok(OpenPlan::Local { path: opts.database.clone(), encryption_key })
        },
    }
}

} // verus!
