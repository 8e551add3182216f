//! Host catalog document model (`hosts.json`).

use vstd::prelude::*;

use crate::host::Host;
use crate::store::envelope::Schema;
use crate::text::strs_view;

verus! {

pub const SCHEMA: Schema = Schema::Hosts;
pub const CURRENT_VERSION: u32 = 1;

/// Stored kind of a host.
#[derive(Debug, Clone, Copy, PartialEq, Eq, Structural)]
pub enum HostKind {
    Local,
    Remote,
}

impl Default for HostKind {
    fn default() -> (k: Self)
        ensures
            k == HostKind::Local,
    {
        HostKind::Local
    }
}

/// A stored host.
#[derive(Debug, Clone, PartialEq, Eq)]
pub struct HostRecord {
    pub key: String,
    pub name: String,
    pub kind: HostKind,
    pub ssh_target: Option<String>,
    pub daemon_binary_path: Option<String>,
    pub labels: Vec<String>,
}

/// All stored hosts.
#[derive(Debug, Clone, PartialEq, Eq)]
pub struct HostCatalog {
    pub hosts: Vec<HostRecord>,
}

impl Default for HostCatalog {
    fn default() -> (c: Self)
        ensures
            c.hosts@.len() == 0,
    {
        HostCatalog { hosts: Vec::new() }
    }
}

impl HostRecord {
    /// The host a record describes.
    pub fn into_host(self) -> (h: Host)
        ensures
            h.key == self.key,
            h.name == self.name,
            h.kind == match self.kind {
                HostKind::Local => crate::host::HostKind::Local,
                HostKind::Remote => crate::host::HostKind::Remote,
            },
            h.ssh_target == self.ssh_target,
    {
        Host {
            key: self.key,
            name: self.name,
            kind: match self.kind {
                HostKind::Local => crate::host::HostKind::Local,
                HostKind::Remote => crate::host::HostKind::Remote,
            },
            ssh_target: self.ssh_target,
        }
    }

    /// The record for a host: no daemon path and no labels.
    pub fn from_host(host: &Host) -> (r: Self)
        ensures
            r.key == host.key,
            r.name == host.name,
            r.kind == match host.kind {
                crate::host::HostKind::Local => HostKind::Local,
                crate::host::HostKind::Remote => HostKind::Remote,
            },
            r.ssh_target == host.ssh_target,
            r.daemon_binary_path is None,
            r.labels@.len() == 0,
    {
        HostRecord {
            key: host.key.clone(),
            name: host.name.clone(),
            kind: match host.kind {
                crate::host::HostKind::Local => HostKind::Local,
                crate::host::HostKind::Remote => HostKind::Remote,
            },
            ssh_target: match &host.ssh_target {
                Some(t) => Some(t.clone()),
                None => None,
            },
            daemon_binary_path: None,
            labels: Vec::new(),
        }
    }
}

} // verus!
