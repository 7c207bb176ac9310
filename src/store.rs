use vstd::prelude::*;

use crate::monitor::Timestamp;

verus! {

/// The status text of a running sandbox.
pub const SANDBOX_STATUS_RUNNING: &'static str = "RUNNING";

/// The status text of a stopped sandbox.
pub const SANDBOX_STATUS_STOPPED: &'static str = "STOPPED";

/// The lifecycle status kept in a sandbox's record.
#[derive(PartialEq, Eq, Structural, Clone, Copy, Debug)]
pub enum SandboxStatus {
    Running,
    Stopped,
}

impl SandboxStatus {
    pub open spec fn text(&self) -> Seq<char> {
        match self {
            SandboxStatus::Running => SANDBOX_STATUS_RUNNING@,
            SandboxStatus::Stopped => SANDBOX_STATUS_STOPPED@,
        }
    }

    /// The status literal that the store keeps.
    pub fn as_str(&self) -> (r: &'static str)
        ensures
            r@ == self.text(),
    {
        match self {
            SandboxStatus::Running => SANDBOX_STATUS_RUNNING,
            SandboxStatus::Stopped => SANDBOX_STATUS_STOPPED,
        }
    }
}

/// The values that an upsert writes into the store for one sandbox.
pub struct SandboxRecord {
    pub name: String,
    pub config_file: String,
    pub config_last_modified: Timestamp,
    pub status: SandboxStatus,
    pub supervisor_pid: u32,
    pub microvm_pid: u32,
    pub rootfs: String,
}

/// A change of status for the record keyed by (name, config file).
pub struct StatusUpdate {
    pub name: String,
    pub config_file: String,
    pub status: SandboxStatus,
}

/// The store's records, keyed by (sandbox name, config file).
pub type StoreModel = Map<(Seq<char>, Seq<char>), SandboxRecord>;

pub open spec fn record_key(r: SandboxRecord) -> (Seq<char>, Seq<char>) {
    (r.name@, r.config_file@)
}

/// An upsert: the record replaces any record under its key, or is added.
pub open spec fn apply_upsert(store: StoreModel, r: SandboxRecord) -> StoreModel {
    store.insert(record_key(r), r)
}

/// A status update: the record under the key, if there is one, gets the new
/// status and keeps all else; no record is created.
pub open spec fn apply_status_update(store: StoreModel, u: StatusUpdate) -> StoreModel {
    let k = (u.name@, u.config_file@);
    if store.contains_key(k) {
        let old_rec = store[k];
        store.insert(
            k,
            SandboxRecord {
                name: old_rec.name,
                config_file: old_rec.config_file,
                config_last_modified: old_rec.config_last_modified,
                status: u.status,
                supervisor_pid: old_rec.supervisor_pid,
                microvm_pid: old_rec.microvm_pid,
                rootfs: old_rec.rootfs,
            },
        )
    } else {
        store
    }
}

} // verus!
