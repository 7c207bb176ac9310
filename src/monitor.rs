use vstd::prelude::*;

use crate::log_path::{generate_log_dir, generate_log_path, log_dir_of, log_path_of, LOG_SUFFIX};
use crate::relay::StreamRelay;
use crate::rootfs::Rootfs;
use crate::store::{
    apply_status_update, apply_upsert, record_key, SandboxRecord, SandboxStatus, StatusUpdate,
    StoreModel,
};
use crate::terminal::TerminalGuard;

verus! {

/// A point in time as seconds and nanoseconds since the Unix epoch (UTC):
/// the last-modified time of a config file, carried through to the store.
#[derive(PartialEq, Eq, Structural, Clone, Copy, Debug)]
pub struct Timestamp {
    pub secs: i64,
    pub nanos: u32,
}

/// Terminal settings of the controlling terminal, kept across a session.
#[verifier::external_type_specification]
#[verifier::external_body]
pub struct ExTermios(nix::sys::termios::Termios);

/// The monitor of one MicroVM: the sandbox's static metadata and the state
/// that `start` and `stop` move between idle and monitoring.
pub struct MicroVmMonitor {
    pub sandbox_name: String,
    pub config_file: String,
    pub config_last_modified: Timestamp,
    pub supervisor_pid: u32,
    /// The log path of the running session; present exactly while monitoring.
    pub log_path: Option<String>,
    pub log_dir: String,
    pub rootfs: Rootfs,
    /// Terminal settings from before a TTY session made the terminal raw.
    pub terminal: TerminalGuard<nix::sys::termios::Termios>,
    /// Whether child output is echoed to the parent's stdout / stderr.
    pub forward_output: bool,
}

/// What `start` needs before it dispatches the relays: the directory to
/// create, the log to open, and the record to upsert.
pub struct StartPlan {
    pub log_dir: String,
    pub log_path: String,
    pub record: SandboxRecord,
}

impl MicroVmMonitor {
    pub open spec fn is_monitoring(&self) -> bool {
        self.log_path is Some
    }

    /// The store key of this sandbox.
    pub open spec fn key(&self) -> (Seq<char>, Seq<char>) {
        (self.sandbox_name@, self.config_file@)
    }

    pub open spec fn spec_log_path(&self) -> Seq<char> {
        log_path_of(self.log_dir@, self.config_file@, self.sandbox_name@, LOG_SUFFIX@)
    }

    /// `r` is the running-state record of this sandbox with MicroVM `pid`.
    pub open spec fn is_running_record(&self, r: SandboxRecord, pid: u32) -> bool {
        &&& r.name@ == self.sandbox_name@
        &&& r.config_file@ == self.config_file@
        &&& r.config_last_modified == self.config_last_modified
        &&& r.status == SandboxStatus::Running
        &&& r.supervisor_pid == self.supervisor_pid
        &&& r.microvm_pid == pid
        &&& r.rootfs@ == self.rootfs.descriptor()
    }

    /// `u` marks this sandbox's record stopped.
    pub open spec fn is_stop_update(&self, u: StatusUpdate) -> bool {
        &&& u.name@ == self.sandbox_name@
        &&& u.config_file@ == self.config_file@
        &&& u.status == SandboxStatus::Stopped
    }

    /// Every field but the session state is the same in `self` and `o`.
    pub open spec fn same_metadata(&self, o: &MicroVmMonitor) -> bool {
        &&& self.sandbox_name == o.sandbox_name
        &&& self.config_file == o.config_file
        &&& self.config_last_modified == o.config_last_modified
        &&& self.supervisor_pid == o.supervisor_pid
        &&& self.log_dir == o.log_dir
        &&& self.rootfs == o.rootfs
        &&& self.forward_output == o.forward_output
    }

    /// Creates an idle monitor.
    pub fn new(
        supervisor_pid: u32,
        sandbox_name: String,
        config_file: String,
        config_last_modified: Timestamp,
        log_dir: String,
        rootfs: Rootfs,
        forward_output: bool,
    ) -> (r: MicroVmMonitor)
        ensures
            r.supervisor_pid == supervisor_pid,
            r.sandbox_name == sandbox_name,
            r.config_file == config_file,
            r.config_last_modified == config_last_modified,
            r.log_dir == log_dir,
            r.rootfs == rootfs,
            r.forward_output == forward_output,
            !r.is_monitoring(),
            r.terminal.snapshot is None,
    {
        MicroVmMonitor {
            sandbox_name,
            config_file,
            config_last_modified,
            supervisor_pid,
            log_path: None,
            log_dir,
            rootfs,
            terminal: TerminalGuard::new(),
            forward_output,
        }
    }

    /// Computes what `start` prepares for MicroVM `pid`: the log directory
    /// `<log_dir>/<config_file>`, the log path inside it, and the running
    /// record with both pids and the rootfs descriptor.
    pub fn plan_start(&self, pid: u32) -> (p: StartPlan)
        ensures
            p.log_dir@ == log_dir_of(self.log_dir@, self.config_file@),
            p.log_path@ == self.spec_log_path(),
            self.is_running_record(p.record, pid),
    {
        let log_dir = generate_log_dir(self.log_dir.as_str(), self.config_file.as_str());
        let log_path = generate_log_path(
            self.log_dir.as_str(),
            self.config_file.as_str(),
            self.sandbox_name.as_str(),
            LOG_SUFFIX,
        );
        let record = SandboxRecord {
            name: self.sandbox_name.clone(),
            config_file: self.config_file.clone(),
            config_last_modified: self.config_last_modified,
            status: SandboxStatus::Running,
            supervisor_pid: self.supervisor_pid,
            microvm_pid: pid,
            rootfs: self.rootfs.to_descriptor(),
        };
        StartPlan { log_dir, log_path, record }
    }

    /// Enters monitoring once the log at `log_path` is open; a monitor is
    /// started once between stops.
    pub fn on_log_opened(&mut self, log_path: String)
        requires
            !old(self).is_monitoring(),
        ensures
            final(self).log_path == Some(log_path),
            final(self).same_metadata(old(self)),
            final(self).terminal == old(self).terminal,
    {
        self.log_path = Some(log_path);
    }

    /// Keeps the terminal settings from before a TTY session made the
    /// terminal raw; they are captured once per session.
    pub fn capture_terminal(&mut self, settings: nix::sys::termios::Termios)
        requires
            old(self).terminal.snapshot is None,
        ensures
            final(self).terminal.snapshot == Some(settings),
            final(self).log_path == old(self).log_path,
            final(self).same_metadata(old(self)),
    {
        self.terminal.capture(settings);
    }

    /// Hands back the kept terminal settings for restoration, at most once:
    /// on `stop`, on teardown, or on whichever comes first.
    pub fn release_terminal(&mut self) -> (r: Option<nix::sys::termios::Termios>)
        ensures
            r == old(self).terminal.snapshot,
            final(self).terminal.snapshot is None,
            final(self).log_path == old(self).log_path,
            final(self).same_metadata(old(self)),
    {
        self.terminal.release()
    }

    /// The update that `stop` sends to the store.
    pub fn stop_update(&self) -> (u: StatusUpdate)
        ensures
            self.is_stop_update(u),
    {
        StatusUpdate {
            name: self.sandbox_name.clone(),
            config_file: self.config_file.clone(),
            status: SandboxStatus::Stopped,
        }
    }

    /// Leaves monitoring once the store marks the sandbox stopped.
    pub fn on_stopped(&mut self)
        ensures
            !final(self).is_monitoring(),
            final(self).terminal == old(self).terminal,
            final(self).same_metadata(old(self)),
    {
        self.log_path = None;
    }

    /// The relay state of one output stream of this sandbox.
    pub fn new_relay(&self) -> (r: StreamRelay)
        ensures
            r.wf(),
            r.forward_output == self.forward_output,
            !r.finished,
            r.logged@.len() == 0,
            r.forwarded@.len() == 0,
    {
        StreamRelay::new(self.forward_output)
    }
}

/// After a successful start the store holds one record under the sandbox's
/// key, running, with the supplied pids and rootfs descriptor, and no other
/// record changes; after the stop that follows, the same record is stopped,
/// keeps its pids, and no record is created.
pub proof fn lemma_start_then_stop(
    store: StoreModel,
    m: MicroVmMonitor,
    pid: u32,
    rec: SandboxRecord,
    upd: StatusUpdate,
)
    requires
        m.is_running_record(rec, pid),
        m.is_stop_update(upd),
    ensures
        ({
            let k = m.key();
            let started = apply_upsert(store, rec);
            let stopped = apply_status_update(started, upd);
            &&& started.dom() == store.dom().insert(k)
            &&& started[k].status == SandboxStatus::Running
            &&& started[k].supervisor_pid == m.supervisor_pid
            &&& started[k].microvm_pid == pid
            &&& started[k].rootfs@ == m.rootfs.descriptor()
            &&& forall|j| j != k && #[trigger] store.contains_key(j) ==> started[j] == store[j]
            &&& stopped.dom() == started.dom()
            &&& stopped[k].status == SandboxStatus::Stopped
            &&& stopped[k].supervisor_pid == m.supervisor_pid
            &&& stopped[k].microvm_pid == pid
            &&& stopped[k].rootfs == started[k].rootfs
            &&& forall|j| j != k && #[trigger] started.contains_key(j) ==> stopped[j] == started[j]
        }),
{
    let k = m.key();
    assert(record_key(rec) == k);
    let started = apply_upsert(store, rec);
    assert(started.contains_key(k));
    assert(started.dom() =~= store.dom().insert(k));
    let stopped = apply_status_update(started, upd);
    assert(stopped.dom() =~= started.dom());
}

} // verus!
