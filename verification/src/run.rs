//! The launcher's lifecycle planning: validating a configuration and
//! the environment before any side effect, assembling the sidecar and
//! hypervisor commands, and deciding the readiness wait.
//!
//! Everything here is pure: the unverified driver probes the
//! environment and the filesystem, hands the facts in, performs the
//! planned effects, and reports events back. Errors raised here are
//! raised before any side effect; once the driver has acquired a
//! resource, later errors trip the shutdown latch and the full
//! teardown of `crate::teardown` runs.

use vstd::prelude::*;
use vstd::string::StringExecFns;
use crate::command::{
    gpu_command, share_socket, spec_gpu_argv, spec_gpu_socket, spec_hypervisor_argv,
    spec_share_socket, spec_virtiofsd_argv, hypervisor_command, virtiofsd_command,
};
use crate::config::Config;
use crate::config::Share;
use crate::disk::DiskImageError;
use crate::ident::{check_is_valid_identifier, is_valid_identifier, IdentifierValidationError};
use crate::requests::RequestError;

verus! {

/// Everything that can go wrong in a run, by kind: missing environment,
/// validation, daemon IPC, subprocess lifecycle, filesystem bookkeeping
/// and disk provisioning. String payloads carry the reported cause.
#[derive(Debug)]
pub enum VmError {
    UserEnvUnavailable,
    XDGRuntimeDirEnvUnavailable,
    WaylandSocketEnvUnavailable,
    XDGRuntimeDirUnavailable,
    WaylandSocketUnavailable,
    DaemonRequest(RequestError),
    FailedToSpawnVMProcess(String),
    FailedToKillVMProcess(String),
    FailedToWaitOnVMProcess(String),
    FailedToSpawnSupportProcess(String),
    FailedToKillSupportProcess(String),
    FailedToWaitOnSupportProcess(String),
    FailedToCreateVmDir(String),
    FailedToDeleteVmDir(String),
    FailedToCheckForSupportSocket(String),
    InvalidKernelPath,
    InvalidInitRDPath,
    InvalidShareTag(IdentifierValidationError),
    InvalidShareSource(String),
    InvalidDiskTag(IdentifierValidationError),
    InvalidDiskSource(String),
    FailedToCreateDisk(DiskImageError),
}

impl VmError {
    /// The single descriptive line reported on stderr.
    pub open spec fn spec_message(&self) -> Seq<char> {
        match self {
            VmError::UserEnvUnavailable => "cannot read environment variable USER to determine current user"@,
            VmError::XDGRuntimeDirEnvUnavailable => "cannot read environment variable XDG_RUNTIME_DIR to determine runtime dir"@,
            VmError::WaylandSocketEnvUnavailable => "cannot read environment variable WAYLAND_DISPLAY to determine wayland socket"@,
            VmError::XDGRuntimeDirUnavailable => "xdg runtime dir unavailable"@,
            VmError::WaylandSocketUnavailable => "wayland socket unavailable"@,
            VmError::DaemonRequest(e) => "error while talking to daemon: "@ + e.spec_message(),
            VmError::FailedToSpawnVMProcess(s) => "failed to spawn vm process: "@ + s@,
            VmError::FailedToKillVMProcess(s) => "failed to kill vm process: "@ + s@,
            VmError::FailedToWaitOnVMProcess(s) => "failed to wait on vm process: "@ + s@,
            VmError::FailedToSpawnSupportProcess(s) => "failed to spawn support process: "@ + s@,
            VmError::FailedToKillSupportProcess(s) => "failed to kill support process: "@ + s@,
            VmError::FailedToWaitOnSupportProcess(s) => "failed to wait on support process: "@
                + s@,
            VmError::FailedToCreateVmDir(s) => "failed to create vm dir: "@ + s@,
            VmError::FailedToDeleteVmDir(s) => "failed to delete vm dir: "@ + s@,
            VmError::FailedToCheckForSupportSocket(s) => "failed to check for support socket: "@
                + s@,
            VmError::InvalidKernelPath => "invalid kernel path"@,
            VmError::InvalidInitRDPath => "invalid initrd path"@,
            VmError::InvalidShareTag(e) => "invalid share tag: "@ + e.spec_message(),
            VmError::InvalidShareSource(s) => "invalid share source: "@ + s@,
            VmError::InvalidDiskTag(e) => "invalid disk tag: "@ + e.spec_message(),
            VmError::InvalidDiskSource(s) => "invalid disk source: "@ + s@,
            VmError::FailedToCreateDisk(e) => match e {
                DiskImageError::SizeOutOfRange => "failed to create disk: size out of range"@,
                DiskImageError::Format(_) => "failed to create disk"@,
            },
        }
    }

    /// Renders the single descriptive line reported on stderr.
    pub fn message(&self) -> (m: String)
        ensures
            m@ == self.spec_message(),
    {
        match self {
            VmError::UserEnvUnavailable => String::from_str(
                "cannot read environment variable USER to determine current user",
            ),
            VmError::XDGRuntimeDirEnvUnavailable => String::from_str(
                "cannot read environment variable XDG_RUNTIME_DIR to determine runtime dir",
            ),
            VmError::WaylandSocketEnvUnavailable => String::from_str(
                "cannot read environment variable WAYLAND_DISPLAY to determine wayland socket",
            ),
            VmError::XDGRuntimeDirUnavailable => String::from_str("xdg runtime dir unavailable"),
            VmError::WaylandSocketUnavailable => String::from_str("wayland socket unavailable"),
            VmError::DaemonRequest(e) => {
                let mut m = String::from_str("error while talking to daemon: ");
                let t = e.message();
                m.append(t.as_str());
                m
            }
            VmError::FailedToSpawnVMProcess(s) => {
                let mut m = String::from_str("failed to spawn vm process: ");
                m.append(s.as_str());
                m
            }
            VmError::FailedToKillVMProcess(s) => {
                let mut m = String::from_str("failed to kill vm process: ");
                m.append(s.as_str());
                m
            }
            VmError::FailedToWaitOnVMProcess(s) => {
                let mut m = String::from_str("failed to wait on vm process: ");
                m.append(s.as_str());
                m
            }
            VmError::FailedToSpawnSupportProcess(s) => {
                let mut m = String::from_str("failed to spawn support process: ");
                m.append(s.as_str());
                m
            }
            VmError::FailedToKillSupportProcess(s) => {
                let mut m = String::from_str("failed to kill support process: ");
                m.append(s.as_str());
                m
            }
            VmError::FailedToWaitOnSupportProcess(s) => {
                let mut m = String::from_str("failed to wait on support process: ");
                m.append(s.as_str());
                m
            }
            VmError::FailedToCreateVmDir(s) => {
                let mut m = String::from_str("failed to create vm dir: ");
                m.append(s.as_str());
                m
            }
            VmError::FailedToDeleteVmDir(s) => {
                let mut m = String::from_str("failed to delete vm dir: ");
                m.append(s.as_str());
                m
            }
            VmError::FailedToCheckForSupportSocket(s) => {
                let mut m = String::from_str("failed to check for support socket: ");
                m.append(s.as_str());
                m
            }
            VmError::InvalidKernelPath => String::from_str("invalid kernel path"),
            VmError::InvalidInitRDPath => String::from_str("invalid initrd path"),
            VmError::InvalidShareTag(e) => {
                let mut m = String::from_str("invalid share tag: ");
                let t = e.message();
                m.append(t.as_str());
                m
            }
            VmError::InvalidShareSource(s) => {
                let mut m = String::from_str("invalid share source: ");
                m.append(s.as_str());
                m
            }
            VmError::InvalidDiskTag(e) => {
                let mut m = String::from_str("invalid disk tag: ");
                let t = e.message();
                m.append(t.as_str());
                m
            }
            VmError::InvalidDiskSource(s) => {
                let mut m = String::from_str("invalid disk source: ");
                m.append(s.as_str());
                m
            }
            VmError::FailedToCreateDisk(e) => match e {
                DiskImageError::SizeOutOfRange => String::from_str(
                    "failed to create disk: size out of range",
                ),
                DiskImageError::Format(_) => String::from_str("failed to create disk"),
            },
        }
    }
}

/// The environment facts the driver gathers before the run: the
/// runtime directory variable and whether that directory exists, the
/// user name, the Wayland display name and whether its socket exists
/// under the runtime directory.
pub struct EnvProbe {
    pub runtime_dir: Option<String>,
    pub runtime_dir_exists: bool,
    pub user: Option<String>,
    pub wayland_display: Option<String>,
    pub wayland_socket_exists: bool,
}

/// The per-run working directory: `<runtime_dir>/contain/<vm_id>`.
pub open spec fn spec_vm_dir(runtime_dir: Seq<char>, vm_id: Seq<char>) -> Seq<char> {
    runtime_dir + "/contain/"@ + vm_id
}

/// The absolute path of the Wayland socket under the runtime directory.
pub open spec fn spec_wayland_path(runtime_dir: Seq<char>, display: Seq<char>) -> Seq<char> {
    runtime_dir + "/"@ + display
}

/// The ordered sidecar commands: one virtiofs daemon per share, in
/// share order, and last the GPU sidecar when graphics are on.
pub open spec fn spec_sidecar_cmds(
    shares: Seq<Share>,
    sources: Seq<Seq<char>>,
    gpu: bool,
    wayland_abs: Seq<char>,
) -> Seq<Seq<Seq<char>>> {
    Seq::new(shares.len(), |i: int| spec_virtiofsd_argv(shares[i].tag@, sources[i], shares[i].write))
        + if gpu {
        seq![spec_gpu_argv(wayland_abs)]
    } else {
        Seq::empty()
    }
}

/// The sockets the readiness wait polls for, one per sidecar, in spawn
/// order.
pub open spec fn spec_expected_sockets(shares: Seq<Share>, gpu: bool) -> Seq<Seq<char>> {
    Seq::new(shares.len(), |i: int| spec_share_socket(shares[i].tag@)) + if gpu {
        seq![spec_gpu_socket()]
    } else {
        Seq::empty()
    }
}

/// Whether a launch can go ahead: the runtime directory is known and
/// exists, a user name is known when a tap lease is requested, the
/// configuration itself is valid, every share source resolved, and the
/// Wayland socket is there when graphics are on.
pub open spec fn spec_can_launch(
    config: Config,
    env: EnvProbe,
    share_sources: Seq<Option<String>>,
) -> bool {
    &&& env.runtime_dir is Some
    &&& env.runtime_dir_exists
    &&& (config.network.assign_tap_device ==> env.user is Some)
    &&& config.valid()
    &&& (forall|i: int| 0 <= i < share_sources.len() ==> (#[trigger] share_sources[i]) is Some)
    &&& (config.graphics.virtio_gpu ==> env.wayland_display is Some
        && env.wayland_socket_exists)
}

/// Everything decided before the first side effect: the per-run
/// directory, whose lease to request, the sidecar commands and the
/// sockets to wait for.
#[derive(Debug)]
pub struct LaunchPlan {
    /// `<runtime_dir>/contain/<vm_id>`; created by the driver, removed
    /// last on teardown.
    pub vm_dir: String,
    /// The user to lease a tap device for; present exactly when the
    /// configuration asks for one.
    pub tap_user: Option<String>,
    /// The sidecar commands, in spawn order.
    pub sidecar_cmds: Vec<Vec<String>>,
    /// The sockets the readiness wait polls for, one per sidecar.
    pub expected_sockets: Vec<String>,
    /// Whether the GPU sidecar (and the hypervisor's `--gpu`) is on.
    pub has_gpu: bool,
}

impl LaunchPlan {
    /// Validates the configuration against the environment and builds
    /// the plan. Nothing has happened yet when this returns: an error
    /// here aborts the run with no teardown, and no side effect has
    /// been performed.
    ///
    /// Succeeds exactly when `spec_can_launch` holds; each error names
    /// the first failing check, in the order: runtime directory, user,
    /// shares (tag, source), disks (tag, source), Wayland socket.
    #[verifier::loop_isolation(false)]
    pub fn build(
        config: &Config,
        env: &EnvProbe,
        share_sources: &Vec<Option<String>>,
        vm_id: &String,
    ) -> (r: Result<LaunchPlan, VmError>)
        requires
            share_sources@.len() == config.filesystem.shares@.len(),
        ensures
            r is Ok <==> spec_can_launch(*config, *env, share_sources@),
            r matches Ok(p) ==> {
                &&& p.vm_dir@ == spec_vm_dir(env.runtime_dir->0@, vm_id@)
                &&& (match p.tap_user {
                    Some(u) => config.network.assign_tap_device && u@ == env.user->0@,
                    None => !config.network.assign_tap_device,
                })
                &&& p.has_gpu == config.graphics.virtio_gpu
                &&& p.sidecar_cmds.deep_view() == spec_sidecar_cmds(
                    config.filesystem.shares@,
                    Seq::new(share_sources@.len(), |i: int| share_sources@[i]->0@),
                    config.graphics.virtio_gpu,
                    spec_wayland_path(env.runtime_dir->0@, env.wayland_display->0@),
                )
                &&& p.expected_sockets.deep_view() == spec_expected_sockets(
                    config.filesystem.shares@,
                    config.graphics.virtio_gpu,
                )
            },
            r matches Err(VmError::InvalidShareTag(iv)) ==> exists|i: int|
                0 <= i < config.filesystem.shares@.len()
                    && !is_valid_identifier(#[trigger] config.filesystem.shares@[i].tag@)
                    && iv.0@ == config.filesystem.shares@[i].tag@,
            r matches Err(VmError::InvalidDiskTag(iv)) ==> exists|i: int|
                0 <= i < config.filesystem.disks@.len()
                    && !is_valid_identifier(#[trigger] config.filesystem.disks@[i].tag@)
                    && iv.0@ == config.filesystem.disks@[i].tag@,
            r matches Err(VmError::XDGRuntimeDirEnvUnavailable) ==> env.runtime_dir is None,
            r matches Err(VmError::XDGRuntimeDirUnavailable) ==> !env.runtime_dir_exists,
            r matches Err(VmError::UserEnvUnavailable) ==> config.network.assign_tap_device
                && env.user is None,
            r matches Err(VmError::WaylandSocketEnvUnavailable) ==> config.graphics.virtio_gpu
                && env.wayland_display is None,
            r matches Err(VmError::WaylandSocketUnavailable) ==> config.graphics.virtio_gpu
                && !env.wayland_socket_exists,
    {
        let runtime_dir: &String = match &env.runtime_dir {
            Some(d) => d,
            None => {
                return Err(VmError::XDGRuntimeDirEnvUnavailable);
            }
        };
        if !env.runtime_dir_exists {
            return Err(VmError::XDGRuntimeDirUnavailable);
        }
        let tap_user: Option<String> = if config.network.assign_tap_device {
            match &env.user {
                Some(u) => Some(u.clone()),
                None => {
                    return Err(VmError::UserEnvUnavailable);
                }
            }
        } else {
            None
        };
        let n_shares = config.filesystem.shares.len();
        let mut i: usize = 0;
        while i < n_shares
            invariant
                i <= n_shares,
                n_shares == config.filesystem.shares@.len(),
                share_sources@.len() == config.filesystem.shares@.len(),
                forall|k: int| 0 <= k < i ==> is_valid_identifier(
                    #[trigger] config.filesystem.shares@[k].tag@,
                ),
                forall|k: int| 0 <= k < i ==> (#[trigger] share_sources@[k]) is Some,
            decreases n_shares - i,
        {
            match check_is_valid_identifier(config.filesystem.shares[i].tag.clone()) {
                Ok(_) => {}
                Err(e) => {
                    proof {
                        assert(!is_valid_identifier(config.filesystem.shares@[i as int].tag@));
                    }
                    return Err(VmError::InvalidShareTag(e));
                }
            }
            if share_sources[i].is_none() {
                return Err(VmError::InvalidShareSource(String::from_str(
                    "share source did not resolve to an existing directory",
                )));
            }
            i = i + 1;
        }
        let n_disks = config.filesystem.disks.len();
        let mut j: usize = 0;
        while j < n_disks
            invariant
                j <= n_disks,
                n_disks == config.filesystem.disks@.len(),
                forall|k: int| 0 <= k < j ==> is_valid_identifier(
                    #[trigger] config.filesystem.disks@[k].tag@,
                ),
                forall|k: int| 0 <= k < j ==> (#[trigger] config.filesystem.disks@[k].source)
                    is Some,
            decreases n_disks - j,
        {
            match check_is_valid_identifier(config.filesystem.disks[j].tag.clone()) {
                Ok(_) => {}
                Err(e) => {
                    proof {
                        assert(!is_valid_identifier(config.filesystem.disks@[j as int].tag@));
                    }
                    return Err(VmError::InvalidDiskTag(e));
                }
            }
            if config.filesystem.disks[j].source.is_none() {
                return Err(VmError::InvalidDiskSource(String::from_str(
                    "disk declares no source path",
                )));
            }
            j = j + 1;
        }
        let wayland_abs: Option<String> = if config.graphics.virtio_gpu {
            match &env.wayland_display {
                Some(d) => {
                    if !env.wayland_socket_exists {
                        return Err(VmError::WaylandSocketUnavailable);
                    }
                    let mut w = runtime_dir.clone();
                    w.append("/");
                    w.append(d.as_str());
                    Some(w)
                }
                None => {
                    return Err(VmError::WaylandSocketEnvUnavailable);
                }
            }
        } else {
            None
        };
        let mut vm_dir = runtime_dir.clone();
        vm_dir.append("/contain/");
        vm_dir.append(vm_id.as_str());
        let mut sidecar_cmds: Vec<Vec<String>> = Vec::new();
        let mut expected_sockets: Vec<String> = Vec::new();
        let mut k: usize = 0;
        while k < n_shares
            invariant
                k <= n_shares,
                n_shares == config.filesystem.shares@.len(),
                share_sources@.len() == config.filesystem.shares@.len(),
                forall|m: int| 0 <= m < n_shares ==> (#[trigger] share_sources@[m]) is Some,
                sidecar_cmds.deep_view() =~= Seq::new(
                    k as nat,
                    |m: int| spec_virtiofsd_argv(
                        config.filesystem.shares@[m].tag@,
                        share_sources@[m]->0@,
                        config.filesystem.shares@[m].write,
                    ),
                ),
                expected_sockets.deep_view() =~= Seq::new(
                    k as nat,
                    |m: int| spec_share_socket(config.filesystem.shares@[m].tag@),
                ),
            decreases n_shares - k,
        {
            let ghost prev_cmds = sidecar_cmds.deep_view();
            let ghost prev_socks = expected_sockets.deep_view();
            let share = &config.filesystem.shares[k];
            let source: &String = match &share_sources[k] {
                Some(s) => s,
                None => {
                    return Err(VmError::InvalidShareSource(String::from_str(
                        "share source did not resolve to an existing directory",
                    )));
                }
            };
            let cmd = virtiofsd_command(&share.tag, source, share.write);
            sidecar_cmds.push(cmd);
            expected_sockets.push(share_socket(&share.tag));
            proof {
                assert(sidecar_cmds.deep_view() =~= prev_cmds.push(
                    spec_virtiofsd_argv(
                        config.filesystem.shares@[k as int].tag@,
                        share_sources@[k as int]->0@,
                        config.filesystem.shares@[k as int].write,
                    ),
                ));
                assert(sidecar_cmds.deep_view() =~= Seq::new(
                    (k + 1) as nat,
                    |m: int| spec_virtiofsd_argv(
                        config.filesystem.shares@[m].tag@,
                        share_sources@[m]->0@,
                        config.filesystem.shares@[m].write,
                    ),
                ));
                assert(expected_sockets.deep_view() =~= prev_socks.push(
                    spec_share_socket(config.filesystem.shares@[k as int].tag@),
                ));
                assert(expected_sockets.deep_view() =~= Seq::new(
                    (k + 1) as nat,
                    |m: int| spec_share_socket(config.filesystem.shares@[m].tag@),
                ));
            }
            k = k + 1;
        }
        if config.graphics.virtio_gpu {
            let ghost prev_cmds = sidecar_cmds.deep_view();
            let ghost prev_socks = expected_sockets.deep_view();
            let way = match &wayland_abs {
                Some(w) => w,
                None => {
                    return Err(VmError::WaylandSocketEnvUnavailable);
                }
            };
            sidecar_cmds.push(gpu_command(way));
            let mut gsock = String::new();
            gsock.append("virtio-gpu.sock");
            expected_sockets.push(gsock);
            proof {
                assert(sidecar_cmds.deep_view() =~= prev_cmds.push(spec_gpu_argv(way@)));
                assert(expected_sockets.deep_view() =~= prev_socks.push(spec_gpu_socket()));
            }
        }
        proof {
            assert(sidecar_cmds.deep_view() =~= spec_sidecar_cmds(
                config.filesystem.shares@,
                Seq::new(share_sources@.len(), |i: int| share_sources@[i]->0@),
                config.graphics.virtio_gpu,
                spec_wayland_path(env.runtime_dir->0@, env.wayland_display->0@),
            ));
            assert(expected_sockets.deep_view() =~= spec_expected_sockets(
                config.filesystem.shares@,
                config.graphics.virtio_gpu,
            ));
        }
        Ok(LaunchPlan { vm_dir, tap_user, sidecar_cmds, expected_sockets, has_gpu: config.graphics.virtio_gpu })
    }
}

/// Builds the hypervisor argv once the sidecars are ready, gating on
/// the kernel and initrd images actually existing: the kernel is
/// checked first, as the run controller does.
pub fn vm_command(
    config: &Config,
    kernel_exists: bool,
    initrd_exists: bool,
    tap: Option<&String>,
    gpu: bool,
    disk_paths: &Vec<String>,
) -> (r: Result<Vec<String>, VmError>)
    requires
        disk_paths@.len() == config.filesystem.disks@.len(),
    ensures
        r is Ok <==> kernel_exists && initrd_exists,
        !kernel_exists ==> (r matches Err(e) && e is InvalidKernelPath),
        kernel_exists && !initrd_exists ==> (r matches Err(e) && e is InvalidInitRDPath),
        r matches Ok(argv) ==> argv.deep_view() == spec_hypervisor_argv(
            *config,
            match tap {
                Some(n) => Some(n@),
                None => None,
            },
            gpu,
            disk_paths.deep_view(),
        ),
{
    if !kernel_exists {
        return Err(VmError::InvalidKernelPath);
    }
    if !initrd_exists {
        return Err(VmError::InvalidInitRDPath);
    }
    Ok(hypervisor_command(config, tap, gpu, disk_paths))
}

/// What the readiness wait does next.
#[derive(Debug, PartialEq, Eq)]
pub enum WaitDecision {
    /// Every expected socket is there: spawn the hypervisor.
    Proceed,
    /// Something is missing and no shutdown was asked for: sleep one
    /// interval and poll again.
    Poll,
    /// The shutdown latch tripped: abandon the wait and tear down.
    Abort,
}

/// One decision of the readiness wait: a tripped latch aborts the wait
/// at once; otherwise the wait ends only when every expected socket
/// has appeared.
#[verifier::loop_isolation(false)]
pub fn readiness_decision(latch_tripped: bool, sockets_present: &Vec<bool>) -> (r: WaitDecision)
    ensures
        r is Abort <==> latch_tripped,
        !latch_tripped ==> ((r is Proceed) <==> (forall|i: int|
            0 <= i < sockets_present@.len() ==> #[trigger] sockets_present@[i])),
{
    if latch_tripped {
        return WaitDecision::Abort;
    }
    let n = sockets_present.len();
    let mut i: usize = 0;
    while i < n
        invariant
            i <= n,
            n == sockets_present@.len(),
            forall|k: int| 0 <= k < i ==> #[trigger] sockets_present@[k],
        decreases n - i,
    {
        if !sockets_present[i] {
            return WaitDecision::Poll;
        }
        i = i + 1;
    }
    WaitDecision::Proceed
}

/// Teardown bookkeeping: keeps the first error and drops the rest, so
/// that every cleanup step still runs and the first cause is reported.
pub fn record_first_error(slot: &mut Option<VmError>, e: Option<VmError>)
    ensures
        *old(slot) is Some ==> *final(slot) == *old(slot),
        *old(slot) is None ==> *final(slot) == e,
{
    if slot.is_none() {
        *slot = e;
    }
}

} // verus!
