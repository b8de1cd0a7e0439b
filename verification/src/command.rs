//! The command model: a child process is described by its argv and a
//! stdio wiring, and spawning is someone else's job. This module builds
//! the exact argv of the hypervisor and of each sidecar.

use vstd::prelude::*;
use vstd::string::StringExecFns;
use crate::config::{Config, Disk, Mode, Share};
use crate::text::{spec_dec, u64_to_dec};

verus! {

/// How a child's standard streams are wired: everything to `/dev/null`;
/// stdout piped back to the launcher for logging; or inherited from the
/// launcher.
#[derive(Clone, Copy, Debug, PartialEq, Eq, Structural)]
pub enum StdioMode {
    Null,
    Log,
    Piped,
}

/// The wiring the hypervisor gets for each console mode: `Off` is
/// silent, `Log` pipes stdout back, `On` and `Serial` inherit the
/// launcher's terminal.
pub open spec fn spec_stdio_for_console(mode: Mode) -> StdioMode {
    match mode {
        Mode::Off => StdioMode::Null,
        Mode::Log => StdioMode::Log,
        Mode::On => StdioMode::Piped,
        Mode::Serial => StdioMode::Piped,
    }
}

/// Picks the hypervisor's stdio wiring from the console mode.
pub fn stdio_for_console(mode: Mode) -> (r: StdioMode)
    ensures
        r == spec_stdio_for_console(mode),
{
    match mode {
        Mode::Off => StdioMode::Null,
        Mode::Log => StdioMode::Log,
        Mode::On => StdioMode::Piped,
        Mode::Serial => StdioMode::Piped,
    }
}

/// The Unix socket a share's virtiofs sidecar listens on, relative to
/// the per-run directory.
pub open spec fn spec_share_socket(tag: Seq<char>) -> Seq<char> {
    "virtio-fs-"@ + tag + ".sock"@
}

/// The Unix socket of the GPU sidecar, relative to the per-run
/// directory.
pub open spec fn spec_gpu_socket() -> Seq<char> {
    "virtio-gpu.sock"@
}

/// The device parameter JSON handed to the GPU sidecar: virgl contexts,
/// hidden display, egl and vulkan on.
pub open spec fn spec_gpu_params() -> Seq<char> {
    "{\"context-types\":\"virgl:virgl2:cross-domain\",\"displays\":[{\"hidden\":true}],\"egl\":true,\"vulkan\":true}"@
}

/// The socket file name for one share.
pub fn share_socket(tag: &String) -> (r: String)
    ensures
        r@ == spec_share_socket(tag@),
{
    let mut s = String::from_str("virtio-fs-");
    s.append(tag.as_str());
    s.append(".sock");
    s
}

/// The argv of the virtiofs sidecar for one share: socket, tag and
/// source directory, plus `--readonly` when the guest may not write.
pub open spec fn spec_virtiofsd_argv(tag: Seq<char>, source_abs: Seq<char>, write: bool)
    -> Seq<Seq<char>> {
    let base = seq![
        "virtiofsd"@,
        "--socket-path"@,
        spec_share_socket(tag),
        "--tag"@,
        tag,
        "--shared-dir"@,
        source_abs,
    ];
    if write {
        base
    } else {
        base.push("--readonly"@)
    }
}

/// Builds the virtiofs sidecar command for one share, given the
/// canonical (absolute) source directory.
pub fn virtiofsd_command(tag: &String, source_abs: &String, write: bool) -> (r: Vec<String>)
    ensures
        r.deep_view() == spec_virtiofsd_argv(tag@, source_abs@, write),
{
    let mut v: Vec<String> = Vec::new();
    v.push(String::from_str("virtiofsd"));
    v.push(String::from_str("--socket-path"));
    v.push(share_socket(tag));
    v.push(String::from_str("--tag"));
    v.push(tag.clone());
    v.push(String::from_str("--shared-dir"));
    v.push(source_abs.clone());
    if !write {
        v.push(String::from_str("--readonly"));
    }
    proof {
        assert(v.deep_view() =~= spec_virtiofsd_argv(tag@, source_abs@, write));
    }
    v
}

/// The argv of the GPU sidecar: its control socket, the host Wayland
/// socket, and the device parameters.
pub open spec fn spec_gpu_argv(wayland_abs: Seq<char>) -> Seq<Seq<char>> {
    seq![
        "crosvm"@,
        "device"@,
        "gpu"@,
        "--socket="@ + spec_gpu_socket(),
        "--wayland-sock="@ + wayland_abs,
        "--params="@ + spec_gpu_params(),
    ]
}

/// Builds the GPU sidecar command, given the absolute path of the host
/// Wayland socket.
pub fn gpu_command(wayland_abs: &String) -> (r: Vec<String>)
    ensures
        r.deep_view() == spec_gpu_argv(wayland_abs@),
{
    let mut v: Vec<String> = Vec::new();
    v.push(String::from_str("crosvm"));
    v.push(String::from_str("device"));
    v.push(String::from_str("gpu"));
    let mut sock = String::from_str("--socket=");
    sock.append("virtio-gpu.sock");
    v.push(sock);
    let mut way = String::from_str("--wayland-sock=");
    way.append(wayland_abs.as_str());
    v.push(way);
    let mut par = String::from_str("--params=");
    par.append(
        "{\"context-types\":\"virgl:virgl2:cross-domain\",\"displays\":[{\"hidden\":true}],\"egl\":true,\"vulkan\":true}",
    );
    v.push(par);
    proof {
        assert(v.deep_view() =~= spec_gpu_argv(wayland_abs@));
    }
    v
}

/// The `--console` value: a tty for `On` and `Log`, null otherwise.
pub open spec fn spec_console_arg(mode: Mode) -> Seq<char> {
    match mode {
        Mode::On => "tty"@,
        Mode::Log => "tty"@,
        _ => "null"@,
    }
}

/// The `--serial` value: a tty for `Serial`, null otherwise.
pub open spec fn spec_serial_arg(mode: Mode) -> Seq<char> {
    match mode {
        Mode::Serial => "tty"@,
        _ => "null"@,
    }
}

/// The `--fs` arguments: absent without shares, otherwise the flag
/// followed by one `socket=...,tag=...` value per share, in order.
pub open spec fn spec_fs_args(shares: Seq<Share>) -> Seq<Seq<char>> {
    if shares.len() == 0 {
        Seq::empty()
    } else {
        seq!["--fs"@] + Seq::new(
            shares.len(),
            |i: int| "socket=virtio-fs-"@ + shares[i].tag@ + ".sock,tag="@ + shares[i].tag@,
        )
    }
}

/// The `--disk` arguments: absent without disks, otherwise the flag
/// followed by one `path=...,serial=...,readonly=...` value per disk,
/// in order, with the canonical path of each disk.
pub open spec fn spec_disk_args(disks: Seq<Disk>, paths: Seq<Seq<char>>) -> Seq<Seq<char>> {
    if disks.len() == 0 {
        Seq::empty()
    } else {
        seq!["--disk"@] + Seq::new(
            disks.len(),
            |i: int| "path="@ + paths[i] + ",serial="@ + disks[i].tag@ + ",readonly="@ + (
            if disks[i].write {
                "off"@
            } else {
                "on"@
            }),
        )
    }
}

/// The `--net` arguments: absent without a tap lease, otherwise the
/// flag and a queue count matching the CPU cores plus the tap name.
pub open spec fn spec_net_args(tap: Option<Seq<char>>, cores: u64) -> Seq<Seq<char>> {
    match tap {
        Some(name) => seq!["--net"@, "num_queues="@ + spec_dec(cores as int) + ",tap="@ + name],
        None => Seq::empty(),
    }
}

/// The `--gpu` arguments: present exactly when graphics are enabled.
pub open spec fn spec_gpu_args(gpu: bool) -> Seq<Seq<char>> {
    if gpu {
        seq!["--gpu"@, "socket="@ + spec_gpu_socket()]
    } else {
        Seq::empty()
    }
}

/// The full hypervisor argv, in the exact spawn order: kernel, initrd
/// and cmdline; seccomp; memory; cpus; watchdog; console and serial
/// wiring; an optional GPU socket; one `--fs` value per share; one
/// `--disk` value per disk; an optional `--net` with the leased tap.
pub open spec fn spec_hypervisor_argv(
    c: Config,
    tap: Option<Seq<char>>,
    gpu: bool,
    disk_paths: Seq<Seq<char>>,
) -> Seq<Seq<char>> {
    seq![
        "cloud-hypervisor"@,
        "--kernel"@,
        c.kernel_path@,
        "--initramfs"@,
        c.initrd_path@,
        "--cmdline"@,
        c.cmdline@,
        "--seccomp=true"@,
        "--memory"@,
        "mergeable=on,shared=on,size="@ + spec_dec(c.memory.size as int) + "M"@,
        "--cpus"@,
        "boot="@ + spec_dec(c.cpu.cores as int),
        "--watchdog"@,
        "--console"@,
        spec_console_arg(c.console.mode),
        "--serial"@,
        spec_serial_arg(c.console.mode),
    ] + spec_gpu_args(gpu) + spec_fs_args(c.filesystem.shares@) + spec_disk_args(
        c.filesystem.disks@,
        disk_paths,
    ) + spec_net_args(tap, c.cpu.cores)
}

/// Appends the `--fs` arguments for the configured shares.
#[verifier::loop_isolation(false)]
fn push_fs_args(v: &mut Vec<String>, shares: &Vec<Share>)
    ensures
        final(v).deep_view() == old(v).deep_view() + spec_fs_args(shares@),
{
    let ghost head = v.deep_view();
    let n = shares.len();
    if n == 0 {
        proof {
            assert(v.deep_view() =~= head + spec_fs_args(shares@));
        }
        return ;
    }
    v.push(String::from_str("--fs"));
    let mut i: usize = 0;
    while i < n
        invariant
            i <= n,
            v.deep_view() =~= head + seq!["--fs"@] + Seq::new(
                i as nat,
                |k: int| "socket=virtio-fs-"@ + shares@[k].tag@ + ".sock,tag="@
                    + shares@[k].tag@,
            ),
        decreases n - i,
    {
        let ghost prev = v.deep_view();
        let tag = &shares[i].tag;
        let mut a = String::from_str("socket=virtio-fs-");
        a.append(tag.as_str());
        a.append(".sock,tag=");
        a.append(tag.as_str());
        v.push(a);
        proof {
            assert(a@ == "socket=virtio-fs-"@ + shares@[i as int].tag@ + ".sock,tag="@
                + shares@[i as int].tag@);
            assert(v.deep_view() =~= prev.push(a@));
            assert(v.deep_view() =~= head + seq!["--fs"@] + Seq::new(
                (i + 1) as nat,
                |k: int| "socket=virtio-fs-"@ + shares@[k].tag@ + ".sock,tag="@
                    + shares@[k].tag@,
            ));
        }
        i = i + 1;
    }
    proof {
        assert(v.deep_view() =~= head + spec_fs_args(shares@));
    }
}

/// Appends the `--disk` arguments for the configured disks and their
/// canonical paths.
#[verifier::loop_isolation(false)]
fn push_disk_args(v: &mut Vec<String>, disks: &Vec<Disk>, paths: &Vec<String>)
    requires
        paths@.len() == disks@.len(),
    ensures
        final(v).deep_view() == old(v).deep_view() + spec_disk_args(disks@, paths.deep_view()),
{
    let ghost head = v.deep_view();
    let n = disks.len();
    if n == 0 {
        proof {
            assert(v.deep_view() =~= head + spec_disk_args(disks@, paths.deep_view()));
        }
        return ;
    }
    v.push(String::from_str("--disk"));
    let mut i: usize = 0;
    while i < n
        invariant
            i <= n,
            v.deep_view() =~= head + seq!["--disk"@] + Seq::new(
                i as nat,
                |k: int| "path="@ + paths.deep_view()[k] + ",serial="@ + disks@[k].tag@
                    + ",readonly="@ + (if disks@[k].write {
                    "off"@
                } else {
                    "on"@
                }),
            ),
        decreases n - i,
    {
        let ghost prev = v.deep_view();
        let mut a = String::from_str("path=");
        a.append(paths[i].as_str());
        a.append(",serial=");
        a.append(disks[i].tag.as_str());
        a.append(",readonly=");
        if disks[i].write {
            a.append("off");
        } else {
            a.append("on");
        }
        v.push(a);
        proof {
            assert(a@ == "path="@ + paths.deep_view()[i as int] + ",serial="@
                + disks@[i as int].tag@ + ",readonly="@ + (if disks@[i as int].write {
                "off"@
            } else {
                "on"@
            }));
            assert(v.deep_view() =~= prev.push(a@));
            assert(v.deep_view() =~= head + seq!["--disk"@] + Seq::new(
                (i + 1) as nat,
                |k: int| "path="@ + paths.deep_view()[k] + ",serial="@ + disks@[k].tag@
                    + ",readonly="@ + (if disks@[k].write {
                    "off"@
                } else {
                    "on"@
                }),
            ));
        }
        i = i + 1;
    }
    proof {
        assert(v.deep_view() =~= head + spec_disk_args(disks@, paths.deep_view()));
    }
}

/// Appends the `--net` arguments when a tap device was leased.
fn push_net_args(v: &mut Vec<String>, tap: Option<&String>, cores: u64)
    ensures
        final(v).deep_view() == old(v).deep_view() + spec_net_args(
            match tap {
                Some(n) => Some(n@),
                None => None,
            },
            cores,
        ),
{
    let ghost head = v.deep_view();
    match tap {
        Some(name) => {
            let ghost p0 = v.deep_view();
            v.push(String::from_str("--net"));
            let ghost p1 = v.deep_view();
            let mut a = String::from_str("num_queues=");
            let qdec = u64_to_dec(cores);
            a.append(qdec.as_str());
            a.append(",tap=");
            a.append(name.as_str());
            v.push(a);
            proof {
                assert(p1 =~= p0.push("--net"@));
                assert(v.deep_view() =~= p1.push(a@));
                assert(v.deep_view() =~= head + spec_net_args(Some(name@), cores));
            }
        }
        None => {
            proof {
                assert(v.deep_view() =~= head + spec_net_args(None, cores));
            }
        }
    }
}

/// Builds the hypervisor argv. `disk_paths` carries the canonical path
/// of each configured disk, in the same order.
pub fn hypervisor_command(
    c: &Config,
    tap: Option<&String>,
    gpu: bool,
    disk_paths: &Vec<String>,
) -> (r: Vec<String>)
    requires
        disk_paths@.len() == c.filesystem.disks@.len(),
    ensures
        r.deep_view() == spec_hypervisor_argv(
            *c,
            match tap {
                Some(n) => Some(n@),
                None => None,
            },
            gpu,
            disk_paths.deep_view(),
        ),
{
    let ghost tapg: Option<Seq<char>> = match tap {
        Some(n) => Some(n@),
        None => None,
    };
    let mut v: Vec<String> = Vec::new();
    v.push(String::from_str("cloud-hypervisor"));
    v.push(String::from_str("--kernel"));
    v.push(c.kernel_path.clone());
    v.push(String::from_str("--initramfs"));
    v.push(c.initrd_path.clone());
    v.push(String::from_str("--cmdline"));
    v.push(c.cmdline.clone());
    v.push(String::from_str("--seccomp=true"));
    v.push(String::from_str("--memory"));
    let mut mem = String::from_str("mergeable=on,shared=on,size=");
    let memdec = u64_to_dec(c.memory.size);
    mem.append(memdec.as_str());
    mem.append("M");
    v.push(mem);
    v.push(String::from_str("--cpus"));
    let mut cpus = String::from_str("boot=");
    let coredec = u64_to_dec(c.cpu.cores);
    cpus.append(coredec.as_str());
    v.push(cpus);
    v.push(String::from_str("--watchdog"));
    v.push(String::from_str("--console"));
    match c.console.mode {
        Mode::On => v.push(String::from_str("tty")),
        Mode::Log => v.push(String::from_str("tty")),
        _ => v.push(String::from_str("null")),
    }
    v.push(String::from_str("--serial"));
    match c.console.mode {
        Mode::Serial => v.push(String::from_str("tty")),
        _ => v.push(String::from_str("null")),
    }
    if gpu {
        v.push(String::from_str("--gpu"));
        let mut g = String::from_str("socket=");
        g.append("virtio-gpu.sock");
        v.push(g);
    }
    let ghost head = v.deep_view();
    proof {
        assert(head =~= seq![
            "cloud-hypervisor"@,
            "--kernel"@,
            c.kernel_path@,
            "--initramfs"@,
            c.initrd_path@,
            "--cmdline"@,
            c.cmdline@,
            "--seccomp=true"@,
            "--memory"@,
            "mergeable=on,shared=on,size="@ + spec_dec(c.memory.size as int) + "M"@,
            "--cpus"@,
            "boot="@ + spec_dec(c.cpu.cores as int),
            "--watchdog"@,
            "--console"@,
            spec_console_arg(c.console.mode),
            "--serial"@,
            spec_serial_arg(c.console.mode),
        ] + spec_gpu_args(gpu));
    }
    push_fs_args(&mut v, &c.filesystem.shares);
    push_disk_args(&mut v, &c.filesystem.disks, disk_paths);
    push_net_args(&mut v, tap, c.cpu.cores);
    proof {
        assert(v.deep_view() =~= spec_hypervisor_argv(*c, tapg, gpu, disk_paths.deep_view()));
    }
    v
}

} // verus!
