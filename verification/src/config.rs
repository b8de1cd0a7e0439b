//! The declarative VM configuration: immutable after load. Paths are
//! carried as plain strings; the unverified driver resolves them against
//! the filesystem.

use vstd::prelude::*;
use crate::ident::is_valid_identifier;

verus! {

/// How the hypervisor's console and serial port are wired.
#[derive(Clone, Copy, Debug, PartialEq, Eq, Structural)]
pub enum Mode {
    Off,
    Log,
    On,
    Serial,
}

impl Default for Mode {
    fn default() -> (r: Self)
        ensures
            r == Mode::Off,
    {
        Mode::Off
    }
}

/// Console settings.
#[derive(Clone, Copy, Debug, PartialEq, Eq, Structural)]
pub struct Console {
    pub mode: Mode,
}

impl Default for Console {
    fn default() -> (r: Self)
        ensures
            r == (Console { mode: Mode::Off }),
    {
        Console { mode: Mode::Off }
    }
}

/// Number of guest CPU cores; at least one in any valid configuration.
#[derive(Clone, Copy, Debug, PartialEq, Eq, Structural)]
pub struct Cpu {
    pub cores: u64,
}

impl Default for Cpu {
    fn default() -> (r: Self)
        ensures
            r.cores == 1,
    {
        Cpu { cores: 1 }
    }
}

/// Guest memory size in MiB.
#[derive(Clone, Copy, Debug, PartialEq, Eq, Structural)]
pub struct Memory {
    pub size: u64,
}

impl Default for Memory {
    fn default() -> (r: Self)
        ensures
            r.size == 1024,
    {
        Memory { size: 1024 }
    }
}

/// Whether the guest mounts a directory with inode file handles.
#[derive(Clone, Copy, Debug, PartialEq, Eq, Structural)]
pub enum InodeFileHandles {
    Never,
    Prefer,
    Mandatory,
}

impl InodeFileHandles {
    /// The configuration-file spelling of the policy.
    pub fn as_str(&self) -> (r: &'static str)
        ensures
            self is Never ==> r@ == "never"@,
            self is Prefer ==> r@ == "prefer"@,
            self is Mandatory ==> r@ == "mandatory"@,
    {
        match self {
            InodeFileHandles::Never => "never",
            InodeFileHandles::Prefer => "prefer",
            InodeFileHandles::Mandatory => "mandatory",
        }
    }
}

/// A host directory exported to the guest over virtio-fs.
#[derive(Clone, Debug)]
pub struct Share {
    /// Host source directory; must resolve to an existing directory at
    /// launch time.
    pub source: String,
    /// Mount tag; must be a valid identifier.
    pub tag: String,
    /// Whether the guest may write.
    pub write: bool,
    /// Inode file handle policy for the virtiofs daemon.
    pub inode_file_handles: InodeFileHandles,
}

impl Default for Share {
    fn default() -> (r: Self)
        ensures
            r.source@ == Seq::<char>::empty(),
            r.tag@ == Seq::<char>::empty(),
            r.write == true,
            r.inode_file_handles == InodeFileHandles::Never,
    {
        Share {
            source: String::new(),
            tag: String::new(),
            write: true,
            inode_file_handles: InodeFileHandles::Never,
        }
    }
}

/// On-disk image format of a block device.
#[derive(Clone, Copy, Debug, PartialEq, Eq, Structural)]
pub enum Format {
    Qcow2,
    Raw,
}

impl Format {
    /// The configuration-file spelling of the format.
    pub fn as_str(&self) -> (r: &'static str)
        ensures
            self is Qcow2 ==> r@ == "qcow2"@,
            self is Raw ==> r@ == "raw"@,
    {
        match self {
            Format::Qcow2 => "qcow2",
            Format::Raw => "raw",
        }
    }
}

/// A block device handed to the guest.
#[derive(Clone, Debug)]
pub struct Disk {
    /// Host path of the image; required for any disk that is used.
    pub source: Option<String>,
    /// Serial tag; must be a valid identifier.
    pub tag: String,
    /// Whether the guest may write.
    pub write: bool,
    /// Whether to materialize an empty image when the path is absent.
    pub create: bool,
    /// Declared image size in MiB.
    pub size: u64,
    /// Declared image format.
    pub format: Format,
}

impl Default for Disk {
    fn default() -> (r: Self)
        ensures
            r.source is None,
            r.tag@ == Seq::<char>::empty(),
            r.write == true,
            r.create == true,
            r.size == 0,
            r.format == Format::Qcow2,
    {
        Disk {
            source: None,
            tag: String::new(),
            write: true,
            create: true,
            size: 0,
            format: Format::Qcow2,
        }
    }
}

/// Shares and disks wired into the guest.
#[derive(Clone, Debug)]
pub struct Filesystem {
    pub shares: Vec<Share>,
    pub disks: Vec<Disk>,
}

impl Default for Filesystem {
    fn default() -> (r: Self)
        ensures
            r.shares@ == Seq::<Share>::empty(),
            r.disks@ == Seq::<Disk>::empty(),
    {
        Filesystem { shares: Vec::new(), disks: Vec::new() }
    }
}

/// Whether to lease a tap device from the daemon.
#[derive(Clone, Copy, Debug, PartialEq, Eq, Structural)]
pub struct Network {
    pub assign_tap_device: bool,
}

impl Default for Network {
    fn default() -> (r: Self)
        ensures
            r.assign_tap_device == false,
    {
        Network { assign_tap_device: false }
    }
}

/// Whether to expose a virtio-gpu device backed by the host's Wayland
/// socket.
#[derive(Clone, Copy, Debug, PartialEq, Eq, Structural)]
pub struct Graphics {
    pub virtio_gpu: bool,
}

impl Default for Graphics {
    fn default() -> (r: Self)
        ensures
            r.virtio_gpu == false,
    {
        Graphics { virtio_gpu: false }
    }
}

/// The whole launcher configuration.
#[derive(Clone, Debug)]
pub struct Config {
    pub kernel_path: String,
    pub initrd_path: String,
    pub cmdline: String,
    pub cpu: Cpu,
    pub memory: Memory,
    pub filesystem: Filesystem,
    pub network: Network,
    pub graphics: Graphics,
    pub console: Console,
}

impl Default for Config {
    fn default() -> (r: Self)
        ensures
            r.kernel_path@ == Seq::<char>::empty(),
            r.initrd_path@ == Seq::<char>::empty(),
            r.cmdline@ == Seq::<char>::empty(),
            r.cpu.cores == 1,
            r.memory.size == 1024,
            r.filesystem.shares@ == Seq::<Share>::empty(),
            r.filesystem.disks@ == Seq::<Disk>::empty(),
            r.network.assign_tap_device == false,
            r.graphics.virtio_gpu == false,
            r.console.mode == Mode::Off,
    {
        Config {
            kernel_path: String::new(),
            initrd_path: String::new(),
            cmdline: String::new(),
            cpu: Cpu { cores: 1 },
            memory: Memory { size: 1024 },
            filesystem: Filesystem { shares: Vec::new(), disks: Vec::new() },
            network: Network { assign_tap_device: false },
            graphics: Graphics { virtio_gpu: false },
            console: Console { mode: Mode::Off },
        }
    }
}

impl Config {
    /// A configuration passes validation when every share tag and every
    /// disk tag is a valid identifier and every disk names a source path.
    pub open spec fn valid(&self) -> bool {
        &&& forall|i: int| 0 <= i < self.filesystem.shares@.len()
            ==> is_valid_identifier(#[trigger] self.filesystem.shares@[i].tag@)
        &&& forall|i: int| 0 <= i < self.filesystem.disks@.len()
            ==> is_valid_identifier(#[trigger] self.filesystem.disks@[i].tag@)
        &&& forall|i: int| 0 <= i < self.filesystem.disks@.len()
            ==> (#[trigger] self.filesystem.disks@[i].source) is Some
    }
}

} // verus!
