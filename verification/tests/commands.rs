use contain::command::{
    gpu_command, hypervisor_command, share_socket, stdio_for_console, virtiofsd_command,
    StdioMode,
};
use contain::config::{
    Config, Console, Cpu, Disk, Filesystem, Format, Graphics, InodeFileHandles, Memory, Mode,
    Network, Share,
};

fn base_config() -> Config {
    Config {
        kernel_path: "/k".to_string(),
        initrd_path: "/i".to_string(),
        cmdline: String::new(),
        cpu: Cpu { cores: 1 },
        memory: Memory { size: 1024 },
        filesystem: Filesystem { shares: Vec::new(), disks: Vec::new() },
        network: Network { assign_tap_device: false },
        graphics: Graphics { virtio_gpu: false },
        console: Console { mode: Mode::Off },
    }
}

#[test]
fn minimal_boot_argv() {
    let config = base_config();
    let argv = hypervisor_command(&config, None, false, &Vec::new());
    let expected: Vec<String> = [
        "cloud-hypervisor",
        "--kernel",
        "/k",
        "--initramfs",
        "/i",
        "--cmdline",
        "",
        "--seccomp=true",
        "--memory",
        "mergeable=on,shared=on,size=1024M",
        "--cpus",
        "boot=1",
        "--watchdog",
        "--console",
        "null",
        "--serial",
        "null",
    ]
    .iter()
    .map(|s| s.to_string())
    .collect();
    assert_eq!(argv, expected);
}

#[test]
fn tap_lease_adds_net_arguments() {
    let mut config = base_config();
    config.network.assign_tap_device = true;
    let tap = "contain-abc123".to_string();
    let argv = hypervisor_command(&config, Some(&tap), false, &Vec::new());
    let tail: Vec<String> = argv[argv.len() - 2..].to_vec();
    assert_eq!(tail, vec!["--net".to_string(), "num_queues=1,tap=contain-abc123".to_string()]);
}

#[test]
fn console_and_serial_follow_console_mode() {
    let mut config = base_config();
    for (mode, console, serial) in [
        (Mode::Off, "null", "null"),
        (Mode::Log, "tty", "null"),
        (Mode::On, "tty", "null"),
        (Mode::Serial, "null", "tty"),
    ] {
        config.console.mode = mode;
        let argv = hypervisor_command(&config, None, false, &Vec::new());
        let c = argv.iter().position(|a| a == "--console").unwrap();
        let s = argv.iter().position(|a| a == "--serial").unwrap();
        assert_eq!(argv[c + 1], console);
        assert_eq!(argv[s + 1], serial);
    }
}

#[test]
fn shares_and_disks_and_gpu_in_argv() {
    let mut config = base_config();
    config.cpu.cores = 4;
    config.memory.size = 2048;
    config.filesystem.shares.push(Share {
        source: "/home/u/code".to_string(),
        tag: "code".to_string(),
        write: true,
        inode_file_handles: InodeFileHandles::Never,
    });
    config.filesystem.shares.push(Share {
        source: "/srv/ro".to_string(),
        tag: "ro".to_string(),
        write: false,
        inode_file_handles: InodeFileHandles::Never,
    });
    config.filesystem.disks.push(Disk {
        source: Some("/tmp/d.qcow2".to_string()),
        tag: "root".to_string(),
        write: true,
        create: true,
        size: 100,
        format: Format::Qcow2,
    });
    config.filesystem.disks.push(Disk {
        source: Some("/tmp/e.qcow2".to_string()),
        tag: "data".to_string(),
        write: false,
        create: false,
        size: 0,
        format: Format::Qcow2,
    });
    let disk_paths = vec!["/tmp/d.qcow2".to_string(), "/tmp/e.qcow2".to_string()];
    let argv = hypervisor_command(&config, None, true, &disk_paths);
    let joined = argv.join(" ");
    assert!(joined.contains("--memory mergeable=on,shared=on,size=2048M"));
    assert!(joined.contains("--cpus boot=4"));
    assert!(joined.contains("--gpu socket=virtio-gpu.sock"));
    assert!(joined.contains(
        "--fs socket=virtio-fs-code.sock,tag=code socket=virtio-fs-ro.sock,tag=ro"
    ));
    assert!(joined.contains(
        "--disk path=/tmp/d.qcow2,serial=root,readonly=off path=/tmp/e.qcow2,serial=data,readonly=on"
    ));
}

#[test]
fn virtiofsd_argv_per_share() {
    let argv = virtiofsd_command(&"code".to_string(), &"/home/u/code".to_string(), true);
    assert_eq!(
        argv,
        vec![
            "virtiofsd".to_string(),
            "--socket-path".to_string(),
            "virtio-fs-code.sock".to_string(),
            "--tag".to_string(),
            "code".to_string(),
            "--shared-dir".to_string(),
            "/home/u/code".to_string(),
        ]
    );
    let ro = virtiofsd_command(&"ro".to_string(), &"/srv/ro".to_string(), false);
    assert_eq!(ro.last().unwrap(), "--readonly");
}

#[test]
fn gpu_argv_with_wayland_socket() {
    let argv = gpu_command(&"/run/user/1000/wayland-0".to_string());
    assert_eq!(
        argv,
        vec![
            "crosvm".to_string(),
            "device".to_string(),
            "gpu".to_string(),
            "--socket=virtio-gpu.sock".to_string(),
            "--wayland-sock=/run/user/1000/wayland-0".to_string(),
            "--params={\"context-types\":\"virgl:virgl2:cross-domain\",\"displays\":[{\"hidden\":true}],\"egl\":true,\"vulkan\":true}"
                .to_string(),
        ]
    );
}

#[test]
fn stdio_wiring_follows_console_mode() {
    assert_eq!(stdio_for_console(Mode::Off), StdioMode::Null);
    assert_eq!(stdio_for_console(Mode::Log), StdioMode::Log);
    assert_eq!(stdio_for_console(Mode::On), StdioMode::Piped);
    assert_eq!(stdio_for_console(Mode::Serial), StdioMode::Piped);
}

#[test]
fn share_socket_name() {
    assert_eq!(share_socket(&"code".to_string()), "virtio-fs-code.sock");
}
