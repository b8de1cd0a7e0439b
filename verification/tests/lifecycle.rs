use contain::config::{
    Config, Console, Cpu, Disk, Filesystem, Format, Graphics, InodeFileHandles, Memory, Mode,
    Network, Share,
};
use contain::latch::ShutdownLatch;
use contain::requests::RequestError;
use contain::run::{
    readiness_decision, record_first_error, vm_command, EnvProbe, LaunchPlan, VmError,
    WaitDecision,
};
use contain::teardown::{teardown_steps, RunContext, TeardownStep};

fn config_with_share(tag: &str) -> Config {
    Config {
        kernel_path: "/k".to_string(),
        initrd_path: "/i".to_string(),
        cmdline: "quiet".to_string(),
        cpu: Cpu { cores: 2 },
        memory: Memory { size: 512 },
        filesystem: Filesystem {
            shares: vec![Share {
                source: "/data".to_string(),
                tag: tag.to_string(),
                write: true,
                inode_file_handles: InodeFileHandles::Never,
            }],
            disks: Vec::new(),
        },
        network: Network { assign_tap_device: false },
        graphics: Graphics { virtio_gpu: false },
        console: Console { mode: Mode::Off },
    }
}

fn probe() -> EnvProbe {
    EnvProbe {
        runtime_dir: Some("/run/user/1000".to_string()),
        runtime_dir_exists: true,
        user: Some("alice".to_string()),
        wayland_display: None,
        wayland_socket_exists: false,
    }
}

#[test]
fn plan_for_one_share() {
    let config = config_with_share("code");
    let sources = vec![Some("/data".to_string())];
    let plan =
        LaunchPlan::build(&config, &probe(), &sources, &"0123456789abcdef0123456789abcdef".to_string())
            .unwrap();
    assert_eq!(plan.vm_dir, "/run/user/1000/contain/0123456789abcdef0123456789abcdef");
    assert!(plan.tap_user.is_none());
    assert!(!plan.has_gpu);
    assert_eq!(plan.expected_sockets, vec!["virtio-fs-code.sock".to_string()]);
    assert_eq!(plan.sidecar_cmds.len(), 1);
    assert_eq!(plan.sidecar_cmds[0][0], "virtiofsd");
}

#[test]
fn plan_requests_tap_user_when_network_is_on() {
    let mut config = config_with_share("code");
    config.network.assign_tap_device = true;
    let sources = vec![Some("/data".to_string())];
    let plan = LaunchPlan::build(&config, &probe(), &sources, &"id".to_string()).unwrap();
    assert_eq!(plan.tap_user.as_deref(), Some("alice"));
}

#[test]
fn invalid_share_tag_rejected_before_any_side_effect() {
    let config = config_with_share("bad/tag");
    let sources = vec![Some("/data".to_string())];
    let err = LaunchPlan::build(&config, &probe(), &sources, &"id".to_string()).unwrap_err();
    match &err {
        VmError::InvalidShareTag(e) => assert_eq!(e.name(), "bad/tag"),
        other => panic!("unexpected error {other:?}"),
    }
    assert!(err.message().contains("bad/tag"));
}

#[test]
fn missing_runtime_dir_and_user_are_reported() {
    let config = config_with_share("code");
    let sources = vec![Some("/data".to_string())];
    let mut env = probe();
    env.runtime_dir = None;
    assert!(matches!(
        LaunchPlan::build(&config, &env, &sources, &"id".to_string()),
        Err(VmError::XDGRuntimeDirEnvUnavailable)
    ));
    let mut env = probe();
    env.runtime_dir_exists = false;
    assert!(matches!(
        LaunchPlan::build(&config, &env, &sources, &"id".to_string()),
        Err(VmError::XDGRuntimeDirUnavailable)
    ));
    let mut config = config_with_share("code");
    config.network.assign_tap_device = true;
    let mut env = probe();
    env.user = None;
    assert!(matches!(
        LaunchPlan::build(&config, &env, &sources, &"id".to_string()),
        Err(VmError::UserEnvUnavailable)
    ));
}

#[test]
fn gpu_plan_needs_wayland() {
    let mut config = config_with_share("code");
    config.graphics.virtio_gpu = true;
    let sources = vec![Some("/data".to_string())];
    assert!(matches!(
        LaunchPlan::build(&config, &probe(), &sources, &"id".to_string()),
        Err(VmError::WaylandSocketEnvUnavailable)
    ));
    let mut env = probe();
    env.wayland_display = Some("wayland-0".to_string());
    env.wayland_socket_exists = true;
    let plan = LaunchPlan::build(&config, &env, &sources, &"id".to_string()).unwrap();
    assert!(plan.has_gpu);
    assert_eq!(plan.expected_sockets.last().unwrap(), "virtio-gpu.sock");
    let gpu_cmd = plan.sidecar_cmds.last().unwrap();
    assert_eq!(gpu_cmd[0], "crosvm");
    assert!(gpu_cmd.contains(&"--wayland-sock=/run/user/1000/wayland-0".to_string()));
}

#[test]
fn vm_command_checks_kernel_and_initrd() {
    let config = config_with_share("code");
    assert!(matches!(
        vm_command(&config, false, true, None, false, &Vec::new()),
        Err(VmError::InvalidKernelPath)
    ));
    assert!(matches!(
        vm_command(&config, true, false, None, false, &Vec::new()),
        Err(VmError::InvalidInitRDPath)
    ));
    let argv = vm_command(&config, true, true, None, false, &Vec::new()).unwrap();
    assert_eq!(argv[0], "cloud-hypervisor");
}

#[test]
fn readiness_waits_for_every_socket() {
    assert_eq!(readiness_decision(false, &vec![true, true]), WaitDecision::Proceed);
    assert_eq!(readiness_decision(false, &vec![true, false]), WaitDecision::Poll);
    assert_eq!(readiness_decision(false, &Vec::new()), WaitDecision::Proceed);
}

#[test]
fn tripped_latch_aborts_readiness_wait() {
    assert_eq!(readiness_decision(true, &vec![true, true]), WaitDecision::Abort);
    assert_eq!(readiness_decision(true, &vec![false]), WaitDecision::Abort);
}

#[test]
fn latch_trips_exactly_once() {
    let mut latch = ShutdownLatch::new();
    assert!(!latch.is_tripped());
    assert!(latch.trip());
    assert!(latch.is_tripped());
    for _ in 0..10 {
        assert!(!latch.trip());
        assert!(latch.is_tripped());
    }
}

#[test]
fn teardown_reverses_everything_in_order() {
    let mut ctx = RunContext::new(2);
    ctx.note_vm_dir_created("/run/user/1000/contain/x".to_string());
    ctx.note_tap_leased("contain-abc123".to_string());
    ctx.note_sidecar_spawned();
    ctx.note_sidecar_spawned();
    ctx.note_vm_spawned();
    let steps = teardown_steps(&ctx);
    assert_eq!(
        steps,
        vec![
            TeardownStep::KillVm,
            TeardownStep::WaitVm,
            TeardownStep::KillSidecar(0),
            TeardownStep::KillSidecar(1),
            TeardownStep::WaitSidecar(0),
            TeardownStep::WaitSidecar(1),
            TeardownStep::ReleaseTap("contain-abc123".to_string()),
            TeardownStep::RemoveVmDir("/run/user/1000/contain/x".to_string()),
        ]
    );
}

#[test]
fn teardown_after_signal_during_readiness_wait() {
    let mut ctx = RunContext::new(1);
    ctx.note_vm_dir_created("/run/user/1000/contain/y".to_string());
    ctx.note_sidecar_spawned();
    let steps = teardown_steps(&ctx);
    assert_eq!(
        steps,
        vec![
            TeardownStep::KillSidecar(0),
            TeardownStep::WaitSidecar(0),
            TeardownStep::RemoveVmDir("/run/user/1000/contain/y".to_string()),
        ]
    );
}

#[test]
fn teardown_releases_nothing_that_was_not_acquired() {
    let ctx = RunContext::new(3);
    assert!(teardown_steps(&ctx).is_empty());
}

#[test]
fn first_error_is_kept_later_ones_dropped() {
    let mut slot: Option<VmError> = None;
    record_first_error(&mut slot, None);
    assert!(slot.is_none());
    record_first_error(&mut slot, Some(VmError::InvalidKernelPath));
    assert!(matches!(slot, Some(VmError::InvalidKernelPath)));
    record_first_error(&mut slot, Some(VmError::InvalidInitRDPath));
    assert!(matches!(slot, Some(VmError::InvalidKernelPath)));
}

#[test]
fn disk_validation_errors() {
    let mut config = config_with_share("code");
    config.filesystem.disks.push(Disk {
        source: Some("/tmp/d.qcow2".to_string()),
        tag: "bad disk".to_string(),
        write: true,
        create: true,
        size: 16,
        format: Format::Qcow2,
    });
    let sources = vec![Some("/data".to_string())];
    let err = LaunchPlan::build(&config, &probe(), &sources, &"id".to_string()).unwrap_err();
    match &err {
        VmError::InvalidDiskTag(e) => assert_eq!(e.name(), "bad disk"),
        other => panic!("unexpected error {other:?}"),
    }
    let mut config = config_with_share("code");
    config.filesystem.disks.push(Disk {
        source: None,
        tag: "root".to_string(),
        write: true,
        create: true,
        size: 16,
        format: Format::Qcow2,
    });
    assert!(matches!(
        LaunchPlan::build(&config, &probe(), &sources, &"id".to_string()),
        Err(VmError::InvalidDiskSource(_))
    ));
}

#[test]
fn daemon_request_error_message_carries_status() {
    let m = VmError::DaemonRequest(RequestError::BadStatus(503)).message();
    assert_eq!(m, "error while talking to daemon: unexpected status 503");
    let m = VmError::DaemonRequest(RequestError::MalformedResponse).message();
    assert_eq!(m, "error while talking to daemon: malformed response body");
}

#[test]
fn error_messages_are_single_descriptive_lines() {
    assert_eq!(VmError::InvalidKernelPath.message(), "invalid kernel path");
    assert_eq!(
        VmError::FailedToCreateVmDir("denied".to_string()).message(),
        "failed to create vm dir: denied"
    );
    let m = VmError::XDGRuntimeDirEnvUnavailable.message();
    assert_eq!(m, "cannot read environment variable XDG_RUNTIME_DIR to determine runtime dir");
}

#[test]
fn config_defaults_match_declared_values() {
    let c = Config::default();
    assert_eq!(c.cpu.cores, 1);
    assert_eq!(c.memory.size, 1024);
    assert!(!c.network.assign_tap_device);
    assert!(!c.graphics.virtio_gpu);
    assert!(matches!(c.console.mode, Mode::Off));
    assert!(c.filesystem.shares.is_empty());
    assert!(c.filesystem.disks.is_empty());
    let s = Share::default();
    assert!(s.write);
    assert!(matches!(s.inode_file_handles, InodeFileHandles::Never));
    let d = Disk::default();
    assert!(d.source.is_none());
    assert!(d.create);
    assert!(matches!(d.format, Format::Qcow2));
}

#[test]
fn enum_labels_match_configuration_spelling() {
    assert_eq!(Format::Qcow2.as_str(), "qcow2");
    assert_eq!(Format::Raw.as_str(), "raw");
    assert_eq!(InodeFileHandles::Never.as_str(), "never");
    assert_eq!(InodeFileHandles::Prefer.as_str(), "prefer");
    assert_eq!(InodeFileHandles::Mandatory.as_str(), "mandatory");
}
