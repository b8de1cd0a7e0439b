use contain::config::{Disk, Format};
use contain::disk::{create_qcow2_image, plan_disk_provisioning, DiskAction, DiskImageError};

fn disk(path: &str, create: bool, size: u64) -> Disk {
    Disk {
        source: Some(path.to_string()),
        tag: "d".to_string(),
        write: true,
        create,
        size,
        format: Format::Qcow2,
    }
}

#[test]
fn provisioning_creates_only_absent_disks_with_create_flag() {
    let disks = vec![
        disk("/tmp/new.qcow2", true, 100),
        disk("/tmp/kept.qcow2", true, 100),
        disk("/tmp/attach-only.qcow2", false, 100),
    ];
    let exists = vec![false, true, false];
    let plan = plan_disk_provisioning(&disks, &exists);
    assert_eq!(
        plan,
        vec![
            DiskAction::CreateImage { path: "/tmp/new.qcow2".to_string(), size_mib: 100 },
            DiskAction::Keep,
            DiskAction::Keep,
        ]
    );
}

#[test]
fn existing_path_is_never_touched() {
    let disks = vec![disk("/tmp/kept.qcow2", true, 100)];
    let plan = plan_disk_provisioning(&disks, &vec![true]);
    assert_eq!(plan, vec![DiskAction::Keep]);
}

#[test]
fn fresh_image_is_valid_qcow2_of_declared_size() {
    let bytes = create_qcow2_image(1).unwrap();
    // header cluster + one refcount-table cluster + one refcount block,
    // plus the first sector of the L1 table
    assert_eq!(bytes.len(), 3 * 65536 + 512);
    // magic "QFI\xfb"
    assert_eq!(&bytes[0..4], &[0x51, 0x46, 0x49, 0xfb]);
    // version 3, big endian
    assert_eq!(&bytes[4..8], &[0, 0, 0, 3]);
    // virtual size in bytes at offset 24, big endian: 1 MiB
    let size = u64::from_be_bytes(bytes[24..32].try_into().unwrap());
    assert_eq!(size, 1024 * 1024);
    // cluster_bits 16 at offset 20
    let cluster_bits = u32::from_be_bytes(bytes[20..24].try_into().unwrap());
    assert_eq!(cluster_bits, 16);
}

#[test]
fn larger_images_grow_the_refcount_table() {
    // 64 GiB: 32 refcount-table entries, still one table cluster
    let bytes = create_qcow2_image(64 * 1024).unwrap();
    assert_eq!(bytes.len(), 3 * 65536 + 512);
    let size = u64::from_be_bytes(bytes[24..32].try_into().unwrap());
    assert_eq!(size, 64 * 1024 * 1024 * 1024);
}

#[test]
fn zero_and_oversized_disks_are_rejected() {
    assert!(matches!(create_qcow2_image(0), Err(DiskImageError::SizeOutOfRange)));
    assert!(matches!(
        create_qcow2_image(0x100001),
        Err(DiskImageError::SizeOutOfRange)
    ));
    // the largest supported size still succeeds
    assert!(create_qcow2_image(0x100000).is_ok());
}
