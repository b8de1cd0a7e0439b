//! Disk provisioning: deciding which declared disks need a fresh image,
//! and computing the bytes of an empty QCOW2 image of a declared size.
//!
//! A disk is materialized only when its `create` flag is set and its
//! path does not exist; an existing path is never touched. Images use
//! 64 KiB clusters (cluster_bits 16), refcount order 4 and a 512-byte
//! block size; the image holds the header cluster, the refcount table
//! and one refcount block, plus the first sector of the L1 table, and
//! may stay sparse beyond that.

use vstd::prelude::*;
use crate::config::Disk;

verus! {

/// How many clusters the refcount table of an image of `size` bytes
/// occupies, for 64 KiB clusters, refcount order 4 and 512-byte blocks:
/// one table entry per 2 GiB of image, eight bytes each, rounded up to
/// a 512-byte block and capped at 8 MiB, in whole clusters.
pub open spec fn spec_rc_table_clusters(size: int) -> int {
    let entries = (size + 0x7fffffff) / 0x80000000;
    let table_bytes = ((entries * 8 + 511) / 512) * 512;
    let capped = if table_bytes < 0x800000 {
        table_bytes
    } else {
        0x800000
    };
    (capped + 0xffff) / 0x10000
}

/// The byte length of a freshly provisioned image for a declared size
/// in MiB: header cluster, refcount table, one refcount block, and the
/// first sector of the L1 table.
pub open spec fn spec_qcow2_image_len(size_mib: int) -> int {
    (2 + spec_rc_table_clusters(size_mib * 0x100000)) * 0x10000 + 512
}

/// The content of a freshly formatted image buffer of `len` bytes for a
/// virtual size of `size` bytes, with the fixed cluster and refcount
/// parameters above.
pub uninterp spec fn qcow2_image_of(len: int, size: int) -> Seq<u8>;

#[verifier::external_type_specification]
#[verifier::external_body]
pub struct ExQcow2Error(qcow2_rs::error::Qcow2Error);

/// Relies on `Qcow2Header::calculate_meta_params`: for 64 KiB clusters,
/// refcount order 4 and 512-byte blocks it reports the refcount table
/// extent in clusters as computed by `spec_rc_table_clusters`, and a
/// single refcount block cluster.
#[verifier::external_body]
fn qcow2_meta_params(size: u64, cluster_bits: usize, refcount_order: u8, block_size: usize)
    -> (r: ((u64, u32), (u64, u32), (u64, u32)))
    requires
        cluster_bits == 16,
        refcount_order == 4,
        block_size == 512,
        1 <= size <= 0x10000000000,
    ensures
        r.0.1 as int == spec_rc_table_clusters(size as int),
        r.1.1 == 1,
{
    qcow2_rs::meta::Qcow2Header::calculate_meta_params(size, cluster_bits, refcount_order, block_size)
}

/// Relies on `Qcow2Header::format_qcow2`: writes the header and the
/// refcount metadata of an empty image into a zeroed buffer; the result
/// depends only on the buffer length and the arguments.
#[verifier::external_body]
fn qcow2_format(len: usize, size: u64, cluster_bits: usize, refcount_order: u8, block_size: usize)
    -> (r: Result<Vec<u8>, qcow2_rs::error::Qcow2Error>)
    requires
        cluster_bits == 16,
        refcount_order == 4,
        block_size == 512,
        1 <= size <= 0x10000000000,
        len as int == (2 + spec_rc_table_clusters(size as int)) * 0x10000 + 512,
    ensures
        r matches Ok(buf) ==> buf@.len() == len && buf@ == qcow2_image_of(
            len as int,
            size as int,
        ),
{
    let mut buf = vec![0u8; len];
    match qcow2_rs::meta::Qcow2Header::format_qcow2(&mut buf, size, cluster_bits, refcount_order, block_size) {
        Ok(()) => Ok(buf),
        Err(e) => Err(e),
    }
}

/// Why an image could not be computed: a declared size outside the
/// supported range (zero, or above 1 TiB), or a failure reported by the
/// image formatter.
#[derive(Debug)]
pub enum DiskImageError {
    SizeOutOfRange,
    Format(qcow2_rs::error::Qcow2Error),
}

/// Computes the bytes of an empty QCOW2 image of `size_mib` MiB.
/// Succeeds with the exact formatted image unless the size is out of
/// range or the formatter reports a failure; a size of zero or above
/// 1 TiB is rejected before anything is computed.
pub fn create_qcow2_image(size_mib: u64) -> (r: Result<Vec<u8>, DiskImageError>)
    ensures
        r matches Ok(bytes) ==> 1 <= size_mib <= 0x100000 && bytes@.len()
            == spec_qcow2_image_len(size_mib as int) && bytes@ == qcow2_image_of(
            spec_qcow2_image_len(size_mib as int),
            size_mib as int * 0x100000,
        ),
        r matches Err(e) ==> (e is SizeOutOfRange <==> (size_mib == 0 || size_mib > 0x100000)),
{
    if size_mib == 0 || size_mib > 0x100000 {
        return Err(DiskImageError::SizeOutOfRange);
    }
    let size: u64 = size_mib * 0x100000;
    let meta = qcow2_meta_params(size, 16, 4, 512);
    let rc_table_clusters: u64 = meta.0.1 as u64;
    proof {
        assert(spec_rc_table_clusters(size as int) <= 129) by {
            let entries = (size as int + 0x7fffffff) / 0x80000000;
            let table_bytes = ((entries * 8 + 511) / 512) * 512;
            assert(table_bytes >= 0);
            let capped = if table_bytes < 0x800000 { table_bytes } else { 0x800000 };
            assert(capped <= 0x800000);
            assert((capped + 0xffff) / 0x10000 <= (0x800000 + 0xffff) / 0x10000);
        }
    }
    let clusters: u64 = 2 + rc_table_clusters;
    let len_u64: u64 = clusters * 0x10000 + 512;
    let len: usize = len_u64 as usize;
    match qcow2_format(len, size, 16, 4, 512) {
        Ok(bytes) => Ok(bytes),
        Err(e) => Err(DiskImageError::Format(e)),
    }
}

/// What to do for one declared disk at launch.
#[derive(Debug, PartialEq, Eq)]
pub enum DiskAction {
    /// Materialize a fresh empty image of the declared size at the
    /// disk's path.
    CreateImage { path: String, size_mib: u64 },
    /// Leave the disk alone.
    Keep,
}

/// Decides, for each disk, whether a fresh image is materialized.
/// A disk is created exactly when its `create` flag is set and its path
/// does not exist; in particular an existing path is always kept
/// untouched, whatever the flags say.
pub fn plan_disk_provisioning(disks: &Vec<Disk>, exists: &Vec<bool>) -> (r: Vec<DiskAction>)
    requires
        exists@.len() == disks@.len(),
        forall|i: int| 0 <= i < disks@.len() ==> (#[trigger] disks@[i].source) is Some,
    ensures
        r@.len() == disks@.len(),
        forall|i: int| 0 <= i < disks@.len() && (exists@[i] || !disks@[i].create)
            ==> (#[trigger] r@[i]) is Keep,
        forall|i: int| 0 <= i < disks@.len() && !exists@[i] && disks@[i].create
            ==> ((#[trigger] r@[i]) matches DiskAction::CreateImage { path, size_mib }
                && path@ == disks@[i].source->0@ && size_mib == disks@[i].size),
{
    let mut r: Vec<DiskAction> = Vec::new();
    let n = disks.len();
    let mut i: usize = 0;
    while i < n
        invariant
            i <= n,
            n == disks@.len(),
            exists@.len() == disks@.len(),
            forall|k: int| 0 <= k < disks@.len() ==> (#[trigger] disks@[k].source) is Some,
            r@.len() == i,
            forall|k: int| 0 <= k < i && (exists@[k] || !disks@[k].create)
                ==> (#[trigger] r@[k]) is Keep,
            forall|k: int| 0 <= k < i && !exists@[k] && disks@[k].create
                ==> ((#[trigger] r@[k]) matches DiskAction::CreateImage { path, size_mib }
                    && path@ == disks@[k].source->0@ && size_mib == disks@[k].size),
        decreases n - i,
    {
        if disks[i].create && !exists[i] {
            let path = match &disks[i].source {
                Some(p) => p.clone(),
                None => String::new(),
            };
            r.push(DiskAction::CreateImage { path, size_mib: disks[i].size });
        } else {
            r.push(DiskAction::Keep);
        }
        i = i + 1;
    }
    r
}

} // verus!
