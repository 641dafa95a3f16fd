//! The sizes of a volume.

use vstd::prelude::*;

verus! {

/// The sizes of a volume, in bytes.
#[derive(Clone, Debug)]
pub struct VolumeInformation {
    pub free_bytes: u64,
    pub available_bytes: u64,
    pub total_bytes: u64,
    pub allocation_granularity: u64,
}

/// `blocks` blocks of `block_size` bytes each, in bytes, modulo 2^64.
pub open spec fn bytes_of_blocks(block_size: u64, blocks: u64) -> u64 {
    ((block_size * blocks) % 0x1_0000_0000_0000_0000) as u64
}

impl VolumeInformation {
    /// The sizes of a volume that is counted in blocks: `block_size` bytes
    /// to the block, and so many blocks free, available to the caller, and
    /// in all. Sizes wrap modulo 2^64.
    pub fn from_blocks(block_size: u64, free: u64, available: u64, total: u64) -> (r:
        VolumeInformation)
        ensures
            r.free_bytes == bytes_of_blocks(block_size, free),
            r.available_bytes == bytes_of_blocks(block_size, available),
            r.total_bytes == bytes_of_blocks(block_size, total),
            r.allocation_granularity == block_size,
    {
        VolumeInformation {
            free_bytes: block_size.wrapping_mul(free),
            available_bytes: block_size.wrapping_mul(available),
            total_bytes: block_size.wrapping_mul(total),
            allocation_granularity: block_size,
        }
    }

    /// The sizes of a volume that is counted in clusters of sectors. The
    /// free clusters are all available to the caller.
    pub fn from_clusters(
        sectors_per_cluster: u32,
        bytes_per_sector: u32,
        free_clusters: u32,
        total_clusters: u32,
    ) -> (r: VolumeInformation)
        ensures
            r.allocation_granularity == sectors_per_cluster * bytes_per_sector,
            r.free_bytes == bytes_of_blocks(r.allocation_granularity, free_clusters as u64),
            r.available_bytes == r.free_bytes,
            r.total_bytes == bytes_of_blocks(r.allocation_granularity, total_clusters as u64),
    {
        assert(sectors_per_cluster * bytes_per_sector <= u64::MAX) by (nonlinear_arith)
            requires
                sectors_per_cluster <= u32::MAX,
                bytes_per_sector <= u32::MAX,
        ;
        let cluster_size = (sectors_per_cluster as u64) * (bytes_per_sector as u64);
        VolumeInformation::from_blocks(
            cluster_size,
            free_clusters as u64,
            free_clusters as u64,
            total_clusters as u64,
        )
    }
}

} // verus!
