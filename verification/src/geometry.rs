//! The superblock and the derived layout of a mounted image: group
//! count, descriptor-table size, per-group metadata extent, and the
//! classification of metadata blocks.
//!
//! The library works with the classic small-block layout: 1024-byte
//! blocks, the superblock in block 1, 8192 blocks per group, 128-byte
//! inode records, and a 64-byte group descriptor in every group (no
//! sparse-superblock layout, so every group carries its backup copies).

use vstd::prelude::*;

verus! {

/// Block size of every image this library builds or opens.
pub const EXT2_BLOCK_SIZE: u32 = 1024;

/// Blocks per group under the 1024-byte block size.
pub const EXT2_BLOCKS_PER_GROUP: u32 = 8192;

/// Size of one on-disk inode record.
pub const EXT2_INODE_SIZE: u16 = 128;

/// Size of one group descriptor under the 64-bit feature.
pub const EXT2_DESC_SIZE: u16 = 64;

/// The superblock magic number.
pub const EXT2_SUPER_MAGIC: u16 = 0xEF53;

/// Feature flag: extent-mapped inodes are in use (incompat set).
pub const FEATURE_INCOMPAT_EXTENTS: u32 = 0x40;

/// Feature flag: 64-bit block counts (incompat set).
pub const FEATURE_INCOMPAT_64BIT: u32 = 0x80;

/// Feature flag: large files (read-only-compat set).
pub const FEATURE_RO_COMPAT_LARGE_FILE: u32 = 0x2;

/// Feature flag: huge files (read-only-compat set).
pub const FEATURE_RO_COMPAT_HUGE_FILE: u32 = 0x8;

/// Feature flag: directories may carry more than 65000 links
/// (read-only-compat set).
pub const FEATURE_RO_COMPAT_DIR_NLINK: u32 = 0x20;

/// Largest block count the in-memory representation accepts (a two
/// gibibyte image).
pub const EXT2_MAX_BLOCKS: u64 = 0x200000;

/// The filesystem-wide metadata record, with the layout values derived
/// from it stored alongside so that both specifications and executable
/// code read them directly.
#[derive(Clone, Debug)]
pub struct Superblock {
    /// Total number of inodes.
    pub inodes_count: u32,
    /// Total number of blocks, including the boot block.
    pub blocks_count: u64,
    /// Blocks reserved for the superuser.
    pub r_blocks_count: u64,
    /// Number of the first data block (1 under 1024-byte blocks).
    pub first_data_block: u64,
    /// Block size in bytes.
    pub block_size: u32,
    /// Blocks per block group.
    pub blocks_per_group: u32,
    /// Inodes per block group.
    pub inodes_per_group: u32,
    /// First inode number available for ordinary allocation.
    pub first_ino: u32,
    /// Size of one on-disk inode record.
    pub inode_size: u16,
    /// Size of one group descriptor.
    pub desc_size: u16,
    /// Superblock magic number.
    pub magic: u16,
    /// Filesystem state bits; 1 means cleanly unmounted.
    pub state: u16,
    /// Error-handling policy bits.
    pub errors: u16,
    /// Major revision level.
    pub rev_level: u32,
    /// Minor revision level.
    pub minor_rev_level: u16,
    /// Creator operating system tag.
    pub creator_os: u32,
    /// Compatible feature flags.
    pub feature_compat: u32,
    /// Incompatible feature flags.
    pub feature_incompat: u32,
    /// Read-only-compatible feature flags.
    pub feature_ro_compat: u32,
    /// Checksum algorithm tag.
    pub checksum_type: u8,
    /// Mounts between forced checks.
    pub max_mnt_count: u16,
    /// Mounts since the last check.
    pub mnt_count: u16,
    /// Seconds between forced checks.
    pub checkinterval: u32,
    /// Kibibytes written over the filesystem's lifetime.
    pub kbytes_written: u64,
    /// Clusters counted as format-time overhead.
    pub overhead_clusters: u32,
    /// Volume UUID, sixteen bytes.
    pub uuid: Vec<u8>,
    /// Volume label, sixteen bytes.
    pub volume_name: Vec<u8>,
    /// Number of block groups (derived).
    pub group_count: u32,
    /// Blocks occupied by the group descriptor table (derived).
    pub gdt_blocks: u32,
    /// Blocks occupied by one group's slice of the inode table (derived).
    pub itable_blocks: u32,
    /// Blocks of metadata at the head of every group: superblock copy,
    /// descriptor table copy, two bitmaps, inode table slice (derived).
    pub meta_per_group: u32,
}

impl Superblock {
    /// The derived layout values agree with the counts, every count is
    /// in range, and every group has room for its metadata head.
    pub open spec fn wf(self) -> bool {
        &&& self.block_size == EXT2_BLOCK_SIZE
        &&& self.magic == EXT2_SUPER_MAGIC
        &&& self.first_data_block == 1
        &&& self.blocks_per_group == EXT2_BLOCKS_PER_GROUP
        &&& self.inode_size == EXT2_INODE_SIZE
        &&& self.desc_size == EXT2_DESC_SIZE
        &&& 2 <= self.blocks_count <= EXT2_MAX_BLOCKS
        &&& self.group_count == ((self.blocks_count - 1) + 8191) / 8192
        &&& self.gdt_blocks == ((self.group_count * 64) + 1023) / 1024
        &&& self.inodes_per_group % 8 == 0
        &&& 8 <= self.inodes_per_group <= 8192
        &&& self.itable_blocks == self.inodes_per_group / 8
        &&& self.meta_per_group == 3 + self.gdt_blocks + self.itable_blocks
        &&& self.inodes_count == self.inodes_per_group * self.group_count
        &&& 11 <= self.inodes_count <= 0x200000
        &&& self.first_ino == 11
        &&& self.meta_per_group < self.blocks_per_group
        &&& self.blocks_count >= 1 + (self.group_count - 1) * 8192 + self.meta_per_group + 1
        &&& self.uuid@.len() == 16
        &&& self.volume_name@.len() == 16
    }

    /// First block of group `g`.
    pub open spec fn group_base(self, g: int) -> int {
        1 + g * 8192
    }

    /// Block holding group `g`'s block bitmap.
    pub open spec fn bbm_block(self, g: int) -> int {
        self.group_base(g) + 1 + self.gdt_blocks
    }

    /// Block holding group `g`'s inode bitmap.
    pub open spec fn ibm_block(self, g: int) -> int {
        self.bbm_block(g) + 1
    }

    /// First block of group `g`'s inode-table slice.
    pub open spec fn itable_start(self, g: int) -> int {
        self.ibm_block(g) + 1
    }

    /// Whether block `b` belongs to the format's own structures: the
    /// boot block, or the metadata head of its group.
    pub open spec fn is_metadata_block(self, b: int) -> bool {
        b < 1 || (b - 1) % 8192 < self.meta_per_group
    }

    /// Whether block `b` belongs to the format's own structures.
    pub fn is_metadata_block_exec(&self, b: u64) -> (r: bool)
        ensures
            r == self.is_metadata_block(b as int),
    {
        b < 1 || (b - 1) % 8192 < self.meta_per_group as u64
    }

    /// The group a valid inode number belongs to.
    pub open spec fn group_of_ino(self, ino: int) -> int {
        (ino - 1) / (self.inodes_per_group as int)
    }
}

} // verus!
