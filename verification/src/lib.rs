//! Access layer over an ext-family filesystem image held in memory.
//!
//! The crate models the on-disk structures of an ext2/3/4 image
//! (superblock, group descriptors, bitmaps, inode table, extent lists,
//! directory entries) as typed values owned by a single session object,
//! [`session::ExtFilesystem`].  All structural reads and mutations go
//! through the session; the raw image bytes are produced by flushing a
//! session and consumed by opening one.  Callers that keep the image in a
//! file read it into memory before opening a session and write the
//! flushed bytes back afterwards; that outer layer also supplies the
//! locking discipline, since the session itself is a single-owner value
//! whose mutations take `&mut self`.

use vstd::prelude::*;

pub mod allocator;
pub mod block;
pub mod bytes;
pub mod consistency;
pub mod dir;
pub mod file;
pub mod geometry;
pub mod host;
pub mod image;
pub mod inode;
pub mod io;
pub mod messages;
pub mod rw;
pub mod session;
pub mod tree;

verus! {

/// Number of the root directory inode, fixed by the on-disk format.
pub const EXT2_ROOT_INO: u32 = 2;

/// Number of the `lost+found` directory inode on a freshly built image:
/// the first inode past the reserved range.
pub const EXT2_LPF_INO: u32 = 11;

/// Number of the bad-blocks inode.
pub const EXT2_BAD_INO: u32 = 1;

/// Longest directory-entry name the format stores.
pub const EXT2_NAME_LEN: usize = 255;

/// Open the filesystem for read/write.
pub const EXT2_FLAG_RW: i32 = 0x01;

/// Open the filesystem even if some features are unsupported.
pub const EXT2_FLAG_FORCE: i32 = 0x400;

/// Opening an ext3 journal device is acceptable.
pub const EXT2_FLAG_JOURNAL_DEV_OK: i32 = 0x1000;

/// Allow 64-bit bitfields (needed for large filesystems).
pub const EXT2_FLAG_64BITS: i32 = 0x20000;

/// Open without the multi-mount-protection check.
pub const EXT2_FLAG_SKIP_MMP: i32 = 0x100000;

/// Open a file handle for writing.
pub const EXT2_FILE_WRITE: i32 = 0x01;

/// Create the file when opening.
pub const EXT2_FILE_CREATE: i32 = 0x02;

/// Mode bits: FIFO.
pub const LINUX_S_IFIFO: u32 = 0x1000;

/// Mode bits: character device.
pub const LINUX_S_IFCHR: u32 = 0x2000;

/// Mode bits: directory.
pub const LINUX_S_IFDIR: u32 = 0x4000;

/// Mode bits: block device.
pub const LINUX_S_IFBLK: u32 = 0x6000;

/// Mode bits: regular file.
pub const LINUX_S_IFREG: u32 = 0x8000;

/// Mode bits: symbolic link.
pub const LINUX_S_IFLNK: u32 = 0xA000;

/// Mode bits: socket.
pub const LINUX_S_IFSOCK: u32 = 0xC000;

/// Inode flag: the inode maps its data through an extent list.
pub const EXT4_EXTENTS_FL: u32 = 0x80000;

/// Bitmap header tag: generic bitmap, 32-bit addressing.
pub const MAGIC_GENERIC_BITMAP: u32 = 2133571338;

/// Bitmap header tag: inode bitmap, 32-bit addressing.
pub const MAGIC_INODE_BITMAP: u32 = 2133571337;

/// Bitmap header tag: block bitmap, 32-bit addressing.
pub const MAGIC_BLOCK_BITMAP: u32 = 2133571336;

/// Bitmap header tag: generic bitmap, 64-bit addressing.  The 64-bit tags
/// sit directly after the extended status block.
pub const MAGIC_GENERIC_BITMAP64: u32 = 2133571511;

/// Bitmap header tag: block bitmap, 64-bit addressing.
pub const MAGIC_BLOCK_BITMAP64: u32 = 2133571512;

/// Bitmap header tag: inode bitmap, 64-bit addressing.
pub const MAGIC_INODE_BITMAP64: u32 = 2133571513;

/// Whether a bitmap header tag names one of the 32-bit-addressed layouts.
pub open spec fn magic_is_32bit(magic: u32) -> bool {
    magic == MAGIC_GENERIC_BITMAP || magic == MAGIC_INODE_BITMAP || magic == MAGIC_BLOCK_BITMAP
}

/// Whether a bitmap header tag names one of the 64-bit-addressed layouts.
pub open spec fn magic_is_64bit(magic: u32) -> bool {
    magic == MAGIC_GENERIC_BITMAP64 || magic == MAGIC_INODE_BITMAP64
        || magic == MAGIC_BLOCK_BITMAP64
}

/// Whether a bitmap header tag is one the library recognises at all.
pub open spec fn magic_is_valid(magic: u32) -> bool {
    magic_is_32bit(magic) || magic_is_64bit(magic)
}

/// A bitmap's addressing-mode predicates, derived from the magic-number
/// tag in its header.  A caller must check the mode before indexing, or a
/// 64-bit block number may be silently truncated.
pub trait ExtBitmap {
    /// The magic-number tag carried in the bitmap header.
    spec fn magic_tag(&self) -> u32;

    /// Whether the bitmap uses 32-bit addressing.
    fn is_32bit(&self) -> (r: bool)
        ensures
            r == magic_is_32bit(self.magic_tag()),
    ;

    /// Whether the bitmap uses 64-bit addressing.
    fn is_64bit(&self) -> (r: bool)
        ensures
            r == magic_is_64bit(self.magic_tag()),
    ;
}

/// On a bitmap whose header tag is valid, the two addressing-mode
/// predicates are mutually exclusive and jointly exhaustive: exactly one
/// of them holds.
pub proof fn lemma_addressing_modes_exclusive(magic: u32)
    requires
        magic_is_valid(magic),
    ensures
        magic_is_32bit(magic) != magic_is_64bit(magic),
{
}

} // verus!
