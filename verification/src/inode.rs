//! Inode records, directory entries, and the inode allocation bitmap.

use vstd::prelude::*;

use crate::ExtBitmap;
use crate::EXT2_NAME_LEN;
use crate::LINUX_S_IFBLK;
use crate::LINUX_S_IFCHR;
use crate::LINUX_S_IFDIR;
use crate::LINUX_S_IFIFO;
use crate::LINUX_S_IFLNK;
use crate::LINUX_S_IFREG;
use crate::LINUX_S_IFSOCK;
use crate::magic_is_32bit;
use crate::magic_is_64bit;

verus! {

/// One directory entry: the target inode number and the entry's name.
/// Entries read during iteration are plain copies; a caller that wants
/// the referenced object reads the inode for the recorded number.
#[derive(Clone, Debug)]
pub struct ExtDirEntry {
    /// Number of the inode the entry points at.
    pub inode: u32,
    /// The entry's name, as the raw bytes stored on disk.
    pub name: Vec<u8>,
}

/// On-disk record length of a directory entry with a name of `n` bytes:
/// an eight-byte header plus the name, padded to a multiple of four.
pub open spec fn spec_rec_len(n: nat) -> nat {
    8 + ((n + 3) / 4) * 4
}

impl ExtDirEntry {
    /// The space this entry occupies inside a directory block.
    pub fn rec_len(&self) -> (r: usize)
        requires
            self.name@.len() <= EXT2_NAME_LEN,
        ensures
            r == spec_rec_len(self.name@.len()),
    {
        8 + ((self.name.len() + 3) / 4) * 4
    }
}

/// The fields of one on-disk inode record, together with the typed
/// payloads the record addresses: the ordered list of data blocks, the
/// directory entries (for directories), and the link target (for fast
/// symlinks).
#[derive(Clone, Debug)]
pub struct ExtInodeData {
    /// File mode: type bits and permissions.
    pub mode: u16,
    /// Owning user id.
    pub uid: u16,
    /// File size in bytes.
    pub size: u32,
    /// Last-access time, in seconds since the epoch.
    pub atime: u32,
    /// Last-change time, in seconds since the epoch.
    pub ctime: u32,
    /// Last-modification time, in seconds since the epoch.
    pub mtime: u32,
    /// Deletion time, in seconds since the epoch; zero while live.
    pub dtime: u32,
    /// Owning group id.
    pub gid: u16,
    /// Number of directory entries pointing at this inode.
    pub links_count: u16,
    /// Inode flags.
    pub flags: u32,
    /// Generation number.
    pub generation: u32,
    /// The data blocks of the object, in file order.
    pub blocks: Vec<u64>,
    /// Directory payload: the entries, in order.  Empty unless the inode
    /// is a directory.
    pub entries: Vec<ExtDirEntry>,
    /// Fast-symlink payload: the target path bytes.  Empty unless the
    /// inode is a symlink.
    pub symlink_target: Vec<u8>,
}

/// The type nibble of a mode: the top four bits, which fully determine
/// the inode's type.
pub open spec fn spec_type_nibble(mode: u16) -> u32 {
    (mode as u32) & 0xF000u32
}

impl ExtInodeData {
    /// Whether the mode's type nibble names a directory.
    pub open spec fn spec_is_dir(&self) -> bool {
        spec_type_nibble(self.mode) == LINUX_S_IFDIR
    }

    /// Whether the mode's type nibble names a regular file.
    pub open spec fn spec_is_file(&self) -> bool {
        spec_type_nibble(self.mode) == LINUX_S_IFREG
    }

    /// Whether the mode's type nibble names a symbolic link.
    pub open spec fn spec_is_symlink(&self) -> bool {
        spec_type_nibble(self.mode) == LINUX_S_IFLNK
    }

    /// Whether the mode's type nibble names a block device.
    pub open spec fn spec_is_block_device(&self) -> bool {
        spec_type_nibble(self.mode) == LINUX_S_IFBLK
    }

    /// Whether the mode's type nibble names a character device.
    pub open spec fn spec_is_char_device(&self) -> bool {
        spec_type_nibble(self.mode) == LINUX_S_IFCHR
    }

    /// Whether the mode's type nibble names a FIFO.
    pub open spec fn spec_is_fifo(&self) -> bool {
        spec_type_nibble(self.mode) == LINUX_S_IFIFO
    }

    /// Whether the mode's type nibble names a socket.
    pub open spec fn spec_is_socket(&self) -> bool {
        spec_type_nibble(self.mode) == LINUX_S_IFSOCK
    }

    /// How many of the seven type predicates hold of this record.
    pub open spec fn spec_type_count(&self) -> int {
        (if self.spec_is_fifo() { 1int } else { 0int })
        + (if self.spec_is_char_device() { 1int } else { 0int })
        + (if self.spec_is_dir() { 1int } else { 0int })
        + (if self.spec_is_block_device() { 1int } else { 0int })
        + (if self.spec_is_file() { 1int } else { 0int })
        + (if self.spec_is_symlink() { 1int } else { 0int })
        + (if self.spec_is_socket() { 1int } else { 0int })
    }

    /// A record with every field zero and every payload empty.
    pub fn zeroed() -> (r: ExtInodeData)
        ensures
            r.mode == 0u16,
            r.uid == 0u16,
            r.size == 0u32,
            r.atime == 0u32,
            r.ctime == 0u32,
            r.mtime == 0u32,
            r.dtime == 0u32,
            r.gid == 0u16,
            r.links_count == 0u16,
            r.flags == 0u32,
            r.generation == 0u32,
            r.blocks@ == Seq::<u64>::empty(),
            r.entries@ == Seq::<ExtDirEntry>::empty(),
            r.symlink_target@ == Seq::<u8>::empty(),
    {
        ExtInodeData {
            mode: 0,
            uid: 0,
            size: 0,
            atime: 0,
            ctime: 0,
            mtime: 0,
            dtime: 0,
            gid: 0,
            links_count: 0,
            flags: 0,
            generation: 0,
            blocks: Vec::new(),
            entries: Vec::new(),
            symlink_target: Vec::new(),
        }
    }
}

/// An inode read from the table: its number together with the record.
/// Inodes are value types; mutating one changes nothing on the image
/// until it is written back through the session.
#[derive(Clone, Debug)]
pub struct ExtInode {
    /// The inode number.
    pub num: u32,
    /// The record.
    pub data: ExtInodeData,
}

impl ExtInode {
    /// The inode number.
    pub fn num(&self) -> (r: u32)
        ensures
            r == self.num,
    {
        self.num
    }

    /// The raw mode bits.
    pub fn mode(&self) -> (r: u16)
        ensures
            r == self.data.mode,
    {
        self.data.mode
    }

    /// Whether the mode's type nibble names a directory.
    pub fn is_dir(&self) -> (r: bool)
        ensures
            r == self.data.spec_is_dir(),
    {
        (self.data.mode as u32) & 0xF000u32 == LINUX_S_IFDIR
    }

    /// Whether the mode's type nibble names a regular file.
    pub fn is_file(&self) -> (r: bool)
        ensures
            r == self.data.spec_is_file(),
    {
        (self.data.mode as u32) & 0xF000u32 == LINUX_S_IFREG
    }

    /// Whether the mode's type nibble names a symbolic link.
    pub fn is_symlink(&self) -> (r: bool)
        ensures
            r == self.data.spec_is_symlink(),
    {
        (self.data.mode as u32) & 0xF000u32 == LINUX_S_IFLNK
    }

    /// Whether the mode's type nibble names a block device.
    pub fn is_block_device(&self) -> (r: bool)
        ensures
            r == self.data.spec_is_block_device(),
    {
        (self.data.mode as u32) & 0xF000u32 == LINUX_S_IFBLK
    }

    /// Whether the mode's type nibble names a character device.
    pub fn is_char_device(&self) -> (r: bool)
        ensures
            r == self.data.spec_is_char_device(),
    {
        (self.data.mode as u32) & 0xF000u32 == LINUX_S_IFCHR
    }

    /// Whether the mode's type nibble names a FIFO.
    pub fn is_fifo(&self) -> (r: bool)
        ensures
            r == self.data.spec_is_fifo(),
    {
        (self.data.mode as u32) & 0xF000u32 == LINUX_S_IFIFO
    }

    /// Whether the mode's type nibble names a socket.
    pub fn is_socket(&self) -> (r: bool)
        ensures
            r == self.data.spec_is_socket(),
    {
        (self.data.mode as u32) & 0xF000u32 == LINUX_S_IFSOCK
    }

    /// The file size in bytes.
    pub fn size(&self) -> (r: u64)
        ensures
            r == self.data.size as u64,
    {
        self.data.size as u64
    }

    /// Last-access time, in seconds since the epoch.
    pub fn atime(&self) -> (r: u64)
        ensures
            r == self.data.atime as u64,
    {
        self.data.atime as u64
    }

    /// Last-change time, in seconds since the epoch.
    pub fn ctime(&self) -> (r: u64)
        ensures
            r == self.data.ctime as u64,
    {
        self.data.ctime as u64
    }

    /// Last-modification time, in seconds since the epoch.
    pub fn mtime(&self) -> (r: u64)
        ensures
            r == self.data.mtime as u64,
    {
        self.data.mtime as u64
    }

    /// Deletion time, in seconds since the epoch.
    pub fn dtime(&self) -> (r: u64)
        ensures
            r == self.data.dtime as u64,
    {
        self.data.dtime as u64
    }
}

/// The mode bits fully determine an inode's type: at most one of the
/// seven type predicates holds of any record, and on a record whose
/// type nibble is one of the seven defined values exactly one holds.
pub proof fn lemma_inode_type_determined(d: ExtInodeData)
    ensures
        d.spec_type_count() <= 1,
        spec_type_nibble(d.mode) == LINUX_S_IFIFO || spec_type_nibble(d.mode) == LINUX_S_IFCHR
            || spec_type_nibble(d.mode) == LINUX_S_IFDIR || spec_type_nibble(d.mode)
            == LINUX_S_IFBLK || spec_type_nibble(d.mode) == LINUX_S_IFREG || spec_type_nibble(
            d.mode,
        ) == LINUX_S_IFLNK || spec_type_nibble(d.mode) == LINUX_S_IFSOCK ==> d.spec_type_count()
            == 1,
{
}

/// The inode allocation bitmap: one bit per inode, bit `i` standing for
/// inode number `i + 1`, plus the magic tag naming the addressing mode.
#[derive(Clone, Debug)]
pub struct ExtInodeBitmap {
    /// Magic-number tag from the bitmap header.
    pub magic: u32,
    /// Allocation bits; `true` means allocated.
    pub bits: Vec<bool>,
}

impl ExtInodeBitmap {
    /// Whether inode number `ino` is marked allocated.
    pub open spec fn spec_test(&self, ino: int) -> bool {
        self.bits@[ino - 1]
    }

    /// Whether inode number `ino` is marked allocated.
    pub fn test_ino(&self, ino: u32) -> (r: bool)
        requires
            1 <= ino && ino <= self.bits@.len(),
        ensures
            r == self.spec_test(ino as int),
    {
        self.bits[(ino - 1) as usize]
    }

    /// Mark inode number `ino` allocated.
    pub fn mark_ino(&mut self, ino: u32)
        requires
            1 <= ino && ino <= old(self).bits@.len(),
        ensures
            final(self).magic == old(self).magic,
            final(self).bits@ == old(self).bits@.update(ino - 1, true),
    {
        let idx: usize = (ino - 1) as usize;
        self.bits.set(idx, true);
    }

    /// Mark inode number `ino` free.
    pub fn unmark_ino(&mut self, ino: u32)
        requires
            1 <= ino && ino <= old(self).bits@.len(),
        ensures
            final(self).magic == old(self).magic,
            final(self).bits@ == old(self).bits@.update(ino - 1, false),
    {
        let idx: usize = (ino - 1) as usize;
        self.bits.set(idx, false);
    }
}

impl ExtBitmap for ExtInodeBitmap {
    open spec fn magic_tag(&self) -> u32 {
        self.magic
    }

    fn is_32bit(&self) -> (r: bool) {
        self.magic == crate::MAGIC_GENERIC_BITMAP || self.magic == crate::MAGIC_INODE_BITMAP
            || self.magic == crate::MAGIC_BLOCK_BITMAP
    }

    fn is_64bit(&self) -> (r: bool) {
        self.magic == crate::MAGIC_GENERIC_BITMAP64 || self.magic == crate::MAGIC_INODE_BITMAP64
            || self.magic == crate::MAGIC_BLOCK_BITMAP64
    }
}

} // verus!
