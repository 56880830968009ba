//! Handle wrappers: inode type predicates, timestamps, bitmap
//! addressing modes, block numbers, and file-handle states.

use flail::ExtBitmap;
use flail::MAGIC_BLOCK_BITMAP;
use flail::MAGIC_BLOCK_BITMAP64;
use flail::MAGIC_GENERIC_BITMAP;
use flail::MAGIC_INODE_BITMAP;
use flail::MAGIC_INODE_BITMAP64;
use flail::block::ExtBlock;
use flail::block::ExtBlockBitmap;
use flail::file::ExtFileState;
use flail::inode::ExtDirEntry;
use flail::inode::ExtInode;
use flail::inode::ExtInodeBitmap;
use flail::inode::ExtInodeData;

fn inode_with_mode(mode: u16) -> ExtInode {
    let mut data = ExtInodeData::zeroed();
    data.mode = mode;
    ExtInode { num: 7, data }
}

#[test]
fn test_inode_type_predicates() {
    let dir = inode_with_mode(0x41ED);
    assert!(dir.is_dir());
    assert!(!dir.is_file());
    assert!(!dir.is_symlink());

    let file = inode_with_mode(0x81A4);
    assert!(file.is_file());
    assert!(!file.is_dir());
    assert!(!file.is_symlink());

    let link = inode_with_mode(0xA1FF);
    assert!(link.is_symlink());
    assert!(!link.is_dir());

    let fifo = inode_with_mode(0x1180);
    assert!(fifo.is_fifo());
    let sock = inode_with_mode(0xC1FF);
    assert!(sock.is_socket());
    let blk = inode_with_mode(0x61A0);
    assert!(blk.is_block_device());
    let chr = inode_with_mode(0x21A0);
    assert!(chr.is_char_device());
}

#[test]
fn test_inode_accessors() {
    let mut data = ExtInodeData::zeroed();
    data.mode = 0x81A4;
    data.size = 4321;
    data.atime = 11;
    data.ctime = 22;
    data.mtime = 33;
    data.dtime = 44;
    let ino = ExtInode { num: 42, data };
    assert_eq!(ino.num(), 42);
    assert_eq!(ino.mode(), 0x81A4);
    assert_eq!(ino.size(), 4321);
    assert_eq!(ino.atime(), 11);
    assert_eq!(ino.ctime(), 22);
    assert_eq!(ino.mtime(), 33);
    assert_eq!(ino.dtime(), 44);
}

#[test]
fn test_bitmap_addressing_modes_are_exclusive() {
    let tags32 = [MAGIC_GENERIC_BITMAP, MAGIC_INODE_BITMAP, MAGIC_BLOCK_BITMAP];
    for tag in tags32 {
        let bm = ExtInodeBitmap { magic: tag, bits: Vec::new() };
        assert!(bm.is_32bit());
        assert!(!bm.is_64bit());
    }
    let tags64 = [MAGIC_INODE_BITMAP64, MAGIC_BLOCK_BITMAP64];
    for tag in tags64 {
        let bm = ExtBlockBitmap { magic: tag, bits: Vec::new() };
        assert!(bm.is_64bit());
        assert!(!bm.is_32bit());
    }
}

#[test]
fn test_bitmap_bits() {
    let mut bm = ExtInodeBitmap { magic: MAGIC_INODE_BITMAP64, bits: vec![false; 16] };
    assert!(!bm.test_ino(5));
    bm.mark_ino(5);
    assert!(bm.test_ino(5));
    bm.unmark_ino(5);
    assert!(!bm.test_ino(5));

    let mut bb = ExtBlockBitmap { magic: MAGIC_BLOCK_BITMAP64, bits: vec![false; 16] };
    bb.mark_block(3);
    assert!(bb.test_block(3));
    assert!(!bb.test_block(4));
}

#[test]
fn test_block_number() {
    let b = ExtBlock(987654321);
    assert_eq!(b.num(), 987654321);
}

#[test]
fn test_file_state() {
    assert_eq!(ExtFileState::Open, ExtFileState::Open);
    assert_ne!(ExtFileState::Open, ExtFileState::Closed);
}

#[test]
fn test_dir_entry_rec_len() {
    let e = ExtDirEntry { inode: 11, name: b"lost+found".to_vec() };
    assert_eq!(e.rec_len(), 8 + 12);
    let e1 = ExtDirEntry { inode: 2, name: b".".to_vec() };
    assert_eq!(e1.rec_len(), 12);
    let e4 = ExtDirEntry { inode: 2, name: b"abcd".to_vec() };
    assert_eq!(e4.rec_len(), 12);
}

#[test]
fn test_type_predicates_exclusive() {
    // The type nibble names exactly one type: a block device is
    // neither a directory nor a character device, a socket is neither
    // a directory nor a file, and a symlink is no file.
    let blk = inode_with_mode(0x61A0);
    assert!(blk.is_block_device());
    assert!(!blk.is_dir());
    assert!(!blk.is_char_device());

    let sock = inode_with_mode(0xC1FF);
    assert!(sock.is_socket());
    assert!(!sock.is_dir());
    assert!(!sock.is_file());

    let link = inode_with_mode(0xA1FF);
    assert!(link.is_symlink());
    assert!(!link.is_file());
}
