//! Session scenarios: building images, directory operations, file
//! round trips, removal semantics, allocation uniqueness, consistency
//! after mutation sequences, and the lost+found self-heal.

use flail::EXT2_FILE_CREATE;
use flail::EXT2_FILE_WRITE;
use flail::EXT2_FLAG_64BITS;
use flail::EXT2_FLAG_RW;
use flail::EXT2_LPF_INO;
use flail::EXT2_ROOT_INO;
use flail::ExtBitmap;
use flail::messages::ExtEtMessage;
use flail::messages::ExtReport;
use flail::session::ExtFilesystem;

const SMALL_IMAGE: u64 = 1024 * 1024;

#[test]
fn test_making_new_fs_works() {
    // Build a sixteen-mebibyte image, write a file into it, reopen the
    // image from its raw bytes, and read the file back.
    let mut fs = ExtFilesystem::create(16 * 1024 * 1024).unwrap();
    let data = "hello flail";
    let written = fs.write_to_file("/test.txt", &data.as_bytes().to_vec()).unwrap();
    assert_eq!(data.len(), written);

    let img = fs.close().unwrap();
    assert_eq!(img.len(), 16 * 1024 * 1024);

    let fs2 = ExtFilesystem::open(img, None, Some(EXT2_FLAG_64BITS | EXT2_FLAG_RW)).unwrap();
    let mut out_buffer = vec![0u8; 11];
    let inode = fs2.lookup("/", "/test.txt").unwrap();
    let mut file = fs2.open_file(inode.num(), None).unwrap();
    let read = fs2.read_file(&mut file, &mut out_buffer).unwrap();
    assert_eq!(11, read);
    assert_eq!("hello flail", std::str::from_utf8(&out_buffer).unwrap());
    assert!(fs2.check_consistency());
}

#[test]
fn test_read_write_works() {
    let mut fs = ExtFilesystem::create(SMALL_IMAGE).unwrap();
    let data = "hello flail!";

    let inode = fs.new_inode(EXT2_ROOT_INO, 0o700).unwrap();
    let mut file = fs
        .open_file(inode.num(), Some(EXT2_FILE_CREATE | EXT2_FILE_WRITE))
        .unwrap();
    let written = fs.write_file(&mut file, &data.as_bytes().to_vec()).unwrap();
    assert_eq!(data.len(), written);

    let mut file = fs.open_file(inode.num(), None).unwrap();
    let mut out_buffer = vec![0u8; data.len()];
    let read = fs.read_file(&mut file, &mut out_buffer).unwrap();
    assert_eq!(written, read);
    assert_eq!(data.as_bytes(), out_buffer.as_slice());
}

#[test]
fn test_mkdir_works() {
    let mut fs = ExtFilesystem::create(SMALL_IMAGE).unwrap();
    fs.mkdir("/", "foo").unwrap();
    let inode = fs.find_inode("/foo").unwrap();
    assert!(inode.num() > 0);
    assert!(inode.is_dir());
}

#[test]
fn test_reading_directories_works() {
    let fs = ExtFilesystem::create(SMALL_IMAGE).unwrap();
    let entries = fs.iterate_dir("/").unwrap();
    assert!(entries.len() >= 3);
    for e in &entries {
        assert_ne!(e.inode, 0);
        assert_ne!(e.name.len(), 0);
    }
    assert_eq!(entries[0].name, b".".to_vec());
    assert_eq!(entries[1].name, b"..".to_vec());
    assert_eq!(entries[2].name, b"lost+found".to_vec());
    assert_eq!(entries[2].inode, EXT2_LPF_INO);
}

#[test]
fn test_passes_fsck() {
    // The consistency check plays the role of the external checker:
    // it must stay clean across every mutating sequence, and across a
    // teardown/reopen cycle.
    let mut fs = ExtFilesystem::create(SMALL_IMAGE).unwrap();
    assert!(fs.check_consistency());

    fs.mkdir("/", "foo").unwrap();
    assert!(fs.check_consistency());

    let data = "hello flail";
    let written = fs.write_to_file("/test.txt", &data.as_bytes().to_vec()).unwrap();
    assert_eq!(data.len(), written);
    assert!(fs.check_consistency());

    let mut out_buffer = vec![0u8; 11];
    let inode = fs.lookup("/", "/test.txt").unwrap();
    let mut file = fs.open_file(inode.num(), None).unwrap();
    let read = fs.read_file(&mut file, &mut out_buffer).unwrap();
    assert_eq!(11, read);
    assert_eq!("hello flail", std::str::from_utf8(&out_buffer).unwrap());

    fs.delete("/test.txt").unwrap();
    assert!(fs.check_consistency());

    let img = fs.close().unwrap();
    let fs2 = ExtFilesystem::open(img, None, Some(EXT2_FLAG_64BITS | EXT2_FLAG_RW)).unwrap();
    assert!(fs2.check_consistency());
}

#[test]
fn test_allocation_uniqueness() {
    let mut fs = ExtFilesystem::create(SMALL_IMAGE).unwrap();
    let a = fs.new_inode(EXT2_ROOT_INO, 0o600).unwrap();
    let b = fs.new_inode(EXT2_ROOT_INO, 0o600).unwrap();
    let c = fs.new_inode(EXT2_ROOT_INO, 0o600).unwrap();
    assert_ne!(a.num(), b.num());
    assert_ne!(b.num(), c.num());
    assert_ne!(a.num(), c.num());
    assert!(fs.inode_bitmap().test_ino(a.num()));
    assert!(fs.inode_bitmap().test_ino(b.num()));
    assert!(fs.inode_bitmap().test_ino(c.num()));

    let root = fs.read_inode(EXT2_ROOT_INO).unwrap();
    let b1 = fs.new_block(&root).unwrap();
    let b2 = fs.new_block(&root).unwrap();
    assert_ne!(b1, b2);
    assert!(fs.block_bitmap().test_block(b1));
    assert!(fs.block_bitmap().test_block(b2));
}

#[test]
fn test_next_free_block_scans_from_start() {
    let fs = ExtFilesystem::create(SMALL_IMAGE).unwrap();
    let b = fs.next_free_block().unwrap();
    assert!(b >= 1);
    assert!(!fs.block_bitmap().test_block(b));
    for x in 1..b {
        assert!(fs.block_bitmap().test_block(x));
    }
}

#[test]
fn test_unlink_keeps_link_count() {
    let mut fs = ExtFilesystem::create(SMALL_IMAGE).unwrap();
    fs.write_to_file("/a.txt", &b"payload".to_vec()).unwrap();
    let inode = fs.find_inode("/a.txt").unwrap();
    assert_eq!(inode.data.links_count, 1);

    fs.unlink("/a.txt").unwrap();
    // The entry is gone...
    let r = fs.find_inode("/a.txt");
    assert!(matches!(r, Err(ExtReport::Message(ExtEtMessage::FileNotFound))));
    // ...but the inode record is untouched.
    let again = fs.read_inode(inode.num()).unwrap();
    assert_eq!(again.data.links_count, 1);
    assert!(fs.inode_bitmap().test_ino(inode.num()));
}

#[test]
fn test_delete_frees_everything() {
    let mut fs = ExtFilesystem::create(SMALL_IMAGE).unwrap();
    fs.write_to_file("/b.txt", &b"some block payload".to_vec()).unwrap();
    let inode = fs.find_inode("/b.txt").unwrap();
    let blocks = inode.data.blocks.clone();
    assert!(!blocks.is_empty());
    assert_eq!(inode.data.links_count, 1);

    fs.delete("/b.txt").unwrap();
    let r = fs.find_inode("/b.txt");
    assert!(matches!(r, Err(ExtReport::Message(ExtEtMessage::FileNotFound))));
    let again = fs.read_inode(inode.num()).unwrap();
    assert_eq!(again.data.links_count, 0);
    assert!(!fs.inode_bitmap().test_ino(inode.num()));
    for b in blocks {
        assert!(!fs.block_bitmap().test_block(b));
    }
}

#[test]
fn test_link_bumps_link_count() {
    let mut fs = ExtFilesystem::create(SMALL_IMAGE).unwrap();
    fs.write_to_file("/orig.txt", &b"x".to_vec()).unwrap();
    fs.mkdir("/", "d").unwrap();
    let before = fs.find_inode("/orig.txt").unwrap();
    fs.link("/orig.txt", "/d/whatever").unwrap();
    let after = fs.read_inode(before.num()).unwrap();
    assert_eq!(after.data.links_count, before.data.links_count + 1);
    // The entry carries the source path's final name.
    let linked = fs.find_inode("/d/orig.txt").unwrap();
    assert_eq!(linked.num(), before.num());
}

#[test]
fn test_lost_found_self_heal() {
    let mut fs = ExtFilesystem::create(SMALL_IMAGE).unwrap();
    fs.delete("/lost+found").unwrap();
    assert!(fs.find_inode("/lost+found").is_err());
    let img = fs.close().unwrap();

    let fs2 = ExtFilesystem::open(img, None, Some(EXT2_FLAG_64BITS | EXT2_FLAG_RW)).unwrap();
    let lpf = fs2.find_inode("/lost+found").unwrap();
    assert!(lpf.is_dir());
    assert!(fs2.check_consistency());
}

#[test]
fn test_symlink_and_follow() {
    let mut fs = ExtFilesystem::create(SMALL_IMAGE).unwrap();
    fs.write_to_file("/t.txt", &b"target data".to_vec()).unwrap();
    let root = fs.root_inode().unwrap();
    fs.symlink(&root, None, "ln", "/t.txt").unwrap();

    let ln = fs.find_inode("/ln").unwrap();
    assert!(ln.is_symlink());
    let followed = fs.find_inode_follow("/ln").unwrap();
    assert!(followed.is_file());
    let direct = fs.find_inode("/t.txt").unwrap();
    assert_eq!(followed.num(), direct.num());
    assert!(fs.check_consistency());
}

#[test]
fn test_lookup_strips_leading_slash() {
    let mut fs = ExtFilesystem::create(SMALL_IMAGE).unwrap();
    fs.write_to_file("/test.txt", &b"abc".to_vec()).unwrap();
    let with_slash = fs.lookup("/", "/test.txt").unwrap();
    let without = fs.lookup("/", "test.txt").unwrap();
    assert_eq!(with_slash.num(), without.num());
}

#[test]
fn test_write_to_file_round_trip() {
    let mut fs = ExtFilesystem::create(SMALL_IMAGE).unwrap();
    let payload: Vec<u8> = (0..3000u32).map(|i| (i % 251) as u8).collect();
    let written = fs.write_to_file("/blob.bin", &payload).unwrap();
    assert_eq!(written, payload.len());

    let inode = fs.find_inode("/blob.bin").unwrap();
    assert_eq!(inode.size(), payload.len() as u64);
    let mut file = fs.open_file(inode.num(), None).unwrap();
    let mut out = vec![0u8; payload.len()];
    let read = fs.read_file(&mut file, &mut out).unwrap();
    assert_eq!(read, payload.len());
    assert_eq!(out, payload);
}

#[test]
fn test_root_and_reserved_inodes() {
    let fs = ExtFilesystem::create(SMALL_IMAGE).unwrap();
    let root = fs.root_inode().unwrap();
    assert_eq!(root.num(), EXT2_ROOT_INO);
    assert!(root.is_dir());
    for i in 1..=10u32 {
        assert!(fs.inode_bitmap().test_ino(i));
    }
    assert!(fs.inode_bitmap().test_ino(EXT2_LPF_INO));
    assert!(fs.inode_bitmap().is_64bit());
    assert!(!fs.inode_bitmap().is_32bit());
    assert!(fs.block_bitmap().is_64bit());
}

#[test]
fn test_volume_identity() {
    let fs = ExtFilesystem::create(SMALL_IMAGE).unwrap();
    // The volume UUID comes from the host's random source: sixteen
    // bytes, occupying the superblock field.
    assert_eq!(fs.sb.uuid.len(), 16);
    assert_eq!(&fs.sb.volume_name[0..5], b"flail");
}

#[test]
fn test_image_magic_bytes() {
    let mut fs = ExtFilesystem::create(SMALL_IMAGE).unwrap();
    fs.flush().unwrap();
    let img = fs.into_image();
    assert_eq!(img.len(), SMALL_IMAGE as usize);
    // The superblock magic sits at offset 56 of block 1, little-endian.
    assert_eq!(img[1024 + 56], 0x53);
    assert_eq!(img[1024 + 57], 0xEF);
}

#[test]
fn test_close_file_twice_is_an_error() {
    let fs = ExtFilesystem::create(SMALL_IMAGE).unwrap();
    let mut file = fs.open_file(EXT2_ROOT_INO, None).unwrap();
    assert!(fs.close_file(&mut file).is_ok());
    let r = fs.close_file(&mut file);
    assert_eq!(r, Err(ExtReport::FileAlreadyClosed));
}

#[test]
fn test_get_inode_number() {
    let fs = ExtFilesystem::create(SMALL_IMAGE).unwrap();
    let file = fs.open_file(EXT2_ROOT_INO, None).unwrap();
    assert_eq!(fs.get_inode_number(&file).unwrap(), EXT2_ROOT_INO);
    let got = fs.get_inode(&file).unwrap();
    assert_eq!(got.num(), EXT2_ROOT_INO);
    assert!(fs.flush_file(&file).is_ok());
}

#[test]
fn test_find_inode_missing_component() {
    let fs = ExtFilesystem::create(SMALL_IMAGE).unwrap();
    let r = fs.find_inode("/nope/nothing");
    assert!(matches!(r, Err(ExtReport::Message(ExtEtMessage::FileNotFound))));
}

#[test]
fn test_symlink_loop_detected() {
    let mut fs = ExtFilesystem::create(SMALL_IMAGE).unwrap();
    let root = fs.root_inode().unwrap();
    fs.symlink(&root, None, "one", "/two").unwrap();
    fs.symlink(&root, None, "two", "/one").unwrap();
    let r = fs.find_inode_follow("/one");
    assert!(matches!(r, Err(ExtReport::Message(ExtEtMessage::SymlinkLoop))));
}

#[test]
fn test_create_too_small() {
    let r = ExtFilesystem::create(1024);
    assert!(matches!(r, Err(ExtReport::Message(ExtEtMessage::TooSmall))));
}

#[test]
fn test_open_rejects_bad_magic() {
    let junk = vec![0u8; 4096];
    let r = ExtFilesystem::open(junk, None, None);
    assert!(matches!(r, Err(ExtReport::Message(ExtEtMessage::BadMagic))));
}

#[test]
fn test_open_rejects_other_block_size() {
    let fs = ExtFilesystem::create(SMALL_IMAGE).unwrap();
    let img = fs.close().unwrap();
    let r = ExtFilesystem::open(img, Some(4096), None);
    assert!(matches!(
        r,
        Err(ExtReport::Message(ExtEtMessage::UnexpectedBlockSize))
    ));
}

#[test]
fn test_write_inode_round_trip() {
    let mut fs = ExtFilesystem::create(SMALL_IMAGE).unwrap();
    fs.write_to_file("/w.txt", &b"zz".to_vec()).unwrap();
    let mut inode = fs.find_inode("/w.txt").unwrap();
    inode.data.uid = 1000;
    inode.data.gid = 1000;
    fs.write_inode(&inode).unwrap();
    let back = fs.read_inode(inode.num()).unwrap();
    assert_eq!(back.data.uid, 1000);
    assert_eq!(back.data.gid, 1000);
    assert!(fs.check_consistency());
}

#[test]
fn test_new_inode_rejects_type_bits() {
    let mut fs = ExtFilesystem::create(SMALL_IMAGE).unwrap();
    let r = fs.new_inode(EXT2_ROOT_INO, 0x4000);
    assert!(r.is_err());
}

#[test]
fn test_find_inode_goal_follows_last_block() {
    let mut fs = ExtFilesystem::create(SMALL_IMAGE).unwrap();
    let inode = fs.new_inode(EXT2_ROOT_INO, 0o600).unwrap();
    let goal = fs.find_inode_goal(&inode).unwrap();
    assert_eq!(goal.num(), *inode.data.blocks.last().unwrap());
}

#[test]
fn test_get_pathname() {
    let mut fs = ExtFilesystem::create(SMALL_IMAGE).unwrap();
    fs.mkdir("/", "foo").unwrap();
    fs.mkdir("/foo", "bar").unwrap();
    let root_path = fs.get_pathname(EXT2_ROOT_INO).unwrap();
    assert_eq!(root_path, b"/".to_vec());
    let foo = fs.find_inode("/foo").unwrap();
    assert_eq!(fs.get_pathname(foo.num()).unwrap(), b"/foo".to_vec());
    let bar = fs.find_inode("/foo/bar").unwrap();
    assert_eq!(fs.get_pathname(bar.num()).unwrap(), b"/foo/bar".to_vec());
}

#[test]
fn test_creation_stamps_times() {
    let mut fs = ExtFilesystem::create(SMALL_IMAGE).unwrap();
    let inode = fs.new_inode(EXT2_ROOT_INO, 0o600).unwrap();
    assert!(inode.mtime() > 0);
    assert!(inode.ctime() > 0);
}

#[test]
fn test_read_file_rejects_directory() {
    // The read path works on regular files alone: handing it the root
    // directory is an invalid argument, not a read.
    let fs = ExtFilesystem::create(SMALL_IMAGE).unwrap();
    let mut file = fs.open_file(EXT2_ROOT_INO, None).unwrap();
    let mut buf = vec![0u8; 8];
    match fs.read_file(&mut file, &mut buf) {
        Err(ExtReport::Errno(flail::messages::ExtError::EINVAL)) => (),
        other => panic!("expected EINVAL, got {other:?}"),
    }
}

#[test]
fn test_write_file_needs_write_flag() {
    // A handle opened without the write flag cannot write.
    let mut fs = ExtFilesystem::create(SMALL_IMAGE).unwrap();
    let inode = fs.new_inode(EXT2_ROOT_INO, 0o600).unwrap();
    let mut file = fs.open_file(inode.num(), None).unwrap();
    match fs.write_file(&mut file, &b"abc".to_vec()) {
        Err(ExtReport::Message(ExtEtMessage::FileReadOnly)) => (),
        other => panic!("expected the read-only error, got {other:?}"),
    }
}

#[test]
fn test_consistency_check_decides() {
    // The structural check accepts a fresh image and rejects the same
    // session once a live inode's block list names a metadata block.
    let mut fs = ExtFilesystem::create(SMALL_IMAGE).unwrap();
    assert!(fs.check_consistency());
    let ino = fs.new_inode(EXT2_ROOT_INO, 0o600).unwrap();
    let mut broken = fs.read_inode(ino.num()).unwrap();
    broken.data.blocks[0] = 1; // the superblock's own block
    let _ = fs.write_inode(&broken);
    assert!(!fs.check_consistency());
}

#[test]
fn test_mkdir_existing_name_is_an_error() {
    // A directory holds one entry per name: creating the same name
    // twice reports that the directory exists.
    let mut fs = ExtFilesystem::create(SMALL_IMAGE).unwrap();
    fs.mkdir("/", "foo").unwrap();
    match fs.mkdir("/", "foo") {
        Err(ExtReport::Message(ExtEtMessage::DirExists)) => (),
        other => panic!("expected the directory-exists error, got {other:?}"),
    }
    assert!(fs.check_consistency());
}

#[test]
fn test_bitmap_store_reload_round_trip() {
    // Storing the bitmaps into the image bytes and loading them back
    // hands the same bitmaps over.
    let mut fs = ExtFilesystem::create(SMALL_IMAGE).unwrap();
    let inode_bits = fs.inode_bitmap().bits.clone();
    let block_bits = fs.block_bitmap().bits.clone();
    fs.write_bitmaps().unwrap();
    fs.read_bitmaps().unwrap();
    assert_eq!(inode_bits, fs.inode_bitmap().bits);
    assert_eq!(block_bits, fs.block_bitmap().bits);
}

#[test]
fn test_delete_flushes_the_image() {
    // Removal pushes the state down to the image bytes, so the raw
    // image is always a full serialisation afterwards.
    let mut fs = ExtFilesystem::create(SMALL_IMAGE).unwrap();
    fs.write_to_file("/gone.txt", &b"soon gone".to_vec()).unwrap();
    fs.delete("/gone.txt").unwrap();
    assert!(fs.check_consistency());
    let img = fs.into_image();
    assert_eq!(img.len(), (SMALL_IMAGE / 1024 * 1024) as usize);
}
