//! The in-memory I/O channel and manager.

use flail::io::IoManager;
use flail::messages::ExtError;
use flail::messages::ExtEtMessage;
use flail::messages::ExtReport;

#[test]
fn test_channel_round_trip() {
    let mgr = IoManager::new();
    let mut ch = mgr.open_channel(vec![0u8; 4096], 1024, 0).unwrap();
    assert_eq!(ch.block_size(), 1024);
    assert_eq!(ch.refcount(), 1);
    assert_eq!(ch.flags(), 0);
    assert_eq!(ch.align(), 0);

    let block = vec![7u8; 1024];
    mgr.write_blk(&mut ch, 2, 1, block.as_slice()).unwrap();
    let back = mgr.read_blk(&mut ch, 2, 1).unwrap();
    assert_eq!(back, block);
    let other = mgr.read_blk64(&mut ch, 1, 1).unwrap();
    assert_eq!(other, vec![0u8; 1024]);

    let stats = mgr.get_stats(&ch).unwrap();
    assert_eq!(stats.num_fields(), 4);
    assert_eq!(stats.reserved(), 0);
    assert_eq!(stats.bytes_read(), 2048);
    assert_eq!(stats.bytes_written(), 1024);
}

#[test]
fn test_channel_write_byte_and_zeroout() {
    let mgr = IoManager::new();
    let mut ch = mgr.open_channel(vec![0u8; 2048], 1024, 0).unwrap();
    mgr.write_byte(&mut ch, 1030, &[1u8, 2u8, 3u8]).unwrap();
    let blk = mgr.read_blk(&mut ch, 1, 1).unwrap();
    assert_eq!(&blk[6..9], &[1u8, 2u8, 3u8]);
    mgr.zeroout(&mut ch, 1, 1).unwrap();
    let blk = mgr.read_blk(&mut ch, 1, 1).unwrap();
    assert_eq!(blk, vec![0u8; 1024]);
}

#[test]
fn test_channel_rejects_bad_geometry() {
    let mgr = IoManager::new();
    let r = mgr.open_channel(vec![0u8; 1000], 1024, 0);
    assert!(matches!(r, Err(ExtReport::Message(ExtEtMessage::InvalidArgument))));
    let mut ch = mgr.open_channel(vec![0u8; 2048], 1024, 0).unwrap();
    let r = mgr.set_blksize(&mut ch, 999);
    assert!(matches!(r, Err(ExtReport::Message(ExtEtMessage::InvalidArgument))));
    let r = mgr.set_option(&mut ch, "offset", "1");
    assert_eq!(r, Err(ExtReport::Errno(ExtError::EINVAL)));
}

#[test]
fn test_error_injection_hooks_unimplemented() {
    let mgr = IoManager::new();
    let ch = mgr.open_channel(vec![0u8; 1024], 1024, 0).unwrap();
    let r = ch.read_error(0, 0, &[], 0, 0, 0);
    assert_eq!(r, Err(ExtReport::Message(ExtEtMessage::Unimplemented)));
    let r = ch.write_error(0, 0, &[], 0, 0, 0);
    assert_eq!(r, Err(ExtReport::Message(ExtEtMessage::Unimplemented)));
    assert_eq!(mgr.name().unwrap(), "In-memory I/O Manager");
    let bytes = mgr.close(ch).unwrap();
    assert_eq!(bytes.len(), 1024);
}
