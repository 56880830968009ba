//! The I/O channel and manager: block-granular access to the backing
//! store.  The backing store here is a byte buffer held by the channel,
//! so the session can be pointed at an in-memory image; a caller that
//! keeps the image in a file moves the bytes in and out around the
//! session's lifetime.

use vstd::prelude::*;

use crate::bytes::read_bytes;
use crate::bytes::splice_bytes;
use crate::bytes::zero_range;
use crate::messages::ExtEtMessage;
use crate::messages::ExtReport;

verus! {

/// An open channel to a backing store: the device bytes plus the block
/// geometry and transfer counters.
#[derive(Debug)]
pub struct IoChannel {
    /// The device bytes.
    pub data: Vec<u8>,
    /// Block size the channel was opened with.
    pub block_size: u32,
    /// Buffer alignment the channel reports.
    pub align: i32,
    /// The flags the channel was opened with.
    pub flags: i32,
    /// Number of handles sharing the channel; always one here.
    pub refcount: i32,
    /// Bytes handed out by reads so far.
    pub bytes_read: u64,
    /// Bytes taken in by writes so far.
    pub bytes_written: u64,
}

impl IoChannel {
    /// The channel's block size.
    pub fn block_size(&self) -> (r: u32)
        ensures
            r == self.block_size,
    {
        self.block_size
    }

    /// Number of handles sharing the channel.
    pub fn refcount(&self) -> (r: i32)
        ensures
            r == self.refcount,
    {
        self.refcount
    }

    /// The flags the channel was opened with.
    pub fn flags(&self) -> (r: i32)
        ensures
            r == self.flags,
    {
        self.flags
    }

    /// The buffer alignment the channel asks of callers.
    pub fn align(&self) -> (r: i32)
        ensures
            r == self.align,
    {
        self.align
    }

    /// Error-injection hook for failed reads.  The in-memory channel has
    /// no such hook, so the call reports the unimplemented-function
    /// status.
    pub fn read_error(
        &self,
        _block: u64,
        _count: i32,
        _data: &[u8],
        _size: usize,
        _actual_bytes_read: i32,
        _error: i64,
    ) -> (r: Result<(), ExtReport>)
        ensures
            r == Result::<(), ExtReport>::Err(ExtReport::Message(ExtEtMessage::Unimplemented)),
    {
        Err(ExtReport::Message(ExtEtMessage::Unimplemented))
    }

    /// Error-injection hook for failed writes.  The in-memory channel has
    /// no such hook, so the call reports the unimplemented-function
    /// status.
    pub fn write_error(
        &self,
        _block: u64,
        _count: i32,
        _data: &[u8],
        _size: usize,
        _actual_bytes_written: i32,
        _error: i64,
    ) -> (r: Result<(), ExtReport>)
        ensures
            r == Result::<(), ExtReport>::Err(ExtReport::Message(ExtEtMessage::Unimplemented)),
    {
        Err(ExtReport::Message(ExtEtMessage::Unimplemented))
    }
}

/// Transfer statistics of a channel.
#[derive(Clone, Copy, Debug)]
pub struct IoStats {
    /// How many of the structure's fields are populated.
    pub num_fields: i32,
    /// Reserved field, always zero.
    pub reserved: i32,
    /// Bytes handed out by reads.
    pub bytes_read: u64,
    /// Bytes taken in by writes.
    pub bytes_written: u64,
}

impl IoStats {
    /// How many of the structure's fields are populated.
    pub fn num_fields(&self) -> (r: i32)
        ensures
            r == self.num_fields,
    {
        self.num_fields
    }

    /// The reserved field.
    pub fn reserved(&self) -> (r: i32)
        ensures
            r == self.reserved,
    {
        self.reserved
    }

    /// Bytes handed out by reads.
    pub fn bytes_read(&self) -> (r: u64)
        ensures
            r == self.bytes_read,
    {
        self.bytes_read
    }

    /// Bytes taken in by writes.
    pub fn bytes_written(&self) -> (r: u64)
        ensures
            r == self.bytes_written,
    {
        self.bytes_written
    }
}

/// The manager that opens and drives channels over in-memory backing
/// buffers.
#[derive(Clone, Debug)]
pub struct IoManager {
}

/// Byte offset of block `block` under block size `bs`, as a spec-level
/// integer.
pub open spec fn block_off(block: u64, bs: u32) -> int {
    block * bs
}

impl IoManager {
    /// A manager for in-memory backing buffers.
    pub fn new() -> (r: IoManager) {
        IoManager {  }
    }

    /// The manager's display name.
    pub fn name(&self) -> (r: Result<&'static str, ExtReport>)
        ensures
            r is Ok,
    {
        Ok("In-memory I/O Manager")
    }

    /// Open a channel over the given device bytes.  The block size must
    /// be positive and divide the buffer length.
    pub fn open_channel(&self, data: Vec<u8>, block_size: u32, flags: i32) -> (r: Result<
        IoChannel,
        ExtReport,
    >)
        ensures
            match r {
                Ok(ch) => ch.data@ == data@ && ch.block_size == block_size && ch.flags == flags
                    && ch.refcount == 1 && ch.bytes_read == 0 && ch.bytes_written == 0,
                Err(e) => e == ExtReport::Message(ExtEtMessage::InvalidArgument) && !(block_size
                    > 0 && data@.len() % (block_size as nat) == 0),
            },
    {
        if block_size > 0 && data.len() % (block_size as usize) == 0 {
            Ok(
                IoChannel {
                    data,
                    block_size,
                    align: 0,
                    flags,
                    refcount: 1,
                    bytes_read: 0,
                    bytes_written: 0,
                },
            )
        } else {
            Err(ExtReport::Message(ExtEtMessage::InvalidArgument))
        }
    }

    /// Close a channel and hand its device bytes back.
    pub fn close(&self, channel: IoChannel) -> (r: Result<Vec<u8>, ExtReport>)
        ensures
            match r {
                Ok(data) => data@ == channel.data@,
                Err(_) => false,
            },
    {
        Ok(channel.data)
    }

    /// Change the channel's block size.  The new size must be positive
    /// and divide the buffer length.
    pub fn set_blksize(&self, channel: &mut IoChannel, blk_size: u32) -> (r: Result<(), ExtReport>)
        ensures
            match r {
                Ok(()) => final(channel).block_size == blk_size && final(channel).data@ == old(
                    channel,
                ).data@,
                Err(e) => e == ExtReport::Message(ExtEtMessage::InvalidArgument) && *final(channel)
                    == *old(channel),
            },
    {
        if blk_size > 0 && channel.data.len() % (blk_size as usize) == 0 {
            channel.block_size = blk_size;
            Ok(())
        } else {
            Err(ExtReport::Message(ExtEtMessage::InvalidArgument))
        }
    }

    /// Read `count` blocks starting at `block`.
    pub fn read_blk(&self, channel: &mut IoChannel, block: u64, count: u32) -> (r: Result<
        Vec<u8>,
        ExtReport,
    >)
        requires
            old(channel).block_size >= 1,
            (block + count) * old(channel).block_size <= old(channel).data@.len(),
            old(channel).bytes_read + count * old(channel).block_size <= u64::MAX,
        ensures
            final(channel).data@ == old(channel).data@,
            final(channel).block_size == old(channel).block_size,
            match r {
                Ok(out) => out@ == old(channel).data@.subrange(
                    block_off(block, old(channel).block_size),
                    block_off(block, old(channel).block_size) + count * old(channel).block_size,
                ),
                Err(_) => false,
            },
    {
        let bs = channel.block_size as usize;
        let dlen: usize = channel.data.len();
        proof {
            let bsg = old(channel).block_size;
            assert((block + count) * bsg == block * bsg + count * bsg && block * bsg >= block
                && count * bsg >= count && block * bsg >= 0 && count * bsg >= 0) by (nonlinear_arith)
                requires
                    bsg >= 1,
            ;
        }
        let off: usize = (block as usize) * bs;
        let n: usize = (count as usize) * bs;
        let out = read_bytes(&channel.data, off, n);
        channel.bytes_read = channel.bytes_read + (n as u64);
        Ok(out)
    }

    /// Read `count` blocks starting at `block`, through the 64-bit entry
    /// point.
    pub fn read_blk64(&self, channel: &mut IoChannel, block: u64, count: u32) -> (r: Result<
        Vec<u8>,
        ExtReport,
    >)
        requires
            old(channel).block_size >= 1,
            (block + count) * old(channel).block_size <= old(channel).data@.len(),
            old(channel).bytes_read + count * old(channel).block_size <= u64::MAX,
        ensures
            final(channel).data@ == old(channel).data@,
            final(channel).block_size == old(channel).block_size,
            match r {
                Ok(out) => out@ == old(channel).data@.subrange(
                    block_off(block, old(channel).block_size),
                    block_off(block, old(channel).block_size) + count * old(channel).block_size,
                ),
                Err(_) => false,
            },
    {
        self.read_blk(channel, block, count)
    }

    /// Write `data` over the blocks starting at `block`; the buffer must
    /// cover whole blocks.
    pub fn write_blk(&self, channel: &mut IoChannel, block: u64, count: u32, data: &[u8]) -> (r:
        Result<(), ExtReport>)
        requires
            old(channel).block_size >= 1,
            (block + count) * old(channel).block_size <= old(channel).data@.len(),
            data@.len() == count * old(channel).block_size,
            old(channel).bytes_written + count * old(channel).block_size <= u64::MAX,
        ensures
            final(channel).block_size == old(channel).block_size,
            final(channel).data@.len() == old(channel).data@.len(),
            r is Ok,
            forall|i: int|
                0 <= i < final(channel).data@.len() ==> final(channel).data@[i] == (if block_off(
                    block,
                    old(channel).block_size,
                ) <= i < block_off(block, old(channel).block_size) + data@.len() {
                    data@[i - block_off(block, old(channel).block_size)]
                } else {
                    old(channel).data@[i]
                }),
    {
        let bs = channel.block_size as usize;
        let dlen: usize = channel.data.len();
        proof {
            let bsg = old(channel).block_size;
            assert((block + count) * bsg == block * bsg + count * bsg && block * bsg >= block
                && count * bsg >= count && block * bsg >= 0 && count * bsg >= 0) by (nonlinear_arith)
                requires
                    bsg >= 1,
            ;
        }
        let off: usize = (block as usize) * bs;
        let n: usize = (count as usize) * bs;
        splice_bytes(&mut channel.data, off, data);
        channel.bytes_written = channel.bytes_written + (n as u64);
        Ok(())
    }

    /// Write `data` over the blocks starting at `block`, through the
    /// 64-bit entry point.
    pub fn write_blk64(&self, channel: &mut IoChannel, block: u64, count: u32, data: &[u8]) -> (r:
        Result<(), ExtReport>)
        requires
            old(channel).block_size >= 1,
            (block + count) * old(channel).block_size <= old(channel).data@.len(),
            data@.len() == count * old(channel).block_size,
            old(channel).bytes_written + count * old(channel).block_size <= u64::MAX,
        ensures
            final(channel).block_size == old(channel).block_size,
            final(channel).data@.len() == old(channel).data@.len(),
            r is Ok,
            forall|i: int|
                0 <= i < final(channel).data@.len() ==> final(channel).data@[i] == (if block_off(
                    block,
                    old(channel).block_size,
                ) <= i < block_off(block, old(channel).block_size) + data@.len() {
                    data@[i - block_off(block, old(channel).block_size)]
                } else {
                    old(channel).data@[i]
                }),
    {
        self.write_blk(channel, block, count, data)
    }

    /// Write `data` at a byte offset.
    pub fn write_byte(&self, channel: &mut IoChannel, offset: u64, data: &[u8]) -> (r: Result<
        (),
        ExtReport,
    >)
        requires
            offset + data@.len() <= old(channel).data@.len(),
            old(channel).bytes_written + data@.len() <= u64::MAX,
        ensures
            final(channel).block_size == old(channel).block_size,
            final(channel).data@.len() == old(channel).data@.len(),
            r is Ok,
            forall|i: int|
                0 <= i < final(channel).data@.len() ==> final(channel).data@[i] == (if offset <= i
                    < offset + data@.len() {
                    data@[i - offset]
                } else {
                    old(channel).data@[i]
                }),
    {
        let dlen: usize = channel.data.len();
        splice_bytes(&mut channel.data, offset as usize, data);
        channel.bytes_written = channel.bytes_written + (data.len() as u64);
        Ok(())
    }

    /// Flush the channel.  The in-memory store is always current, so this
    /// changes nothing.
    pub fn flush(&self, channel: &mut IoChannel) -> (r: Result<(), ExtReport>)
        ensures
            *final(channel) == *old(channel),
            r is Ok,
    {
        Ok(())
    }

    /// Set a channel option.  The in-memory channel recognises none, so
    /// any option reports an invalid argument.
    pub fn set_option(&self, _channel: &mut IoChannel, _option: &str, _arg: &str) -> (r: Result<
        (),
        ExtReport,
    >)
        ensures
            r == Result::<(), ExtReport>::Err(ExtReport::Errno(crate::messages::ExtError::EINVAL)),
            *final(_channel) == *old(_channel),
    {
        Err(ExtReport::Errno(crate::messages::ExtError::EINVAL))
    }

    /// The channel's transfer statistics.
    pub fn get_stats(&self, channel: &IoChannel) -> (r: Result<IoStats, ExtReport>)
        ensures
            match r {
                Ok(s) => s.num_fields == 4 && s.reserved == 0 && s.bytes_read == channel.bytes_read
                    && s.bytes_written == channel.bytes_written,
                Err(_) => false,
            },
    {
        Ok(
            IoStats {
                num_fields: 4,
                reserved: 0,
                bytes_read: channel.bytes_read,
                bytes_written: channel.bytes_written,
            },
        )
    }

    /// Discard `count` blocks starting at `block`: the in-memory store
    /// zeroes them.
    pub fn discard(&self, channel: &mut IoChannel, block: u64, count: u32) -> (r: Result<
        (),
        ExtReport,
    >)
        requires
            old(channel).block_size >= 1,
            (block + count) * old(channel).block_size <= old(channel).data@.len(),
        ensures
            final(channel).block_size == old(channel).block_size,
            final(channel).data@.len() == old(channel).data@.len(),
            r is Ok,
            forall|i: int|
                0 <= i < final(channel).data@.len() ==> final(channel).data@[i] == (if block_off(
                    block,
                    old(channel).block_size,
                ) <= i < block_off(block, old(channel).block_size) + count * old(
                    channel,
                ).block_size {
                    0u8
                } else {
                    old(channel).data@[i]
                }),
    {
        let bs = channel.block_size as usize;
        let dlen: usize = channel.data.len();
        proof {
            let bsg = old(channel).block_size;
            assert((block + count) * bsg == block * bsg + count * bsg && block * bsg >= block
                && count * bsg >= count && block * bsg >= 0 && count * bsg >= 0) by (nonlinear_arith)
                requires
                    bsg >= 1,
            ;
        }
        let off: usize = (block as usize) * bs;
        let n: usize = (count as usize) * bs;
        zero_range(&mut channel.data, off, n);
        Ok(())
    }

    /// Ask the store to read ahead.  The in-memory store has nothing to
    /// prefetch, so this changes nothing.
    pub fn cache_readahead(&self, channel: &mut IoChannel, _block: u64, _count: u32) -> (r: Result<
        (),
        ExtReport,
    >)
        ensures
            *final(channel) == *old(channel),
            r is Ok,
    {
        Ok(())
    }

    /// Zero `count` blocks starting at `block`.
    pub fn zeroout(&self, channel: &mut IoChannel, block: u64, count: u32) -> (r: Result<
        (),
        ExtReport,
    >)
        requires
            old(channel).block_size >= 1,
            (block + count) * old(channel).block_size <= old(channel).data@.len(),
        ensures
            final(channel).block_size == old(channel).block_size,
            final(channel).data@.len() == old(channel).data@.len(),
            r is Ok,
            forall|i: int|
                0 <= i < final(channel).data@.len() ==> final(channel).data@[i] == (if block_off(
                    block,
                    old(channel).block_size,
                ) <= i < block_off(block, old(channel).block_size) + count * old(
                    channel,
                ).block_size {
                    0u8
                } else {
                    old(channel).data@[i]
                }),
    {
        self.discard(channel, block, count)
    }
}

} // verus!
