//! Block numbers and the block allocation bitmap.

use vstd::prelude::*;

use crate::ExtBitmap;
use crate::magic_is_32bit;
use crate::magic_is_64bit;

verus! {

/// A block number within the device address space.
#[derive(Clone, Copy, Debug)]
pub struct ExtBlock(pub u64);

impl ExtBlock {
    /// The block number.
    pub fn num(&self) -> (r: u64)
        ensures
            r == self.0,
    {
        self.0
    }
}

/// The block allocation bitmap: one bit per block, bit `b` standing for
/// block number `b`, plus the magic tag naming the addressing mode.
#[derive(Clone, Debug)]
pub struct ExtBlockBitmap {
    /// Magic-number tag from the bitmap header.
    pub magic: u32,
    /// Allocation bits; `true` means in use.
    pub bits: Vec<bool>,
}

impl ExtBlockBitmap {
    /// Whether block `b` is marked in use.
    pub open spec fn spec_test(&self, b: int) -> bool {
        self.bits@[b]
    }

    /// Whether block `b` is marked in use.
    pub fn test_block(&self, b: u64) -> (r: bool)
        requires
            b < self.bits@.len(),
        ensures
            r == self.spec_test(b as int),
    {
        let n: usize = self.bits.len();
        self.bits[b as usize]
    }

    /// Mark block `b` in use.
    pub fn mark_block(&mut self, b: u64)
        requires
            b < old(self).bits@.len(),
        ensures
            final(self).magic == old(self).magic,
            final(self).bits@ == old(self).bits@.update(b as int, true),
    {
        let n: usize = self.bits.len();
        self.bits.set(b as usize, true);
    }

    /// Mark block `b` free.
    pub fn unmark_block(&mut self, b: u64)
        requires
            b < old(self).bits@.len(),
        ensures
            final(self).magic == old(self).magic,
            final(self).bits@ == old(self).bits@.update(b as int, false),
    {
        let n: usize = self.bits.len();
        self.bits.set(b as usize, false);
    }
}

impl ExtBitmap for ExtBlockBitmap {
    open spec fn magic_tag(&self) -> u32 {
        self.magic
    }

    fn is_32bit(&self) -> (r: bool) {
        self.magic == crate::MAGIC_GENERIC_BITMAP || self.magic == crate::MAGIC_INODE_BITMAP
            || self.magic == crate::MAGIC_BLOCK_BITMAP
    }

    fn is_64bit(&self) -> (r: bool) {
        self.magic == crate::MAGIC_GENERIC_BITMAP64 || self.magic == crate::MAGIC_INODE_BITMAP64
            || self.magic == crate::MAGIC_BLOCK_BITMAP64
    }
}

} // verus!
