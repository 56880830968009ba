//! Allocation of inodes and blocks: the bitmap scans, the locality
//! heuristics, and the uniqueness law that follows from their
//! contracts.

use vstd::prelude::*;

use vstd::arithmetic::div_mod::lemma_fundamental_div_mod;
use vstd::arithmetic::div_mod::lemma_mod_bound;

use crate::EXT4_EXTENTS_FL;
use crate::LINUX_S_IFREG;
use crate::block::ExtBlock;
use crate::inode::ExtInode;
use crate::inode::ExtInodeData;
use crate::messages::ExtError;
use crate::messages::ExtEtMessage;
use crate::messages::ExtReport;
use crate::session::ExtFilesystem;
use crate::session::copy_rec;
use crate::session::rec_eq;
use crate::session::seqs_disjoint;
use crate::session::spec_runs_state;
use crate::session::vec_replace;

verus! {

/// Marking a free slot, twice in a row, marks two distinct slots: the
/// second allocation sees the first one's mark and must pick elsewhere.
/// This is the uniqueness guarantee behind both inode and block
/// allocation: numbers returned within one session are pairwise
/// distinct, and each stays marked.
pub proof fn lemma_allocation_unique(
    bits0: Seq<bool>,
    bits1: Seq<bool>,
    bits2: Seq<bool>,
    s1: int,
    s2: int,
)
    requires
        0 <= s1 < bits0.len(),
        !bits0[s1],
        bits1 == bits0.update(s1, true),
        0 <= s2 < bits1.len(),
        !bits1[s2],
        bits2 == bits1.update(s2, true),
    ensures
        s1 != s2,
        bits2[s1],
        bits2[s2],
{
}

impl ExtFilesystem {
    /// The first free block, scanning the block bitmap linearly from
    /// the first data block to the end of the device.  Linear in the
    /// device size; acceptable for the small images this library is
    /// meant for.
    pub fn next_free_block(&self) -> (r: Result<u64, ExtReport>)
        requires
            self.wf(),
        ensures
            match r {
                Ok(b) => 1 <= b < self.sb.blocks_count && self.block_free(b as int) && forall|
                    b2: int,
                |
                    1 <= b2 < b ==> !self.block_free(b2),
                Err(e) => e == ExtReport::Errno(ExtError::ENOENT) && forall|b2: int|
                    1 <= b2 < self.sb.blocks_count ==> !self.block_free(b2),
            },
    {
        let count = self.sb.blocks_count;
        let mut b: u64 = self.sb.first_data_block;
        while b < count
            invariant
                self.wf(),
                count == self.sb.blocks_count,
                1 <= b <= count,
                forall|b2: int| 1 <= b2 < b ==> !self.block_free(b2),
            decreases count - b,
        {
            if !self.block_bitmap.test_block(b) {
                return Ok(b);
            }
            b = b + 1;
        }
        Err(ExtReport::Errno(ExtError::ENOENT))
    }

    /// The block the allocator should start searching from for new
    /// blocks of this inode: right after the inode's last data block,
    /// or the base of the inode's group when it has none.
    pub open spec fn spec_inode_goal(self, num: int, blocks: Seq<u64>) -> int {
        if blocks.len() > 0 {
            blocks.last() as int
        } else if 1 <= num <= self.sb.inodes_count {
            self.sb.group_base(self.sb.group_of_ino(num))
        } else {
            self.sb.first_data_block as int
        }
    }

    /// Where block allocation for this inode should start, for
    /// contiguity with what the inode already has.
    pub fn find_inode_goal(&self, inode: &ExtInode) -> (r: Result<ExtBlock, ExtReport>)
        requires
            self.wf(),
        ensures
            match r {
                Ok(b) => b.0 == self.spec_inode_goal(inode.num as int, inode.data.blocks@),
                Err(_) => false,
            },
    {
        if inode.data.blocks.len() > 0 {
            return Ok(ExtBlock(inode.data.blocks[inode.data.blocks.len() - 1]));
        }
        if inode.num >= 1 && inode.num <= self.sb.inodes_count {
            let ipg = self.sb.inodes_per_group as u64;
            let g: u64 = ((inode.num - 1) as u64) / ipg;
            proof {
                lemma_fundamental_div_mod((inode.num - 1) as int, ipg as int);
                assert(g <= (inode.num - 1) as u64) by (nonlinear_arith)
                    requires
                        ipg >= 1,
                        g == ((inode.num - 1) as u64) / ipg,
                ;
            }
            Ok(ExtBlock(1 + g * 8192))
        } else {
            Ok(ExtBlock(self.sb.first_data_block))
        }
    }

    /// Allocate one free block for `inode`, searching circularly from
    /// the inode's allocation goal, and mark it in use.  The block
    /// comes back zero-filled; its number was free before the call and
    /// no other bit of the bitmap moves.  Fails with the
    /// block-allocation error exactly when no free block is left.
    pub fn new_block(&mut self, inode: &ExtInode) -> (r: Result<u64, ExtReport>)
        requires
            old(self).wf(),
        ensures
            final(self).wf(),
            final(self).sb == old(self).sb,
            final(self).flags == old(self).flags,
            final(self).inode_bitmap == old(self).inode_bitmap,
            final(self).inodes@ == old(self).inodes@,
            final(self).channel.data@ == old(self).channel.data@,
            match r {
                Ok(b) => {
                    &&& 1 <= b < old(self).sb.blocks_count
                    &&& !old(self).sb.is_metadata_block(b as int)
                    &&& old(self).block_free(b as int)
                    &&& final(self).block_bitmap.bits@ == old(self).block_bitmap.bits@.update(
                        b as int,
                        true,
                    )
                    &&& final(self).data@.len() == old(self).data@.len()
                    &&& final(self).data@[b as int]@ == Seq::new(1024nat, |k: int| 0u8)
                    &&& forall|i: int|
                        0 <= i < final(self).data@.len() && i != b ==> final(self).data@[i]
                            == old(self).data@[i]
                },
                Err(e) => {
                    &&& e == ExtReport::Message(ExtEtMessage::BlockAllocFail)
                    &&& final(self).block_bitmap == old(self).block_bitmap
                    &&& final(self).data@ == old(self).data@
                    &&& forall|b2: int|
                        1 <= b2 < old(self).sb.blocks_count ==> !old(self).block_free(b2)
                },
            },
    {
        let goal = match self.find_inode_goal(inode) {
            Ok(g) => g.0,
            Err(e) => {
                return Err(e);
            },
        };
        let count = self.sb.blocks_count;
        let start: u64 = if goal >= 1 && goal < count {
            goal
        } else {
            self.sb.first_data_block
        };
        let mut found: u64 = 0;
        let mut have: bool = false;
        // Scan from the goal to the end of the device.
        let mut b: u64 = start;
        while b < count && !have
            invariant
                self.wf(),
                count == self.sb.blocks_count,
                1 <= start < count,
                start <= b <= count,
                !have ==> forall|b2: int| start <= b2 < b ==> !self.block_free(b2),
                have ==> start <= found < count && self.block_free(found as int),
            decreases count - b + (if have {
                0int
            } else {
                1int
            }),
        {
            if !self.block_bitmap.test_block(b) {
                found = b;
                have = true;
            } else {
                b = b + 1;
            }
        }
        // Wrap around: scan from the first data block up to the goal.
        let mut b2: u64 = self.sb.first_data_block;
        while b2 < start && !have
            invariant
                self.wf(),
                count == self.sb.blocks_count,
                1 <= start < count,
                1 <= b2 <= start,
                !have ==> forall|x: int| start <= x < count ==> !self.block_free(x),
                !have ==> forall|x: int| 1 <= x < b2 ==> !self.block_free(x),
                have ==> 1 <= found < count && self.block_free(found as int),
            decreases start - b2 + (if have {
                0int
            } else {
                1int
            }),
        {
            if !self.block_bitmap.test_block(b2) {
                found = b2;
                have = true;
            } else {
                b2 = b2 + 1;
            }
        }
        if !have {
            return Err(ExtReport::Message(ExtEtMessage::BlockAllocFail));
        }
        // A free block is never part of the metadata area: metadata
        // blocks are always marked in use.
        assert(!self.sb.is_metadata_block(found as int));
        self.block_bitmap.mark_block(found);
        let mut zeros: Vec<u8> = Vec::new();
        let mut k: usize = 0;
        while k < 1024
            invariant
                k <= 1024,
                zeros@ =~= Seq::new(k as nat, |j: int| 0u8),
            decreases 1024 - k,
        {
            zeros.push(0u8);
            proof {
                assert(zeros@ =~= Seq::new((k + 1) as nat, |j: int| 0u8));
            }
            k = k + 1;
        }
        let fidx: usize = found as usize;
        let _old_data = vec_replace(&mut self.data, fidx, zeros);
        proof {
            let s0 = *old(self);
            let s1 = *self;
            let bb = found as int;
            assert forall|i: int|
                1 <= i <= s1.sb.inodes_count && #[trigger] s1.ino_allocated(i) implies s1.rec_wf(
                s1.inode_at(i),
            ) by {
                assert(s0.ino_allocated(i));
                assert(s0.rec_wf(s0.inode_at(i)));
                let blocks = s1.inode_at(i).blocks@;
                assert forall|j: int| 0 <= j < blocks.len() implies 1 <= #[trigger] blocks[j]
                    < s1.sb.blocks_count && !s1.sb.is_metadata_block(blocks[j] as int)
                    && s1.block_bitmap.bits@[blocks[j] as int] && s1.data@[blocks[j] as int]@.len()
                    == 1024 by {
                    assert(s0.block_bitmap.bits@[blocks[j] as int]);
                    assert(blocks[j] != found);
                }
            }
            assert forall|b3: int|
                0 <= b3 < s1.sb.blocks_count && s1.sb.is_metadata_block(b3) implies #[trigger] s1
                .block_bitmap.bits@[b3] by {
                assert(s0.block_bitmap.bits@[b3]);
            }
            assert forall|i1: int, i2: int|
                1 <= i1 <= s1.sb.inodes_count && 1 <= i2 <= s1.sb.inodes_count && i1 != i2
                    && #[trigger] s1.ino_allocated(i1) && #[trigger] s1.ino_allocated(
                    i2,
                ) implies seqs_disjoint(s1.inode_at(i1).blocks@, s1.inode_at(i2).blocks@) by {
                assert(s0.ino_allocated(i1) && s0.ino_allocated(i2));
                assert(s1.inode_at(i1).blocks@ == s0.inode_at(i1).blocks@);
                assert(s1.inode_at(i2).blocks@ == s0.inode_at(i2).blocks@);
            }
        }
        Ok(found)
    }

    /// Allocate a fresh regular-file inode near directory `dir`, with
    /// one data block already attached through the inode's extent
    /// list.  The inode number is taken from the inode bitmap starting
    /// at `dir`'s group (the allocation-locality heuristic); the block
    /// comes from the block allocator.  Both bitmaps are updated only
    /// after every fallible step has succeeded, and the record is
    /// written to the table before the call returns.  `mode` carries
    /// permission bits only; the regular-file type bit is forced on.
    pub fn new_inode(&mut self, dir: u32, mode: u16) -> (r: Result<ExtInode, ExtReport>)
        requires
            old(self).wf(),
        ensures
            final(self).wf(),
            final(self).sb == old(self).sb,
            r is Err ==> final(self).flags == old(self).flags && final(self).channel.data@ == old(
                self,
            ).channel.data@,
            r is Ok ==> final(self).flags == old(self).flags | (crate::session::EXT2_FLAG_DIRTY
                | crate::session::EXT2_FLAG_CHANGED) && final(self).channel.data@.len() == old(
                self,
            ).sb.blocks_count * 1024,
            match r {
                Ok(ino) => {
                    &&& old(self).sb.first_ino <= ino.num <= old(self).sb.inodes_count
                    &&& !old(self).ino_allocated(ino.num as int)
                    &&& final(self).inode_bitmap.bits@ == old(self).inode_bitmap.bits@.update(
                        ino.num - 1,
                        true,
                    )
                    &&& ino.data.mode == mode | (LINUX_S_IFREG as u16)
                    &&& ino.data.flags == EXT4_EXTENTS_FL
                    &&& ino.data.size == 0
                    &&& ino.data.links_count == 0
                    &&& ino.data.blocks@.len() == 1
                    &&& old(self).block_free(ino.data.blocks@[0] as int)
                    &&& final(self).block_bitmap.bits@ == old(self).block_bitmap.bits@.update(
                        ino.data.blocks@[0] as int,
                        true,
                    )
                    &&& rec_eq(final(self).inode_at(ino.num as int), ino.data)
                    &&& forall|i: int|
                        1 <= i <= old(self).sb.inodes_count && i != ino.num ==> final(self).inode_at(
                            i,
                        ) == old(self).inode_at(i)
                },
                Err(e) => {
                    &&& final(self).inode_bitmap == old(self).inode_bitmap
                    &&& final(self).block_bitmap == old(self).block_bitmap
                    &&& final(self).inodes@ == old(self).inodes@
                    &&& final(self).data@ == old(self).data@
                    &&& (if mode & 0xF000u16 != 0 {
                        e == ExtReport::Errno(ExtError::EINVAL)
                    } else if forall|n: int|
                        old(self).sb.first_ino <= n <= old(self).sb.inodes_count ==> old(
                            self,
                        ).ino_allocated(n) {
                        e == ExtReport::Message(ExtEtMessage::InodeAllocFail)
                    } else {
                        e == ExtReport::Message(ExtEtMessage::BlockAllocFail) && forall|b2: int|
                            1 <= b2 < old(self).sb.blocks_count ==> !old(self).block_free(b2)
                    })
                },
            },
            mode & 0xF000u16 == 0 && (exists|n: int|
                old(self).sb.first_ino <= n <= old(self).sb.inodes_count && !old(
                    self,
                ).ino_allocated(n)) && (exists|b: int|
                1 <= b < old(self).sb.blocks_count && old(self).block_free(b)) ==> r is Ok,
    {
        // Directory inodes are not supported by this path, so a mode
        // carrying type bits is rejected before anything is touched.
        if mode & 0xF000u16 != 0 {
            return Err(ExtReport::Errno(ExtError::EINVAL));
        }
        let count = self.sb.inodes_count;
        let first = self.sb.first_ino;
        // Start the scan at the base of `dir`'s group, for locality.
        let start: u32 = if dir >= 1 && dir <= count {
            let ipg = self.sb.inodes_per_group as u64;
            let g: u64 = ((dir - 1) as u64) / ipg;
            proof {
                let x = (dir - 1) as int;
                let d = ipg as int;
                lemma_fundamental_div_mod(x, d);
                lemma_mod_bound(x, d);
                assert(g as int == x / d);
                assert(x == d * (x / d) + x % d);
                assert(d * (x / d) <= x);
                assert((g as int) * d <= x) by (nonlinear_arith)
                    requires
                        g as int == x / d,
                        d * (x / d) <= x,
                ;
                assert(g * ipg <= (dir - 1) as u64);
            }
            let s: u64 = g * ipg + 1;
            let s32: u32 = s as u32;
            if s32 < first {
                first
            } else {
                s32
            }
        } else {
            first
        };
        let mut found: u32 = 0;
        let mut have: bool = false;
        let mut n: u32 = start;
        while n <= count && !have
            invariant
                self.wf(),
                count == self.sb.inodes_count,
                first == self.sb.first_ino,
                first <= start <= count,
                start <= n <= count + 1,
                !have ==> forall|x: int| start <= x < n ==> self.ino_allocated(x),
                have ==> first <= found <= count && !self.ino_allocated(found as int),
            decreases count + 1 - n + (if have {
                0int
            } else {
                1int
            }),
        {
            if !self.inode_bitmap.test_ino(n) {
                found = n;
                have = true;
            } else {
                n = n + 1;
            }
        }
        let mut n2: u32 = first;
        while n2 < start && !have
            invariant
                self.wf(),
                count == self.sb.inodes_count,
                first == self.sb.first_ino,
                first <= start <= count,
                first <= n2 <= start,
                !have ==> forall|x: int| start <= x <= count ==> self.ino_allocated(x),
                !have ==> forall|x: int| first <= x < n2 ==> self.ino_allocated(x),
                have ==> first <= found <= count && !self.ino_allocated(found as int),
            decreases start - n2 + (if have {
                0int
            } else {
                1int
            }),
        {
            if !self.inode_bitmap.test_ino(n2) {
                found = n2;
                have = true;
            } else {
                n2 = n2 + 1;
            }
        }
        if !have {
            return Err(ExtReport::Message(ExtEtMessage::InodeAllocFail));
        }
        // Build the record: a regular file mapped through an extent
        // list, with one data block attached.
        let mut rec = ExtInodeData::zeroed();
        rec.mode = mode | (LINUX_S_IFREG as u16);
        rec.flags = EXT4_EXTENTS_FL;
        let now = crate::host::now_epoch_secs();
        rec.atime = now;
        rec.ctime = now;
        rec.mtime = now;
        let probe = ExtInode { num: found, data: copy_rec(&rec) };
        let data_block = match self.new_block(&probe) {
            Ok(b) => b,
            Err(e) => {
                return Err(e);
            },
        };
        let ghost sa = *self;
        rec.blocks.push(data_block);
        // All fallible steps are done; update the bitmaps and write the
        // record to the table.
        self.inode_bitmap.mark_ino(found);
        let out_rec = copy_rec(&rec);
        let idx: usize = (found - 1) as usize;
        let _old_rec = vec_replace(&mut self.inodes, idx, rec);
        proof {
            let s1 = *self;
            let fi = found as int;
            let bb = data_block as int;
            assert(s1.inode_at(fi).blocks@ =~= Seq::<u64>::empty().push(data_block));
            assert forall|i: int|
                1 <= i <= s1.sb.inodes_count && #[trigger] s1.ino_allocated(i) implies s1.rec_wf(
                s1.inode_at(i),
            ) by {
                if i == fi {
                    let d = s1.inode_at(fi);
                    assert(d.blocks@[0] == data_block);
                    let md = d.mode;
                    assert(((md as u32) & 0xF000u32) != 0x4000u32 && ((md as u32) & 0xF000u32)
                        != 0xA000u32) by (bit_vector)
                        requires
                            md == mode | 0x8000u16,
                            mode & 0xF000u16 == 0u16,
                    ;
                    assert(!d.spec_is_dir() && !d.spec_is_symlink());
                    assert(1 <= d.blocks@[0] < s1.sb.blocks_count && !s1.sb.is_metadata_block(
                        d.blocks@[0] as int,
                    ) && s1.block_bitmap.bits@[d.blocks@[0] as int] && s1.data@[d.blocks@[0]
                        as int]@.len() == 1024);
                    assert(s1.blocks_wf(d.blocks@));
                    // One fresh block is one extent run.
                    assert(spec_runs_state(d.blocks@) == (1nat, 1nat));
                } else {
                    assert(sa.ino_allocated(i));
                    assert(sa.rec_wf(sa.inode_at(i)));
                    assert(s1.inode_at(i) == sa.inode_at(i));
                    assert(s1.blocks_wf(s1.inode_at(i).blocks@));
                }
            }
            assert forall|i1: int, i2: int|
                1 <= i1 <= s1.sb.inodes_count && 1 <= i2 <= s1.sb.inodes_count && i1 != i2
                    && #[trigger] s1.ino_allocated(i1) && #[trigger] s1.ino_allocated(
                    i2,
                ) implies seqs_disjoint(s1.inode_at(i1).blocks@, s1.inode_at(i2).blocks@) by {
                if i1 == fi || i2 == fi {
                    let o = if i1 == fi {
                        i2
                    } else {
                        i1
                    };
                    assert(sa.ino_allocated(o) && old(self).ino_allocated(o));
                    assert(old(self).rec_wf(old(self).inode_at(o)));
                    let ob = s1.inode_at(o).blocks@;
                    assert(ob == old(self).inode_at(o).blocks@);
                    assert(sa.rec_wf(sa.inode_at(o)));
                    assert forall|a: int, b: int|
                        0 <= a < 1 && 0 <= b < ob.len() implies #[trigger] s1.inode_at(
                        fi,
                    ).blocks@[a] != #[trigger] ob[b] by {
                        assert(old(self).block_bitmap.bits@[ob[b] as int]);
                        assert(old(self).block_free(data_block as int));
                        assert(s1.inode_at(fi).blocks@[a] == data_block);
                    }
                    assert(seqs_disjoint(s1.inode_at(fi).blocks@, ob));
                    assert(seqs_disjoint(ob, s1.inode_at(fi).blocks@));
                } else {
                    assert(sa.ino_allocated(i1) && sa.ino_allocated(i2));
                    assert(s1.inode_at(i1).blocks@ == sa.inode_at(i1).blocks@);
                    assert(s1.inode_at(i2).blocks@ == sa.inode_at(i2).blocks@);
                }
            }
            assert forall|b3: int|
                0 <= b3 < s1.sb.blocks_count && s1.sb.is_metadata_block(b3) implies #[trigger] s1
                .block_bitmap.bits@[b3] by {
                assert(sa.block_bitmap.bits@[b3]);
            }
        }
        // The record and both bitmaps are settled: push the state down
        // to the image bytes, as every allocation is followed by.
        let ghost spre = *self;
        let _fr = self.flush();
        proof {
            assert(self.inode_at(found as int) == spre.inode_at(found as int));
        }
        Ok(ExtInode { num: found, data: out_rec })
    }
}

} // verus!
