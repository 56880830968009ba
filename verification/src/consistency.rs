//! The structural consistency check: an executable pass over a
//! session's state that succeeds exactly when the well-formedness
//! predicate holds.  Opening an image runs this pass over the parsed
//! state, and reloading bitmaps re-runs it, in the role an external
//! consistency checker plays for an image file.

use vstd::prelude::*;

use crate::EXT4_EXTENTS_FL;
use crate::LINUX_S_IFDIR;
use crate::LINUX_S_IFLNK;
use crate::MAGIC_BLOCK_BITMAP;
use crate::MAGIC_BLOCK_BITMAP64;
use crate::MAGIC_GENERIC_BITMAP;
use crate::MAGIC_GENERIC_BITMAP64;
use crate::MAGIC_INODE_BITMAP;
use crate::MAGIC_INODE_BITMAP64;
use crate::geometry::EXT2_MAX_BLOCKS;
use crate::session::ExtFilesystem;
use crate::session::EXT_MAX_RUN;
use crate::session::dir_space;
use crate::session::lemma_dir_space_push;
use crate::session::lemma_dir_space_split;
use crate::session::lemma_pack_len_take;
use crate::session::lemma_runs_take_mono;
use crate::session::pack_len;
use crate::session::seqs_disjoint;
use crate::session::spec_runs;
use crate::session::spec_runs_state;

verus! {

/// Pairwise-distinct block numbers drawn from `[1, bc)` are at most
/// `bc - 1` many.
pub(crate) proof fn lemma_distinct_blocks_bounded(blocks: Seq<u64>, bc: int)
    requires
        bc >= 1,
        forall|j: int| 0 <= j < blocks.len() ==> 1 <= #[trigger] blocks[j] < bc,
        forall|j1: int, j2: int|
            0 <= j1 < j2 < blocks.len() ==> #[trigger] blocks[j1] != #[trigger] blocks[j2],
    ensures
        blocks.len() <= bc - 1,
{
    let ints = Seq::new(blocks.len(), |j: int| blocks[j] as int);
    assert(ints.no_duplicates()) by {
        assert forall|i: int, j: int|
            0 <= i < ints.len() && 0 <= j < ints.len() && i != j implies ints[i] != ints[j] by {
            if i < j {
                assert(blocks[i] != blocks[j]);
            } else {
                assert(blocks[j] != blocks[i]);
            }
        }
    }
    ints.unique_seq_to_set();
    vstd::set_lib::lemma_int_range(1, bc);
    assert(ints.to_set().subset_of(vstd::set_lib::set_int_range(1, bc))) by {
        assert forall|x: int| ints.to_set().contains(x) implies vstd::set_lib::set_int_range(
            1,
            bc,
        ).contains(x) by {
            let i = choose|i: int| 0 <= i < ints.len() && ints[i] == x;
            assert(1 <= blocks[i] < bc);
        }
    }
    vstd::set_lib::lemma_len_subset(ints.to_set(), vstd::set_lib::set_int_range(1, bc));
}

impl ExtFilesystem {
    /// Validate one inode record against the session's bitmaps and
    /// data, marking its blocks in `seen` so that a later record
    /// claiming one of them is caught.  A failure means the record
    /// itself is malformed, or one of its blocks was already claimed.
    #[verifier::loop_isolation(false)]
    #[verifier::rlimit(60)]
    fn check_rec(&self, i: u32, seen: &mut Vec<bool>) -> (r: bool)
        requires
            self.sb.wf(),
            self.inodes@.len() == self.sb.inodes_count,
            self.block_bitmap.bits@.len() == self.sb.blocks_count,
            self.data@.len() == self.sb.blocks_count,
            old(seen)@.len() == self.sb.blocks_count,
            1 <= i <= self.sb.inodes_count,
        ensures
            final(seen)@.len() == old(seen)@.len(),
            forall|b: int| 0 <= b < old(seen)@.len() && old(seen)@[b] ==> final(seen)@[b],
            forall|x: int|
                0 <= x < old(seen)@.len() && final(seen)@[x] && !old(seen)@[x]
                    ==> self.inode_at(i as int).blocks@.contains(x as u64),
            r ==> self.rec_wf(self.inode_at(i as int)),
            r ==> forall|j: int|
                0 <= j < self.inode_at(i as int).blocks@.len() ==> !old(seen)@[self.inode_at(
                    i as int,
                ).blocks@[j] as int] && final(seen)@[self.inode_at(i as int).blocks@[j] as int],
            !r ==> !self.rec_wf(self.inode_at(i as int)) || exists|j: int|
                0 <= j < self.inode_at(i as int).blocks@.len() && old(seen)@[#[trigger] self.inode_at(
                    i as int,
                ).blocks@[j] as int],
    {
        let idx: usize = (i - 1) as usize;
        let rec = &self.inodes[idx];
        let bc = self.sb.blocks_count;
        let nb = rec.blocks.len();
        let ghost blocks = rec.blocks@;
        let mut j: usize = 0;
        while j < nb
            invariant
                self.sb.wf(),
                self.block_bitmap.bits@.len() == self.sb.blocks_count,
                self.data@.len() == self.sb.blocks_count,
                bc == self.sb.blocks_count,
                blocks == rec.blocks@,
                blocks.len() == nb,
                idx == i - 1,
                rec == &self.inodes[idx as int],
                j <= nb,
                seen@.len() == old(seen)@.len(),
                old(seen)@.len() == self.sb.blocks_count,
                forall|b: int| 0 <= b < old(seen)@.len() && old(seen)@[b] ==> seen@[b],
                forall|x: int|
                    0 <= x < old(seen)@.len() && seen@[x] && !old(seen)@[x] ==> exists|k: int|
                        0 <= k < j && #[trigger] blocks[k] == x as u64,
                forall|k: int|
                    0 <= k < j ==> 1 <= #[trigger] blocks[k] < bc && !self.sb.is_metadata_block(
                        blocks[k] as int,
                    ) && self.block_bitmap.bits@[blocks[k] as int] && self.data@[blocks[k]
                        as int]@.len() == 1024,
                forall|k: int| 0 <= k < j ==> !old(seen)@[#[trigger] blocks[k] as int],
                forall|k: int| 0 <= k < j ==> seen@[#[trigger] blocks[k] as int],
                forall|k1: int, k2: int|
                    0 <= k1 < k2 < j ==> #[trigger] blocks[k1] != #[trigger] blocks[k2],
            decreases nb - j,
        {
            let b = rec.blocks[j];
            let bad_block = !(b >= 1 && b < bc) || self.sb.is_metadata_block_exec(b)
                || !self.block_bitmap.test_block(b) || self.data[b as usize].len() != 1024;
            if bad_block {
                proof {
                    let d = self.inode_at(i as int);
                    assert(!self.blocks_wf(d.blocks@)) by {
                        assert(!(1 <= blocks[j as int] < self.sb.blocks_count
                            && !self.sb.is_metadata_block(blocks[j as int] as int)
                            && self.block_bitmap.bits@[blocks[j as int] as int]
                            && self.data@[blocks[j as int] as int]@.len() == 1024));
                    }
                }
                return false;
            }
            if seen[b as usize] {
                proof {
                    let d = self.inode_at(i as int);
                    if old(seen)@[b as int] {
                        assert(d.blocks@[j as int] == b);
                        assert(exists|jj: int|
                            0 <= jj < d.blocks@.len() && old(seen)@[#[trigger] d.blocks@[jj] as int]);
                    } else {
                        // The bit was set in this very pass: the record
                        // lists the block twice.
                        let k = choose|k: int| 0 <= k < j && blocks[k] == b as u64;
                        assert(!self.blocks_wf(d.blocks@)) by {
                            assert(blocks[k] == blocks[j as int]);
                        }
                    }
                }
                return false;
            }
            seen.set(b as usize, true);
            proof {
                assert forall|x: int|
                    0 <= x < old(seen)@.len() && seen@[x] && !old(seen)@[x] implies exists|k: int|
                    0 <= k < j + 1 && #[trigger] blocks[k] == x as u64 by {
                    if x == b as int {
                        assert(blocks[j as int] == x as u64);
                    } else {
                        let k = choose|k: int| 0 <= k < j && blocks[k] == x as u64;
                        assert(0 <= k < j + 1 && blocks[k] == x as u64);
                    }
                }
            }
            j = j + 1;
        }
        proof {
            // The blocks just checked are distinct and drawn from the
            // device, so their count stays below the block count.
            lemma_distinct_blocks_bounded(blocks, bc as int);
        }
        let is_dir = (rec.mode as u32) & 0xF000u32 == LINUX_S_IFDIR;
        let is_symlink = (rec.mode as u32) & 0xF000u32 == LINUX_S_IFLNK;
        if is_dir {
            if rec.symlink_target.len() != 0 {
                return false;
            }
            if !(nb >= 1 && nb <= 12) {
                return false;
            }
            if rec.size as u64 != (nb as u64) * 1024 {
                return false;
            }
            let ne = rec.entries.len();
            let mut acc: usize = 0;
            let mut accp: usize = 0;
            let mut e: usize = 0;
            while e < ne
                invariant
                    self.sb.wf(),
                    rec == &self.inodes[idx as int],
                    idx == i - 1,
                    rec.entries@.len() == ne,
                    e <= ne,
                    nb <= 12,
                    acc == dir_space(rec.entries@.take(e as int)),
                    acc <= 12 * 1024,
                    accp == pack_len(rec.entries@.take(e as int)),
                    accp <= 12 * 1024,
                    forall|k: int| 0 <= k < e ==> self.entry_wf(#[trigger] rec.entries@[k]),
                decreases ne - e,
            {
                let nlen = rec.entries[e].name.len();
                if !(nlen >= 1 && nlen <= 255) {
                    proof {
                        assert(!self.entry_wf(self.inode_at(i as int).entries@[e as int]));
                    }
                    return false;
                }
                let mut k: usize = 0;
                while k < nlen
                    invariant
                        rec == &self.inodes[idx as int],
                        rec.entries@.len() == ne,
                        e < ne,
                        rec.entries@[e as int].name@.len() == nlen,
                        k <= nlen,
                        forall|x: int|
                            0 <= x < k ==> #[trigger] rec.entries@[e as int].name@[x] != 0x2Fu8
                                && rec.entries@[e as int].name@[x] != 0u8,
                    decreases nlen - k,
                {
                    let c = rec.entries[e].name[k];
                    if c == 0x2Fu8 || c == 0u8 {
                        proof {
                            assert(!self.entry_wf(self.inode_at(i as int).entries@[e as int])) by {
                                assert(self.inode_at(i as int).entries@[e as int].name@[k as int]
                                    == 0x2Fu8 || self.inode_at(
                                    i as int,
                                ).entries@[e as int].name@[k as int] == 0u8);
                            }
                        }
                        return false;
                    }
                    k = k + 1;
                }
                if !(rec.entries[e].inode >= 1 && rec.entries[e].inode <= self.sb.inodes_count) {
                    proof {
                        assert(!self.entry_wf(self.inode_at(i as int).entries@[e as int]));
                    }
                    return false;
                }
                let rl = rec.entries[e].rec_len();
                proof {
                    lemma_dir_space_push(rec.entries@.take(e as int), rec.entries@[e as int]);
                    assert(rec.entries@.take(e + 1) =~= rec.entries@.take(e as int).push(
                        rec.entries@[e as int],
                    ));
                }
                if acc + rl > 12 * 1024 {
                    proof {
                        // The entries outgrow even a full twelve-block
                        // directory, so the stored space bound is broken.
                        lemma_dir_space_split(rec.entries@, e + 1);
                        assert(dir_space(rec.entries@) > 12 * 1024);
                        assert((nb as int) * 1024 <= 12 * 1024);
                    }
                    return false;
                }
                // The greedy packing of the entries seen so far.
                let accp_next: usize = if accp % 1024 + rl <= 1024 {
                    accp + rl
                } else {
                    (accp / 1024 + 1) * 1024 + rl
                };
                proof {
                    crate::session::lemma_pack_len_push(
                        rec.entries@.take(e as int),
                        rec.entries@[e as int],
                    );
                    assert(rec.entries@.take(e + 1) =~= rec.entries@.take(e as int).push(
                        rec.entries@[e as int],
                    ));
                }
                if accp_next > 12 * 1024 {
                    proof {
                        // Packed, the entries outgrow a full
                        // twelve-block directory.
                        lemma_pack_len_take(rec.entries@, e + 1);
                        assert(pack_len(rec.entries@) > 12 * 1024);
                        assert((nb as int) * 1024 <= 12 * 1024);
                    }
                    return false;
                }
                acc = acc + rl;
                accp = accp_next;
                e = e + 1;
            }
            proof {
                assert(rec.entries@.take(ne as int) =~= rec.entries@);
            }
            if acc > nb * 1024 {
                return false;
            }
            if accp > nb * 1024 {
                return false;
            }
        } else if is_symlink {
            if rec.entries.len() != 0 {
                return false;
            }
            if nb != 0 {
                return false;
            }
            let tlen = rec.symlink_target.len();
            if tlen >= 60 {
                return false;
            }
            let mut k: usize = 0;
            while k < tlen
                invariant
                    rec == &self.inodes[idx as int],
                    idx == i - 1,
                    rec.symlink_target@.len() == tlen,
                    k <= tlen,
                    forall|x: int| 0 <= x < k ==> #[trigger] rec.symlink_target@[x] != 0u8,
                decreases tlen - k,
            {
                if rec.symlink_target[k] == 0u8 {
                    proof {
                        assert(self.inode_at(i as int).symlink_target@[k as int] == 0u8);
                    }
                    return false;
                }
                k = k + 1;
            }
            if rec.size as usize != tlen {
                return false;
            }
        } else {
            if rec.entries.len() != 0 || rec.symlink_target.len() != 0 {
                return false;
            }
            if rec.size as u64 > (nb as u64) * 1024 {
                return false;
            }
            if rec.flags & EXT4_EXTENTS_FL == 0 && nb > 12 {
                return false;
            }
            if rec.flags & EXT4_EXTENTS_FL != 0 {
                // An extent-mapped file must fit a depth-zero extent
                // tree: at most four runs of consecutive blocks.
                let mut rr: u32 = 0;
                let mut rc: u32 = 0;
                let mut q: usize = 0;
                while q < nb
                    invariant
                        rec == &self.inodes[idx as int],
                        idx == i - 1,
                        blocks == rec.blocks@,
                        blocks.len() == nb,
                        q <= nb,
                        forall|k: int| 0 <= k < nb ==> 1 <= #[trigger] blocks[k] < bc,
                        bc <= 0x200000,
                        rr as nat == spec_runs_state(blocks.take(q as int)).0,
                        rc as nat == spec_runs_state(blocks.take(q as int)).1,
                        rr <= 4,
                        rc <= EXT_MAX_RUN,
                    decreases nb - q,
                {
                    let cont = q > 0 && rec.blocks[q] == rec.blocks[q - 1] + 1 && rc
                        < EXT_MAX_RUN;
                    proof {
                        assert(blocks.take(q + 1).drop_last() =~= blocks.take(q as int));
                        assert(blocks.take(q + 1).last() == blocks[q as int]);
                    }
                    if q == 0 {
                        rr = 1;
                        rc = 1;
                    } else if cont {
                        rc = rc + 1;
                    } else {
                        rr = rr + 1;
                        rc = 1;
                    }
                    if rr > 4 {
                        proof {
                            lemma_runs_take_mono(blocks, q + 1);
                            assert(spec_runs(blocks) > 4);
                        }
                        return false;
                    }
                    q = q + 1;
                }
                proof {
                    assert(blocks.take(nb as int) =~= blocks);
                }
            }
        }
        proof {
            assert(self.rec_wf(self.inode_at(i as int)));
        }
        true
    }

    /// Run the full structural check over the session: geometry,
    /// bitmap sizes and tags, metadata marking, every live inode's
    /// record, and freedom from shared blocks.  The check decides
    /// well-formedness: it succeeds exactly when the session is well
    /// formed, which makes it the library's consistency oracle.
    #[verifier::loop_isolation(false)]
    #[verifier::rlimit(60)]
    pub fn check_consistency(&self) -> (r: bool)
        ensures
            r == self.wf(),
    {
        // Geometry of the superblock, including the derived layout.
        let sb = &self.sb;
        if !(sb.block_size == 1024 && sb.magic == 0xEF53u16 && sb.first_data_block == 1
            && sb.blocks_per_group == 8192 && sb.inode_size == 128 && sb.desc_size == 64) {
            return false;
        }
        if !(sb.blocks_count >= 2 && sb.blocks_count <= EXT2_MAX_BLOCKS) {
            return false;
        }
        let bc = sb.blocks_count;
        if sb.group_count as u64 != ((bc - 1) + 8191) / 8192 {
            return false;
        }
        if sb.gdt_blocks as u64 != (((sb.group_count as u64) * 64) + 1023) / 1024 {
            return false;
        }
        if !(sb.inodes_per_group % 8 == 0 && sb.inodes_per_group >= 8 && sb.inodes_per_group
            <= 8192) {
            return false;
        }
        if sb.itable_blocks != sb.inodes_per_group / 8 {
            return false;
        }
        if sb.meta_per_group as u64 != 3 + (sb.gdt_blocks as u64) + (sb.itable_blocks as u64) {
            return false;
        }
        proof {
            assert(sb.group_count as u64 <= 513);
            assert((sb.inodes_per_group as u64) * (sb.group_count as u64) <= 8192u64
                * 513u64) by (nonlinear_arith)
                requires
                    sb.inodes_per_group as u64 <= 8192 && sb.group_count as u64 <= 513,
            ;
        }
        if sb.inodes_count as u64 != (sb.inodes_per_group as u64) * (sb.group_count as u64) {
            return false;
        }
        if !(sb.inodes_count >= 11 && sb.inodes_count <= 0x200000) {
            return false;
        }
        if sb.first_ino != 11 {
            return false;
        }
        if !((sb.meta_per_group as u32) < sb.blocks_per_group) {
            return false;
        }
        if bc < 1 + ((sb.group_count as u64) - 1) * 8192 + (sb.meta_per_group as u64) + 1 {
            return false;
        }
        if !(sb.uuid.len() == 16 && sb.volume_name.len() == 16) {
            return false;
        }
        // Sizes of the in-memory structures.
        if self.inode_bitmap.bits.len() != sb.inodes_count as usize {
            return false;
        }
        if self.block_bitmap.bits.len() as u64 != bc {
            return false;
        }
        if self.inodes.len() != sb.inodes_count as usize {
            return false;
        }
        if self.data.len() as u64 != bc {
            return false;
        }
        // Bitmap header tags.
        let im = self.inode_bitmap.magic;
        if !(im == MAGIC_GENERIC_BITMAP || im == MAGIC_INODE_BITMAP || im == MAGIC_BLOCK_BITMAP
            || im == MAGIC_GENERIC_BITMAP64 || im == MAGIC_INODE_BITMAP64 || im
            == MAGIC_BLOCK_BITMAP64) {
            return false;
        }
        let bm = self.block_bitmap.magic;
        if !(bm == MAGIC_GENERIC_BITMAP || bm == MAGIC_INODE_BITMAP || bm == MAGIC_BLOCK_BITMAP
            || bm == MAGIC_GENERIC_BITMAP64 || bm == MAGIC_INODE_BITMAP64 || bm
            == MAGIC_BLOCK_BITMAP64) {
            return false;
        }
        // Every metadata block is marked in use.
        let mut b: u64 = 0;
        while b < bc
            invariant
                self.sb.wf(),
                bc == self.sb.blocks_count,
                self.block_bitmap.bits@.len() == bc,
                b <= bc,
                forall|b2: int|
                    0 <= b2 < b && self.sb.is_metadata_block(b2)
                        ==> #[trigger] self.block_bitmap.bits@[b2],
            decreases bc - b,
        {
            if self.sb.is_metadata_block_exec(b) && !self.block_bitmap.test_block(b) {
                proof {
                    assert(!self.wf()) by {
                        if self.wf() {
                            assert(self.block_bitmap.bits@[b as int]);
                        }
                    }
                }
                return false;
            }
            b = b + 1;
        }
        // Every live inode record, with shared-block detection.
        let mut seen: Vec<bool> = Vec::new();
        let mut z: u64 = 0;
        while z < bc
            invariant
                z <= bc,
                seen@.len() == z,
                forall|x: int| 0 <= x < z ==> !seen@[x],
            decreases bc - z,
        {
            seen.push(false);
            z = z + 1;
        }
        let count = sb.inodes_count;
        let mut i: u32 = 1;
        while i <= count
            invariant
                self.sb.wf(),
                count == self.sb.inodes_count,
                self.inode_bitmap.bits@.len() == count,
                self.inodes@.len() == count,
                self.block_bitmap.bits@.len() == self.sb.blocks_count,
                self.data@.len() == self.sb.blocks_count,
                seen@.len() == self.sb.blocks_count,
                1 <= i <= count + 1,
                forall|i1: int|
                    1 <= i1 < i && #[trigger] self.ino_allocated(i1) ==> self.rec_wf(
                        self.inode_at(i1),
                    ),
                forall|i1: int, j: int|
                    1 <= i1 < i && #[trigger] self.ino_allocated(i1) && 0 <= j < self.inode_at(
                        i1,
                    ).blocks@.len() ==> seen@[#[trigger] self.inode_at(i1).blocks@[j] as int],
                forall|x: int|
                    0 <= x < seen@.len() && #[trigger] seen@[x] ==> exists|i1: int|
                        1 <= i1 < i && self.ino_allocated(i1) && self.inode_at(
                            i1,
                        ).blocks@.contains(x as u64),
                forall|i1: int, i2: int|
                    1 <= i1 < i && 1 <= i2 < i && i1 != i2 && #[trigger] self.ino_allocated(i1)
                        && #[trigger] self.ino_allocated(i2) ==> seqs_disjoint(
                        self.inode_at(i1).blocks@,
                        self.inode_at(i2).blocks@,
                    ),
            decreases count + 1 - i,
        {
            if self.inode_bitmap.test_ino(i) {
                let ghost seen0 = seen@;
                if !self.check_rec(i, &mut seen) {
                    proof {
                        assert(!self.wf()) by {
                            if self.wf() {
                                let d = self.inode_at(i as int);
                                assert(self.ino_allocated(i as int));
                                assert(self.rec_wf(d));
                                // The failure was a block already claimed
                                // by an earlier live inode.
                                let j = choose|j: int|
                                    0 <= j < d.blocks@.len() && seen0[#[trigger] d.blocks@[j] as int];
                                let xb = d.blocks@[j];
                                assert(seen0[xb as int]);
                                let i1 = choose|i1: int|
                                    1 <= i1 < i && self.ino_allocated(i1) && self.inode_at(
                                        i1,
                                    ).blocks@.contains((xb as int) as u64);
                                assert(self.inode_at(i1).blocks@.contains(xb));
                                let k = choose|k: int|
                                    0 <= k < self.inode_at(i1).blocks@.len() && self.inode_at(
                                        i1,
                                    ).blocks@[k] == xb;
                                assert(seqs_disjoint(self.inode_at(i1).blocks@, d.blocks@));
                                assert(self.inode_at(i1).blocks@[k] != d.blocks@[j]);
                                assert(false);
                            }
                        }
                    }
                    return false;
                }
                proof {
                    assert forall|i1: int, i2: int|
                        1 <= i1 < i + 1 && 1 <= i2 < i + 1 && i1 != i2 && #[trigger] self
                            .ino_allocated(i1) && #[trigger] self.ino_allocated(
                            i2,
                        ) implies seqs_disjoint(
                        self.inode_at(i1).blocks@,
                        self.inode_at(i2).blocks@,
                    ) by {
                        if i1 == i || i2 == i {
                            let o = if i1 == i {
                                i2
                            } else {
                                i1
                            };
                            let nbk = self.inode_at(i as int).blocks@;
                            let obk = self.inode_at(o).blocks@;
                            assert forall|a: int, c: int|
                                0 <= a < nbk.len() && 0 <= c < obk.len() implies #[trigger] nbk[a]
                                != #[trigger] obk[c] by {
                                assert(seen0[obk[c] as int]);
                                assert(!seen0[nbk[a] as int]);
                            }
                            assert(seqs_disjoint(nbk, obk));
                            assert(seqs_disjoint(obk, nbk));
                        }
                    }
                    assert forall|x: int|
                        0 <= x < seen@.len() && #[trigger] seen@[x] implies exists|i1: int|
                        1 <= i1 < i + 1 && self.ino_allocated(i1) && self.inode_at(
                            i1,
                        ).blocks@.contains(x as u64) by {
                        if seen0[x] {
                            let i1 = choose|i1: int|
                                1 <= i1 < i && self.ino_allocated(i1) && self.inode_at(
                                    i1,
                                ).blocks@.contains(x as u64);
                            assert(1 <= i1 < i + 1 && self.ino_allocated(i1) && self.inode_at(
                                i1,
                            ).blocks@.contains(x as u64));
                        } else {
                            let iw: int = i as int;
                            assert(self.inode_at(iw).blocks@.contains(x as u64));
                            assert(self.ino_allocated(iw));
                            assert(1 <= iw < i + 1 && self.ino_allocated(iw) && self.inode_at(
                                iw,
                            ).blocks@.contains(x as u64));
                        }
                    }
                }
            }
            i = i + 1;
        }
        proof {
            assert(self.wf());
        }
        true
    }
}

} // verus!
