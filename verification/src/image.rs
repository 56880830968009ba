//! Serialising a session to raw image bytes and parsing raw image
//! bytes back into a session: the superblock, group descriptor table,
//! bitmap blocks, inode table with extent lists or direct pointers,
//! directory blocks, and file data.

use vstd::prelude::*;
use vstd::string::StringSliceAdditionalSpecFns;

use vstd::arithmetic::mul::lemma_mul_inequality;

use crate::EXT4_EXTENTS_FL;
use crate::bytes::put_u16;
use crate::bytes::put_u32;
use crate::bytes::put_u64;
use crate::bytes::splice_bytes;
use crate::geometry::EXT2_MAX_BLOCKS;
use crate::geometry::Superblock;
use crate::inode::ExtInodeData;
use crate::messages::ExtEtMessage;
use crate::messages::ExtReport;
use crate::session::EXT_MAX_RUN;
use crate::session::ExtFilesystem;
use crate::session::lemma_pack_len_push;
use crate::session::lemma_pack_len_take;
use crate::session::lemma_runs_take_mono;
use crate::session::pack_len;
use crate::session::spec_runs;
use crate::session::spec_runs_state;

verus! {

/// Every group's metadata head lies inside the device.
pub proof fn lemma_group_fits(sb: Superblock, g: int)
    requires
        sb.wf(),
        0 <= g < sb.group_count,
    ensures
        sb.group_base(g) + sb.meta_per_group <= sb.blocks_count,
        sb.group_base(g) >= 1,
{
    if g == sb.group_count - 1 {
        assert(sb.blocks_count >= 1 + (sb.group_count - 1) * 8192 + sb.meta_per_group + 1);
    } else {
        lemma_mul_inequality(g + 1, sb.group_count as int - 1, 8192);
        assert(sb.group_base(g) + sb.meta_per_group <= 1 + g * 8192 + 8192);
    }
    lemma_mul_inequality(0, g, 8192);
}

/// Serialise one inode record into its 128 on-disk bytes.  A record a
/// well-formed session holds always serialises: an extent-mapped file
/// has at most the four runs a depth-zero tree encodes.
fn serialize_inode(d: &ExtInodeData, bc: u64) -> (r: Result<Vec<u8>, ExtReport>)
    requires
        bc <= 0x200000,
        d.blocks@.len() <= 0x200000,
        forall|j: int| 0 <= j < d.blocks@.len() ==> 1 <= #[trigger] d.blocks@[j] < bc,
        d.spec_is_dir() || (d.flags & EXT4_EXTENTS_FL == 0) ==> d.blocks@.len() <= 12,
        !d.spec_is_dir() && d.spec_is_symlink() ==> d.symlink_target@.len() < 60 && d.blocks@.len()
            == 0,
        !d.spec_is_dir() && !d.spec_is_symlink() && d.flags & EXT4_EXTENTS_FL != 0
            ==> spec_runs(d.blocks@) <= 4,
    ensures
        match r {
            Ok(v) => v@.len() == 128,
            Err(_) => false,
        },
{
    let mut buf: Vec<u8> = Vec::new();
    let mut z: usize = 0;
    while z < 128
        invariant
            buf@.len() == z,
            z <= 128,
        decreases 128 - z,
    {
        buf.push(0u8);
        z = z + 1;
    }
    if d.blocks.len() > 0x200000 {
        proof {
            assert(false);
        }
        return Err(ExtReport::Message(ExtEtMessage::FileTooBig));
    }
    put_u16(&mut buf, 0, d.mode);
    put_u16(&mut buf, 2, d.uid);
    put_u32(&mut buf, 4, d.size);
    put_u32(&mut buf, 8, d.atime);
    put_u32(&mut buf, 12, d.ctime);
    put_u32(&mut buf, 16, d.mtime);
    put_u32(&mut buf, 20, d.dtime);
    put_u16(&mut buf, 24, d.gid);
    put_u16(&mut buf, 26, d.links_count);
    put_u32(&mut buf, 28, (d.blocks.len() as u32) * 2);
    put_u32(&mut buf, 32, d.flags);
    put_u32(&mut buf, 100, d.generation);
    let is_dir = (d.mode as u32) & 0xF000u32 == crate::LINUX_S_IFDIR;
    let is_symlink = (d.mode as u32) & 0xF000u32 == crate::LINUX_S_IFLNK;
    if is_symlink && !is_dir {
        splice_bytes(&mut buf, 40, d.symlink_target.as_slice());
        return Ok(buf);
    }
    if is_dir || d.flags & EXT4_EXTENTS_FL == 0 {
        // Classic direct block pointers; well-formed records of these
        // kinds never exceed the twelve direct slots.
        let nb = d.blocks.len();
        let mut j: usize = 0;
        while j < nb
            invariant
                buf@.len() == 128,
                nb == d.blocks@.len(),
                nb <= 12,
                j <= nb,
                forall|k: int| 0 <= k < nb ==> 1 <= #[trigger] d.blocks@[k] < bc,
            decreases nb - j,
        {
            put_u32(&mut buf, 40 + 4 * j, d.blocks[j] as u32);
            j = j + 1;
        }
        return Ok(buf);
    }
    // A depth-zero extent tree: merge the block list into contiguous
    // runs, at most four of them.
    put_u16(&mut buf, 40, 0xF30A);
    put_u16(&mut buf, 44, 4);
    put_u16(&mut buf, 46, 0);
    put_u32(&mut buf, 48, 0);
    let nb = d.blocks.len();
    let ghost blocks = d.blocks@;
    let mut runs: usize = 0;
    let ghost mut lastc: nat = 0;
    let mut j: usize = 0;
    let mut logical: u32 = 0;
    while j < nb
        invariant
            buf@.len() == 128,
            nb == d.blocks@.len(),
            blocks == d.blocks@,
            nb <= 0x200000,
            bc <= 0x200000,
            j <= nb,
            runs <= 4,
            logical == j,
            spec_runs(blocks) <= 4,
            forall|k: int| 0 <= k < nb ==> 1 <= #[trigger] d.blocks@[k] < bc,
            j == 0 ==> runs == 0,
            j > 0 ==> (runs as nat, lastc) == spec_runs_state(blocks.take(j as int)),
            j > 0 && j < nb ==> lastc == EXT_MAX_RUN as nat || blocks[j as int] != blocks[j - 1]
                + 1,
        decreases nb - j,
    {
        if runs >= 4 {
            proof {
                // The next block opens a fifth run, which the
                // precondition rules out.
                assert(blocks.take(j + 1).drop_last() =~= blocks.take(j as int));
                assert(blocks.take(j + 1).last() == blocks[j as int]);
                assert(spec_runs(blocks.take(j + 1)) == runs + 1);
                lemma_runs_take_mono(blocks, j + 1);
                assert(false);
            }
            return Err(ExtReport::Message(ExtEtMessage::FileTooBig));
        }
        // The run starts at blocks[j]; extend it while contiguous.
        let start = d.blocks[j];
        proof {
            assert(blocks.take(j + 1).drop_last() =~= blocks.take(j as int));
            assert(blocks.take(j + 1).last() == blocks[j as int]);
        }
        let mut len: usize = 1;
        while j + len < nb && len < 32767 && d.blocks[j + len] == start + (len as u64)
            invariant
                nb == d.blocks@.len(),
                blocks == d.blocks@,
                nb <= 0x200000,
                bc <= 0x200000,
                j < nb,
                1 <= len <= 32767,
                j + len <= nb,
                start == d.blocks@[j as int],
                start < bc,
                runs <= 3,
                forall|k: int| 0 <= k < nb ==> 1 <= #[trigger] d.blocks@[k] < bc,
                forall|k: int| 0 <= k < len ==> #[trigger] blocks[j + k] == start + k,
                (runs as nat + 1, len as nat) == spec_runs_state(blocks.take(j + len)),
            decreases nb - j - len,
        {
            proof {
                assert(blocks.take(j + len + 1).drop_last() =~= blocks.take(j + len));
                assert(blocks.take(j + len + 1).last() == blocks[j + len]);
                let kk: int = len - 1;
                assert(blocks[j + kk] == start + kk);
                assert(blocks[j + len - 1] == start + (len - 1));
            }
            len = len + 1;
        }
        let off = 52 + 12 * runs;
        put_u32(&mut buf, off, logical);
        put_u16(&mut buf, off + 4, len as u16);
        put_u16(&mut buf, off + 6, 0);
        put_u32(&mut buf, off + 8, start as u32);
        proof {
            if j + len < nb {
                let kk: int = len - 1;
                assert(blocks[j + kk] == start + kk);
                assert(blocks[j + len - 1] == start + (len - 1));
            }
            lastc = len as nat;
        }
        runs = runs + 1;
        j = j + len;
        logical = logical + (len as u32);
    }
    put_u16(&mut buf, 42, runs as u16);
    Ok(buf)
}


/// Rounding a length up to the next multiple of four adds at most
/// three.
pub proof fn lemma_pad4(n: int)
    requires
        n >= 0,
    ensures
        n <= ((n + 3) / 4) * 4 < n + 4,
{
    vstd::arithmetic::div_mod::lemma_fundamental_div_mod(n + 3, 4);
    vstd::arithmetic::div_mod::lemma_mod_bound(n + 3, 4);
}

/// The descriptor table's blocks hold one descriptor per group.
pub proof fn lemma_gdt_capacity(sb: Superblock)
    requires
        sb.wf(),
    ensures
        sb.group_count * 64 <= sb.gdt_blocks * 1024,
{
    vstd::arithmetic::div_mod::lemma_fundamental_div_mod(sb.group_count * 64 + 1023, 1024);
    vstd::arithmetic::div_mod::lemma_mod_bound(sb.group_count * 64 + 1023, 1024);
}

/// A group's slice of the inode table stays inside the inode count.
pub proof fn lemma_group_ino_range(sb: Superblock, g: int)
    requires
        sb.wf(),
        0 <= g < sb.group_count,
    ensures
        0 <= g * sb.inodes_per_group,
        g * sb.inodes_per_group + sb.inodes_per_group <= sb.inodes_count,
{
    assert(0 <= g * sb.inodes_per_group && g * sb.inodes_per_group + sb.inodes_per_group <= (
    sb.inodes_per_group as int) * (sb.group_count as int)) by (nonlinear_arith)
        requires
            0 <= g < sb.group_count,
            sb.inodes_per_group >= 0,
    ;
}

/// The block-allocation bit the image bytes store for block `b`: the
/// boot block reads as in use, every other block's bit sits in its
/// group's block-bitmap block.
pub open spec fn spec_image_block_bit(img: Seq<u8>, sb: Superblock, b: int) -> bool {
    if b == 0 {
        true
    } else {
        let g = (b - 1) / 8192;
        let off = (b - 1) % 8192;
        let bbm = 1 + g * 8192 + 1 + sb.gdt_blocks;
        img[bbm * 1024 + off / 8] & (1u8 << ((off % 8) as u64)) != 0
    }
}

/// The inode-allocation bit the image bytes store for the inode at
/// zero-based index `i`: it sits in its group's inode-bitmap block.
pub open spec fn spec_image_ino_bit(img: Seq<u8>, sb: Superblock, i: int) -> bool {
    let g = i / (sb.inodes_per_group as int);
    let off = i % (sb.inodes_per_group as int);
    let ibm = 1 + g * 8192 + 2 + sb.gdt_blocks;
    img[ibm * 1024 + off / 8] & (1u8 << ((off % 8) as u64)) != 0
}

/// Bit `x` of a packed bit buffer: bit `x % 8` of byte `x / 8`.
pub open spec fn spec_buf_bit(buf: Seq<u8>, x: int) -> bool {
    buf[x / 8] & (1u8 << ((x % 8) as u64)) != 0
}

/// Setting bit `k` of a byte by an or-mask reads back as set.
proof fn lemma_u8_bit_set(cur: u8, k: u32)
    requires
        k < 8,
    ensures
        (cur | (1u8 << k)) & (1u8 << (k as u64)) != 0,
{
    assert((cur | (1u8 << k)) & (1u8 << (k as u64)) != 0) by (bit_vector)
        requires
            k < 8,
    ;
}

/// Setting bit `k` leaves every other bit of the byte as it was.
proof fn lemma_u8_bit_other(cur: u8, k: u32, j: u64)
    requires
        k < 8,
        j < 8,
        j != k as u64,
    ensures
        ((cur | (1u8 << k)) & (1u8 << j)) == (cur & (1u8 << j)),
{
    assert(((cur | (1u8 << k)) & (1u8 << j)) == (cur & (1u8 << j))) by (bit_vector)
        requires
            k < 8,
            j < 8,
            j != k as u64,
    ;
}

/// A zero byte has no bit set.
proof fn lemma_u8_zero_bit(j: u64)
    requires
        j < 8,
    ensures
        0u8 & (1u8 << j) == 0u8,
{
    assert(0u8 & (1u8 << j) == 0u8) by (bit_vector);
}

/// A block-sized buffer of zero bytes.
fn zero_block() -> (r: Vec<u8>)
    ensures
        r@.len() == 1024,
        forall|x: int| 0 <= x < 1024 ==> r@[x] == 0u8,
{
    let mut buf: Vec<u8> = Vec::new();
    let mut z: usize = 0;
    while z < 1024
        invariant
            buf@.len() == z,
            z <= 1024,
            forall|x: int| 0 <= x < z ==> buf@[x] == 0u8,
        decreases 1024 - z,
    {
        buf.push(0u8);
        z = z + 1;
    }
    buf
}

/// A session whose structural fields are unchanged keeps its
/// well-formedness, whatever happened to the channel or the flag bits.
pub proof fn lemma_wf_same_core(s0: ExtFilesystem, s1: ExtFilesystem)
    requires
        s0.wf(),
        s1.sb == s0.sb,
        s1.inode_bitmap == s0.inode_bitmap,
        s1.block_bitmap == s0.block_bitmap,
        s1.inodes@ == s0.inodes@,
        s1.data@ == s0.data@,
    ensures
        s1.wf(),
{
    assert forall|i: int|
        1 <= i <= s1.sb.inodes_count && #[trigger] s1.ino_allocated(i) implies s1.rec_wf(
        s1.inode_at(i),
    ) by {
        assert(s0.ino_allocated(i));
        assert(s0.rec_wf(s0.inode_at(i)));
        assert(s1.inode_at(i) == s0.inode_at(i));
    }
    assert forall|i1: int, i2: int|
        1 <= i1 <= s1.sb.inodes_count && 1 <= i2 <= s1.sb.inodes_count && i1 != i2
            && #[trigger] s1.ino_allocated(i1) && #[trigger] s1.ino_allocated(i2) implies
        crate::session::seqs_disjoint(s1.inode_at(i1).blocks@, s1.inode_at(i2).blocks@) by {
        assert(s0.ino_allocated(i1) && s0.ino_allocated(i2));
        assert(s1.inode_at(i1) == s0.inode_at(i1));
        assert(s1.inode_at(i2) == s0.inode_at(i2));
    }
}

impl ExtFilesystem {
    /// Write a directory's entries into its blocks inside `img`:
    /// entries are packed in order, each block's final entry extended
    /// to the block end, spare blocks carrying an empty marker entry.
    #[verifier::loop_isolation(false)]
    fn pack_dir(&self, img: &mut Vec<u8>, ino: u32) -> (r: Result<(), ExtReport>)
        requires
            self.wf(),
            self.ino_ok(ino as int),
            self.ino_allocated(ino as int),
            self.inode_at(ino as int).spec_is_dir(),
            old(img)@.len() == self.sb.blocks_count * 1024,
        ensures
            final(img)@.len() == old(img)@.len(),
            match r {
                Ok(()) => true,
                Err(_) => false,
            },
    {
        proof {
            assert(self.rec_wf(self.inode_at(ino as int)));
        }
        let idx: usize = (ino - 1) as usize;
        let rec = &self.inodes[idx];
        let nblk = rec.blocks.len();
        let ne = rec.entries.len();
        let mut cur: Vec<u8> = vec![0u8; 1024];
        let mut pos: usize = 0;
        let mut last_off: usize = 0;
        let mut have_entry: bool = false;
        let mut bi: usize = 0;
        let mut e: usize = 0;
        while e < ne
            invariant
                rec == &self.inodes[idx as int],
                idx == ino - 1,
                rec.entries@.len() == ne,
                rec.blocks@.len() == nblk,
                e <= ne,
                cur@.len() == 1024,
                img@.len() == old(img)@.len(),
                pos <= 1024,
                bi <= nblk,
                have_entry ==> last_off + 8 <= pos,
                // The greedy packing so far, against its specification.
                bi * 1024 + pos == pack_len(rec.entries@.take(e as int)),
                pack_len(rec.entries@) <= nblk * 1024,
                e > 0 ==> pos >= 8,
                e == 0 ==> pos == 0 && bi == 0,
            decreases ne - e,
        {
            proof {
                assert(self.entry_wf(rec.entries@[e as int]));
            }
            let rl = rec.entries[e].rec_len();
            proof {
                lemma_pad4(rec.entries@[e as int].name@.len() as int);
                lemma_pack_len_push(rec.entries@.take(e as int), rec.entries@[e as int]);
                assert(rec.entries@.take(e + 1) =~= rec.entries@.take(e as int).push(
                    rec.entries@[e as int],
                ));
                lemma_pack_len_take(rec.entries@, e + 1);
                let l: int = bi * 1024 + pos;
                if pos < 1024 {
                    assert(l / 1024 == bi && l % 1024 == pos) by (nonlinear_arith)
                        requires
                            l == bi * 1024 + pos,
                            0 <= pos < 1024,
                            bi >= 0,
                    ;
                } else {
                    assert(l / 1024 == bi + 1 && l % 1024 == 0) by (nonlinear_arith)
                        requires
                            l == bi * 1024 + pos,
                            pos == 1024,
                            bi >= 0,
                    ;
                }
            }
            if pos + rl > 1024 {
                if have_entry {
                    let fill = 1024 - last_off;
                    put_u16(&mut cur, last_off + 4, fill as u16);
                } else {
                    put_u16(&mut cur, 4, 1024);
                }
                proof {
                    // Closing this block and placing the entry consumes
                    // `(bi + 1) * 1024 + rl`, which the directory's
                    // packed bound keeps inside its blocks.
                    assert(pack_len(rec.entries@.take(e + 1)) == (bi + 1) * 1024 + rl);
                    assert((bi + 1) * 1024 < nblk * 1024);
                }
                if bi >= nblk {
                    proof {
                        assert(false);
                    }
                    return Err(ExtReport::Message(ExtEtMessage::DirNoSpace));
                }
                let dst = rec.blocks[bi];
                splice_bytes(img, (dst as usize) * 1024, cur.as_slice());
                bi = bi + 1;
                cur = vec![0u8; 1024];
                pos = 0;
                last_off = 0;
                have_entry = false;
            }
            put_u32(&mut cur, pos, rec.entries[e].inode);
            put_u16(&mut cur, pos + 4, rl as u16);
            put_u16(&mut cur, pos + 6, rec.entries[e].name.len() as u16);
            splice_bytes(&mut cur, pos + 8, rec.entries[e].name.as_slice());
            last_off = pos;
            have_entry = true;
            pos = pos + rl;
            e = e + 1;
        }
        if have_entry {
            let fill = 1024 - last_off;
            put_u16(&mut cur, last_off + 4, fill as u16);
        } else {
            put_u16(&mut cur, 4, 1024);
        }
        proof {
            assert(rec.entries@.take(ne as int) =~= rec.entries@);
            if ne > 0 {
                assert(bi * 1024 < nblk * 1024);
            }
        }
        if bi >= nblk {
            proof {
                assert(false);
            }
            return Err(ExtReport::Message(ExtEtMessage::DirNoSpace));
        }
        let dst = rec.blocks[bi];
        splice_bytes(img, (dst as usize) * 1024, cur.as_slice());
        bi = bi + 1;
        while bi < nblk
            invariant
                rec == &self.inodes[idx as int],
                idx == ino - 1,
                rec.blocks@.len() == nblk,
                bi <= nblk,
                img@.len() == old(img)@.len(),
            decreases nblk - bi,
        {
            let mut eb: Vec<u8> = vec![0u8; 1024];
            put_u16(&mut eb, 4, 1024);
            let dst2 = rec.blocks[bi];
            splice_bytes(img, (dst2 as usize) * 1024, eb.as_slice());
            bi = bi + 1;
        }
        Ok(())
    }

    /// Serialise the session into a fresh image: superblock and
    /// descriptor-table copies in every group, both bitmaps, the inode
    /// table, directory blocks, and file data.
    #[verifier::loop_isolation(false)]
    fn serialize(&self) -> (r: Result<Vec<u8>, ExtReport>)
        requires
            self.wf(),
        ensures
            match r {
                Ok(v) => v@.len() == self.sb.blocks_count * 1024,
                Err(_) => false,
            },
    {
        let bc = self.sb.blocks_count;
        let bcu: usize = bc as usize;
        let n: usize = bcu * 1024;
        let mut img: Vec<u8> = vec![0u8; n];
        // Free counts for the superblock.
        let mut free_b: u64 = 0;
        let mut b: u64 = 0;
        while b < bc
            invariant
                b <= bc,
                free_b <= b,
            decreases bc - b,
        {
            if !self.block_bitmap.test_block(b) {
                free_b = free_b + 1;
            }
            b = b + 1;
        }
        let count = self.sb.inodes_count;
        let mut free_i: u32 = 0;
        let mut fi_i: u32 = 1;
        while fi_i <= count
            invariant
                fi_i <= count + 1,
                free_i < fi_i,
            decreases count + 1 - fi_i,
        {
            if !self.inode_bitmap.test_ino(fi_i) {
                free_i = free_i + 1;
            }
            fi_i = fi_i + 1;
        }
        // The superblock image, patched per group with its copy number.
        let mut sbuf: Vec<u8> = vec![0u8; 1024];
        put_u32(&mut sbuf, 0, self.sb.inodes_count);
        put_u32(&mut sbuf, 4, bc as u32);
        put_u32(&mut sbuf, 8, #[verifier::truncate] (self.sb.r_blocks_count as u32));
        put_u32(&mut sbuf, 12, free_b as u32);
        put_u32(&mut sbuf, 16, free_i);
        put_u32(&mut sbuf, 20, 1);
        put_u32(&mut sbuf, 32, 8192);
        put_u32(&mut sbuf, 36, 8192);
        put_u32(&mut sbuf, 40, self.sb.inodes_per_group);
        put_u16(&mut sbuf, 52, self.sb.mnt_count);
        put_u16(&mut sbuf, 54, self.sb.max_mnt_count);
        put_u16(&mut sbuf, 56, 0xEF53);
        put_u16(&mut sbuf, 58, self.sb.state);
        put_u16(&mut sbuf, 60, self.sb.errors);
        put_u16(&mut sbuf, 62, self.sb.minor_rev_level);
        put_u32(&mut sbuf, 68, self.sb.checkinterval);
        put_u32(&mut sbuf, 72, self.sb.creator_os);
        put_u32(&mut sbuf, 76, self.sb.rev_level);
        put_u32(&mut sbuf, 84, self.sb.first_ino);
        put_u16(&mut sbuf, 88, self.sb.inode_size);
        put_u32(&mut sbuf, 92, self.sb.feature_compat);
        put_u32(&mut sbuf, 96, self.sb.feature_incompat);
        put_u32(&mut sbuf, 100, self.sb.feature_ro_compat);
        splice_bytes(&mut sbuf, 104, self.sb.uuid.as_slice());
        splice_bytes(&mut sbuf, 120, self.sb.volume_name.as_slice());
        put_u16(&mut sbuf, 254, self.sb.desc_size);
        put_u32(&mut sbuf, 336, 0);
        sbuf.set(373, self.sb.checksum_type);
        put_u64(&mut sbuf, 376, self.sb.kbytes_written);
        put_u32(&mut sbuf, 584, self.sb.overhead_clusters);
        // The group descriptor table, shared by all copies.
        let gcnt = self.sb.group_count;
        let ipg = self.sb.inodes_per_group;
        let gdt_len: usize = (self.sb.gdt_blocks as usize) * 1024;
        let mut gbuf: Vec<u8> = vec![0u8; gdt_len];
        proof {
            lemma_gdt_capacity(self.sb);
        }
        let mut h: u32 = 0;
        while h < gcnt
            invariant
                h <= gcnt,
                gbuf@.len() == gdt_len,
            decreases gcnt - h,
        {
            let base_h: u64 = 1 + (h as u64) * 8192;
            let bbm: u64 = base_h + 1 + self.sb.gdt_blocks as u64;
            let ibm: u64 = bbm + 1;
            let itab: u64 = ibm + 1;
            let gend: u64 = if base_h + 8192 < bc {
                base_h + 8192
            } else {
                bc
            };
            proof {
                lemma_group_fits(self.sb, h as int);
            }
            let mut fb: u64 = 0;
            let mut x: u64 = base_h;
            while x < gend
                invariant
                    base_h <= x <= gend,
                    gend <= bc,
                    fb <= x - base_h,
                decreases gend - x,
            {
                if !self.block_bitmap.test_block(x) {
                    fb = fb + 1;
                }
                x = x + 1;
            }
            proof {
                lemma_group_ino_range(self.sb, h as int);
            }
            let istart: u64 = (h as u64) * (ipg as u64);
            let mut fi: u64 = 0;
            let mut ud: u64 = 0;
            let mut y: u64 = 0;
            while y < ipg as u64
                invariant
                    y <= ipg,
                    fi <= y,
                    ud <= y,
                    istart + ipg as u64 <= count,
                decreases ipg as u64 - y,
            {
                let yin: u32 = (istart + y + 1) as u32;
                if !self.inode_bitmap.test_ino(yin) {
                    fi = fi + 1;
                } else {
                    let m = (self.inodes[(yin - 1) as usize].mode as u32) & 0xF000u32;
                    if m == crate::LINUX_S_IFDIR {
                        ud = ud + 1;
                    }
                }
                y = y + 1;
            }
            let off: usize = (h as usize) * 64;
            proof {
                lemma_mul_inequality(h as int + 1, gcnt as int, 64);
            }
            put_u32(&mut gbuf, off, bbm as u32);
            put_u32(&mut gbuf, off + 4, ibm as u32);
            put_u32(&mut gbuf, off + 8, itab as u32);
            put_u16(&mut gbuf, off + 12, fb as u16);
            put_u16(&mut gbuf, off + 14, fi as u16);
            put_u16(&mut gbuf, off + 16, ud as u16);
            h = h + 1;
        }
        // Lay each group down: superblock copy, descriptor table,
        // bitmaps, inode table.
        let mut g: u32 = 0;
        while g < gcnt
            invariant
                g <= gcnt,
                img@.len() == n,
                sbuf@.len() == 1024,
                gbuf@.len() == gdt_len,
            decreases gcnt - g,
        {
            proof {
                lemma_group_fits(self.sb, g as int);
            }
            let base: u64 = 1 + (g as u64) * 8192;
            put_u16(&mut sbuf, 90, g as u16);
            splice_bytes(&mut img, (base as usize) * 1024, sbuf.as_slice());
            splice_bytes(&mut img, ((base as usize) + 1) * 1024, gbuf.as_slice());
            let bbm: u64 = base + 1 + self.sb.gdt_blocks as u64;
            let ibm: u64 = bbm + 1;
            let itab: u64 = ibm + 1;
            // Block bitmap: one bit per block of the group, padding
            // past the device end marked in use.
            let mut bbuf: Vec<u8> = vec![0u8; 1024];
            let mut i: u32 = 0;
            while i < 8192
                invariant
                    i <= 8192,
                    bbuf@.len() == 1024,
                decreases 8192 - i,
            {
                let blockno: u64 = base + (i as u64) - 1 + 1;
                let used: bool = if blockno < bc {
                    self.block_bitmap.test_block(blockno)
                } else {
                    true
                };
                if used {
                    let byi: usize = (i / 8) as usize;
                    let cur = bbuf[byi];
                    bbuf.set(byi, cur | (1u8 << (i % 8)));
                }
                i = i + 1;
            }
            splice_bytes(&mut img, (bbm as usize) * 1024, bbuf.as_slice());
            // Inode bitmap: one bit per inode of the group, padding
            // past the per-group count marked in use.
            proof {
                lemma_group_ino_range(self.sb, g as int);
            }
            let istart: u64 = (g as u64) * (ipg as u64);
            let mut ibuf: Vec<u8> = vec![0u8; 1024];
            let mut i2: u32 = 0;
            while i2 < 8192
                invariant
                    i2 <= 8192,
                    ibuf@.len() == 1024,
                    istart + ipg as u64 <= count,
                decreases 8192 - i2,
            {
                let used: bool = if i2 < ipg {
                    self.inode_bitmap.test_ino((istart + (i2 as u64) + 1) as u32)
                } else {
                    true
                };
                if used {
                    let byi: usize = (i2 / 8) as usize;
                    let cur = ibuf[byi];
                    ibuf.set(byi, cur | (1u8 << (i2 % 8)));
                }
                i2 = i2 + 1;
            }
            splice_bytes(&mut img, (ibm as usize) * 1024, ibuf.as_slice());
            // Inode table slice.
            let mut t: u32 = 0;
            while t < ipg
                invariant
                    t <= ipg,
                    img@.len() == n,
                    istart + ipg as u64 <= count,
                    itab == base + 3 + self.sb.gdt_blocks as u64,
                    base == 1 + (g as u64) * 8192,
                    g < gcnt,
                decreases ipg - t,
            {
                let yin: u32 = (istart + (t as u64) + 1) as u32;
                if self.inode_bitmap.test_ino(yin) {
                    proof {
                        assert(self.ino_allocated(yin as int));
                        assert(self.rec_wf(self.inode_at(yin as int)));
                        crate::consistency::lemma_distinct_blocks_bounded(
                            self.inode_at(yin as int).blocks@,
                            bc as int,
                        );
                        lemma_group_fits(self.sb, g as int);
                        lemma_mul_inequality(t as int + 1, ipg as int, 128);
                    }
                    let rbytes = match serialize_inode(&self.inodes[(yin - 1) as usize], bc) {
                        Ok(v) => v,
                        Err(e) => {
                            return Err(e);
                        },
                    };
                    splice_bytes(
                        &mut img,
                        (itab as usize) * 1024 + (t as usize) * 128,
                        rbytes.as_slice(),
                    );
                }
                t = t + 1;
            }
            g = g + 1;
        }
        // File data and whatever block payloads the session holds.
        // Metadata blocks stay as the group loop just wrote them: a
        // session parsed from an image carries the old copies of those
        // blocks in its data table, and they must not shadow the fresh
        // superblock, descriptor, bitmap and inode-table bytes.
        let mut b2: u64 = 0;
        while b2 < bc
            invariant
                b2 <= bc,
                img@.len() == n,
            decreases bc - b2,
        {
            if !self.sb.is_metadata_block_exec(b2) && self.data[b2 as usize].len() == 1024 {
                splice_bytes(&mut img, (b2 as usize) * 1024, self.data[b2 as usize].as_slice());
            }
            b2 = b2 + 1;
        }
        // Directory payloads, generated from the typed entries.
        let mut di: u32 = 1;
        while di <= count
            invariant
                1 <= di <= count + 1,
                img@.len() == n,
            decreases count + 1 - di,
        {
            if self.inode_bitmap.test_ino(di) {
                let m = (self.inodes[(di - 1) as usize].mode as u32) & 0xF000u32;
                if m == crate::LINUX_S_IFDIR {
                    match self.pack_dir(&mut img, di) {
                        Ok(()) => (),
                        Err(e) => {
                            return Err(e);
                        },
                    }
                }
            }
            di = di + 1;
        }
        Ok(img)
    }

    /// Mark the session changed and synchronise the typed state into
    /// the channel's image bytes.  Must follow any mutating sequence
    /// that is not already followed by teardown.  A well-formed
    /// session always serialises, so the synchronisation cannot fail.
    pub fn flush(&mut self) -> (r: Result<(), ExtReport>)
        requires
            old(self).wf(),
        ensures
            final(self).wf(),
            final(self).sb == old(self).sb,
            final(self).inode_bitmap == old(self).inode_bitmap,
            final(self).block_bitmap == old(self).block_bitmap,
            final(self).inodes@ == old(self).inodes@,
            final(self).data@ == old(self).data@,
            final(self).flags == old(self).flags | (crate::session::EXT2_FLAG_DIRTY
                | crate::session::EXT2_FLAG_CHANGED),
            r is Ok,
            final(self).channel.data@.len() == old(self).sb.blocks_count * 1024,
    {
        self.flags = self.flags | (crate::session::EXT2_FLAG_DIRTY
            | crate::session::EXT2_FLAG_CHANGED);
        proof {
            lemma_wf_same_core(*old(self), *self);
        }
        let img = match self.serialize() {
            Ok(v) => v,
            Err(e) => {
                proof {
                    lemma_wf_same_core(*old(self), *self);
                }
                return Err(e);
            },
        };
        self.channel.data = img;
        proof {
            lemma_wf_same_core(*old(self), *self);
        }
        Ok(())
    }

    /// Write the two bitmaps into their blocks inside the channel's
    /// image bytes; always invoked during session teardown.  On
    /// success the stored bits equal the in-memory bitmaps, bit for
    /// bit; the write fails exactly when the channel does not hold a
    /// full image.
    #[verifier::loop_isolation(false)]
    #[verifier::rlimit(100)]
    pub fn write_bitmaps(&mut self) -> (r: Result<(), ExtReport>)
        requires
            old(self).wf(),
        ensures
            final(self).wf(),
            final(self).sb == old(self).sb,
            final(self).inode_bitmap == old(self).inode_bitmap,
            final(self).block_bitmap == old(self).block_bitmap,
            final(self).inodes@ == old(self).inodes@,
            final(self).data@ == old(self).data@,
            final(self).flags == old(self).flags,
            match r {
                Ok(()) => {
                    &&& old(self).channel.data@.len() == old(self).sb.blocks_count * 1024
                    &&& final(self).channel.data@.len() == old(self).channel.data@.len()
                    &&& forall|b: int|
                        0 <= b < old(self).sb.blocks_count ==> spec_image_block_bit(
                            final(self).channel.data@,
                            old(self).sb,
                            b,
                        ) == old(self).block_bitmap.bits@[b]
                    &&& forall|x: int|
                        0 <= x < old(self).sb.inodes_count ==> spec_image_ino_bit(
                            final(self).channel.data@,
                            old(self).sb,
                            x,
                        ) == old(self).inode_bitmap.bits@[x]
                },
                Err(e) => {
                    &&& e == ExtReport::Message(ExtEtMessage::BlockBitmapWrite)
                    &&& old(self).channel.data@.len() != old(self).sb.blocks_count * 1024
                    &&& final(self).channel.data@ == old(self).channel.data@
                },
            },
    {
        let bc = self.sb.blocks_count;
        let n: usize = (bc as usize) * 1024;
        if self.channel.data.len() != n {
            proof {
                lemma_wf_same_core(*old(self), *self);
            }
            return Err(ExtReport::Message(ExtEtMessage::BlockBitmapWrite));
        }
        let count = self.sb.inodes_count;
        let gcnt = self.sb.group_count;
        let ipg = self.sb.inodes_per_group;
        let mut g: u32 = 0;
        while g < gcnt
            invariant
                g <= gcnt,
                self.channel.data@.len() == n,
                self.sb == old(self).sb,
                self.inode_bitmap == old(self).inode_bitmap,
                self.block_bitmap == old(self).block_bitmap,
                self.inodes@ == old(self).inodes@,
                self.data@ == old(self).data@,
                self.flags == old(self).flags,
                forall|b2: int|
                    1 <= b2 < bc && (b2 - 1) / 8192 < g ==> spec_image_block_bit(
                        self.channel.data@,
                        self.sb,
                        b2,
                    ) == old(self).block_bitmap.bits@[b2],
                forall|x: int|
                    0 <= x < count && x / (ipg as int) < g ==> spec_image_ino_bit(
                        self.channel.data@,
                        self.sb,
                        x,
                    ) == old(self).inode_bitmap.bits@[x],
            decreases gcnt - g,
        {
            proof {
                lemma_group_fits(self.sb, g as int);
                lemma_group_ino_range(self.sb, g as int);
            }
            let base: u64 = 1 + (g as u64) * 8192;
            let bbm: u64 = base + 1 + self.sb.gdt_blocks as u64;
            let ibm: u64 = bbm + 1;
            let mut bbuf: Vec<u8> = zero_block();
            proof {
                assert forall|x: int| 0 <= x < 8192 implies !spec_buf_bit(bbuf@, x) by {
                    vstd::arithmetic::div_mod::lemma_fundamental_div_mod(x, 8);
                    vstd::arithmetic::div_mod::lemma_mod_bound(x, 8);
                    lemma_u8_zero_bit((x % 8) as u64);
                    assert(bbuf@[x / 8] == 0u8);
                }
            }
            let mut i: u32 = 0;
            while i < 8192
                invariant
                    i <= 8192,
                    bbuf@.len() == 1024,
                    base == 1 + (g as u64) * 8192,
                    forall|x: int|
                        0 <= x < i ==> #[trigger] spec_buf_bit(bbuf@, x) == (if base + x < bc {
                            self.block_bitmap.bits@[base + x]
                        } else {
                            true
                        }),
                    forall|x: int| i <= x < 8192 ==> !#[trigger] spec_buf_bit(bbuf@, x),
                decreases 8192 - i,
            {
                let blockno: u64 = base + (i as u64);
                let used: bool = if blockno < bc {
                    self.block_bitmap.test_block(blockno)
                } else {
                    true
                };
                let ghost pre = bbuf@;
                if used {
                    let byi: usize = (i / 8) as usize;
                    proof {
                        vstd::arithmetic::div_mod::lemma_fundamental_div_mod(i as int, 8);
                        vstd::arithmetic::div_mod::lemma_mod_bound(i as int, 8);
                    }
                    let cur = bbuf[byi];
                    bbuf.set(byi, cur | (1u8 << (i % 8)));
                    proof {
                        lemma_u8_bit_set(cur, i % 8);
                        assert forall|x: int|
                            0 <= x < 8192 && x != i implies #[trigger] spec_buf_bit(bbuf@, x)
                            == spec_buf_bit(pre, x) by {
                            vstd::arithmetic::div_mod::lemma_fundamental_div_mod(x, 8);
                            vstd::arithmetic::div_mod::lemma_mod_bound(x, 8);
                            if x / 8 == i as int / 8 {
                                assert(x % 8 != (i as int) % 8);
                                lemma_u8_bit_other(cur, i % 8, (x % 8) as u64);
                            } else {
                                assert(bbuf@[x / 8] == pre[x / 8]);
                            }
                        }
                    }
                }
                proof {
                    assert forall|x: int|
                        0 <= x < i + 1 implies #[trigger] spec_buf_bit(bbuf@, x) == (if base + x
                        < bc {
                        self.block_bitmap.bits@[base + x]
                    } else {
                        true
                    }) by {
                        if x == i {
                            if !used {
                                assert(!spec_buf_bit(pre, x));
                            }
                        }
                    }
                }
                i = i + 1;
            }
            let ghost img0 = self.channel.data@;
            splice_bytes(&mut self.channel.data, (bbm as usize) * 1024, bbuf.as_slice());
            let ghost img1 = self.channel.data@;
            proof {
                lemma_group_ino_range(self.sb, g as int);
            }
            let istart: u64 = (g as u64) * (ipg as u64);
            let mut ibuf: Vec<u8> = zero_block();
            proof {
                assert forall|x: int| 0 <= x < 8192 implies !spec_buf_bit(ibuf@, x) by {
                    vstd::arithmetic::div_mod::lemma_fundamental_div_mod(x, 8);
                    vstd::arithmetic::div_mod::lemma_mod_bound(x, 8);
                    lemma_u8_zero_bit((x % 8) as u64);
                    assert(ibuf@[x / 8] == 0u8);
                }
            }
            let mut i2: u32 = 0;
            while i2 < 8192
                invariant
                    i2 <= 8192,
                    ibuf@.len() == 1024,
                    istart == (g as u64) * (ipg as u64),
                    istart + ipg as u64 <= count,
                    forall|x: int|
                        0 <= x < i2 ==> #[trigger] spec_buf_bit(ibuf@, x) == (if x < ipg {
                            self.inode_bitmap.bits@[istart + x]
                        } else {
                            true
                        }),
                    forall|x: int| i2 <= x < 8192 ==> !#[trigger] spec_buf_bit(ibuf@, x),
                decreases 8192 - i2,
            {
                let used: bool = if i2 < ipg {
                    self.inode_bitmap.test_ino((istart + (i2 as u64) + 1) as u32)
                } else {
                    true
                };
                let ghost pre = ibuf@;
                if used {
                    let byi: usize = (i2 / 8) as usize;
                    proof {
                        vstd::arithmetic::div_mod::lemma_fundamental_div_mod(i2 as int, 8);
                        vstd::arithmetic::div_mod::lemma_mod_bound(i2 as int, 8);
                    }
                    let cur = ibuf[byi];
                    ibuf.set(byi, cur | (1u8 << (i2 % 8)));
                    proof {
                        lemma_u8_bit_set(cur, i2 % 8);
                        assert forall|x: int|
                            0 <= x < 8192 && x != i2 implies #[trigger] spec_buf_bit(ibuf@, x)
                            == spec_buf_bit(pre, x) by {
                            vstd::arithmetic::div_mod::lemma_fundamental_div_mod(x, 8);
                            vstd::arithmetic::div_mod::lemma_mod_bound(x, 8);
                            if x / 8 == i2 as int / 8 {
                                assert(x % 8 != (i2 as int) % 8);
                                lemma_u8_bit_other(cur, i2 % 8, (x % 8) as u64);
                            } else {
                                assert(ibuf@[x / 8] == pre[x / 8]);
                            }
                        }
                    }
                }
                proof {
                    assert forall|x: int|
                        0 <= x < i2 + 1 implies #[trigger] spec_buf_bit(ibuf@, x) == (if x < ipg {
                        self.inode_bitmap.bits@[istart + x]
                    } else {
                        true
                    }) by {
                        if x == i2 {
                            if !used {
                                assert(!spec_buf_bit(pre, x));
                            }
                        }
                    }
                }
                i2 = i2 + 1;
            }
            splice_bytes(&mut self.channel.data, (ibm as usize) * 1024, ibuf.as_slice());
            proof {
                let sb = self.sb;
                let gdt = sb.gdt_blocks as int;
                let gi = g as int;
                // This group's freshly written bits, and every earlier
                // group's, now read back from the image bytes.
                assert forall|b2: int|
                    1 <= b2 < bc && (b2 - 1) / 8192 < g + 1 implies spec_image_block_bit(
                    self.channel.data@,
                    sb,
                    b2,
                ) == old(self).block_bitmap.bits@[b2] by {
                    let g2 = (b2 - 1) / 8192;
                    let off = (b2 - 1) % 8192;
                    vstd::arithmetic::div_mod::lemma_fundamental_div_mod(b2 - 1, 8192);
                    vstd::arithmetic::div_mod::lemma_mod_bound(b2 - 1, 8192);
                    vstd::arithmetic::div_mod::lemma_mod_bound(off, 8);
                    vstd::arithmetic::div_mod::lemma_fundamental_div_mod(off, 8);
                    let idx = (1 + g2 * 8192 + 1 + gdt) * 1024 + off / 8;
                    if g2 < gi {
                        // An earlier group's bitmap byte lies below both
                        // regions written this pass.
                        assert(idx < (bbm as int) * 1024);
                        assert(self.channel.data@[idx] == img1[idx]);
                        assert(img1[idx] == img0[idx]);
                    } else {
                        assert(g2 == gi);
                        assert(base as int + off == b2);
                        assert(idx == (bbm as int) * 1024 + off / 8);
                        assert(idx < (ibm as int) * 1024);
                        assert(self.channel.data@[idx] == img1[idx]);
                        assert(img1[idx] == bbuf@[off / 8]);
                        assert(spec_buf_bit(bbuf@, off) == (if base + off < bc {
                            self.block_bitmap.bits@[base + off]
                        } else {
                            true
                        }));
                    }
                }
                assert forall|x: int|
                    0 <= x < count && x / (ipg as int) < g + 1 implies spec_image_ino_bit(
                    self.channel.data@,
                    sb,
                    x,
                ) == old(self).inode_bitmap.bits@[x] by {
                    let g2 = x / (ipg as int);
                    let off = x % (ipg as int);
                    vstd::arithmetic::div_mod::lemma_fundamental_div_mod(x, ipg as int);
                    vstd::arithmetic::div_mod::lemma_mod_bound(x, ipg as int);
                    vstd::arithmetic::div_mod::lemma_mod_bound(off, 8);
                    vstd::arithmetic::div_mod::lemma_fundamental_div_mod(off, 8);
                    let idx = (1 + g2 * 8192 + 2 + gdt) * 1024 + off / 8;
                    if g2 < gi {
                        assert(idx < (bbm as int) * 1024);
                        assert(self.channel.data@[idx] == img1[idx]);
                        assert(img1[idx] == img0[idx]);
                    } else {
                        assert(g2 == gi);
                        assert((gi as int) * (ipg as int) == (ipg as int) * (gi as int)) by (nonlinear_arith);
                        assert(istart as int + off == x);
                        assert(idx == (ibm as int) * 1024 + off / 8);
                        assert(self.channel.data@[idx] == ibuf@[off / 8]);
                        assert(spec_buf_bit(ibuf@, off) == (if off < ipg {
                            self.inode_bitmap.bits@[istart as int + off]
                        } else {
                            true
                        }));
                    }
                }
            }
            g = g + 1;
        }
        proof {
            lemma_wf_same_core(*old(self), *self);
            assert forall|b2: int|
                0 <= b2 < bc implies spec_image_block_bit(self.channel.data@, self.sb, b2)
                == old(self).block_bitmap.bits@[b2] by {
                if b2 == 0 {
                    assert(self.sb.is_metadata_block(0));
                    assert(old(self).block_bitmap.bits@[0]);
                } else {
                    assert((b2 - 1) / 8192 < gcnt) by (nonlinear_arith)
                        requires
                            1 <= b2 < bc,
                            gcnt == ((bc - 1) + 8191) / 8192,
                    ;
                }
            }
            assert forall|x: int|
                0 <= x < count implies spec_image_ino_bit(self.channel.data@, self.sb, x)
                == old(self).inode_bitmap.bits@[x] by {
                assert(x / (ipg as int) < gcnt) by (nonlinear_arith)
                    requires
                        0 <= x < count,
                        count == (ipg as int) * (gcnt as int),
                        ipg >= 1,
                ;
            }
        }
        Ok(())
    }

    /// Load both bitmaps from the channel's image bytes, then re-run
    /// the structural check so that the loaded allocation state agrees
    /// with the inode table; on disagreement the previous bitmaps are
    /// kept and the corruption is reported.  On success each loaded
    /// bit is exactly the bit stored in the image bytes.
    #[verifier::loop_isolation(false)]
    pub fn read_bitmaps(&mut self) -> (r: Result<(), ExtReport>)
        requires
            old(self).wf(),
        ensures
            final(self).wf(),
            final(self).sb == old(self).sb,
            final(self).inodes@ == old(self).inodes@,
            final(self).data@ == old(self).data@,
            final(self).channel.data@ == old(self).channel.data@,
            r is Err ==> final(self).inode_bitmap == old(self).inode_bitmap && final(self).block_bitmap
                == old(self).block_bitmap,
            r is Ok ==> {
                &&& old(self).channel.data@.len() == old(self).sb.blocks_count * 1024
                &&& forall|b: int|
                    0 <= b < old(self).sb.blocks_count ==> final(self).block_bitmap.bits@[b]
                        == spec_image_block_bit(old(self).channel.data@, old(self).sb, b)
                &&& forall|i: int|
                    0 <= i < old(self).sb.inodes_count ==> final(self).inode_bitmap.bits@[i]
                        == spec_image_ino_bit(old(self).channel.data@, old(self).sb, i)
            },
            // A reload is owed success when the stored bits agree with
            // the bitmaps already held — the store-then-reload round
            // trip in particular.
            old(self).channel.data@.len() == old(self).sb.blocks_count * 1024 && (forall|b: int|
                0 <= b < old(self).sb.blocks_count ==> old(self).block_bitmap.bits@[b]
                    == spec_image_block_bit(old(self).channel.data@, old(self).sb, b)) && (forall|
                i: int,
            |
                0 <= i < old(self).sb.inodes_count ==> old(self).inode_bitmap.bits@[i]
                    == spec_image_ino_bit(old(self).channel.data@, old(self).sb, i)) ==> r is Ok,
    {
        let bc = self.sb.blocks_count;
        let n: usize = (bc as usize) * 1024;
        if self.channel.data.len() != n {
            proof {
                lemma_wf_same_core(*old(self), *self);
            }
            return Err(ExtReport::Message(ExtEtMessage::BlockBitmapRead));
        }
        let count = self.sb.inodes_count;
        let gcnt = self.sb.group_count;
        let ipg = self.sb.inodes_per_group;
        let mut new_bbits: Vec<bool> = Vec::new();
        let mut b: u64 = 0;
        while b < bc
            invariant
                b <= bc,
                new_bbits@.len() == b,
                self.channel.data@.len() == n,
                *self == *old(self),
                forall|x: int|
                    0 <= x < b ==> #[trigger] new_bbits@[x] == spec_image_block_bit(
                        self.channel.data@,
                        self.sb,
                        x,
                    ),
            decreases bc - b,
        {
            if b == 0 {
                new_bbits.push(true);
            } else {
                let g: u64 = (b - 1) / 8192;
                let off: u64 = (b - 1) % 8192;
                proof {
                    vstd::arithmetic::div_mod::lemma_fundamental_div_mod((b - 1) as int, 8192);
                    vstd::arithmetic::div_mod::lemma_mod_bound((b - 1) as int, 8192);
                    assert(g < self.sb.group_count) by (nonlinear_arith)
                        requires
                            g == ((b - 1) as int) / 8192,
                            b < self.sb.blocks_count,
                            self.sb.group_count == ((self.sb.blocks_count - 1) + 8191) / 8192,
                            1 <= b,
                    ;
                    lemma_group_fits(self.sb, g as int);
                }
                let bbm: u64 = 1 + g * 8192 + 1 + self.sb.gdt_blocks as u64;
                let byte = self.channel.data[(bbm as usize) * 1024 + (off / 8) as usize];
                new_bbits.push(byte & (1u8 << (off % 8)) != 0);
            }
            b = b + 1;
        }
        let mut new_ibits: Vec<bool> = Vec::new();
        let mut i: u32 = 0;
        while i < count
            invariant
                i <= count,
                new_ibits@.len() == i,
                self.channel.data@.len() == n,
                *self == *old(self),
                forall|x: int|
                    0 <= x < i ==> #[trigger] new_ibits@[x] == spec_image_ino_bit(
                        self.channel.data@,
                        self.sb,
                        x,
                    ),
            decreases count - i,
        {
            let g: u32 = i / ipg;
            let off: u32 = i % ipg;
            proof {
                vstd::arithmetic::div_mod::lemma_fundamental_div_mod(i as int, ipg as int);
                vstd::arithmetic::div_mod::lemma_mod_bound(i as int, ipg as int);
                assert(g < self.sb.group_count) by (nonlinear_arith)
                    requires
                        g == (i as int) / (ipg as int),
                        i < self.sb.inodes_count,
                        self.sb.inodes_count == self.sb.inodes_per_group * self.sb.group_count,
                        ipg == self.sb.inodes_per_group,
                        ipg >= 1,
                ;
                lemma_group_fits(self.sb, g as int);
            }
            let ibm: u64 = 1 + (g as u64) * 8192 + 2 + self.sb.gdt_blocks as u64;
            let byte = self.channel.data[(ibm as usize) * 1024 + (off / 8) as usize];
            new_ibits.push(byte & (1u8 << (off % 8)) != 0);
            i = i + 1;
        }
        let mut old_b = new_bbits;
        core::mem::swap(&mut self.block_bitmap.bits, &mut old_b);
        let mut old_i = new_ibits;
        core::mem::swap(&mut self.inode_bitmap.bits, &mut old_i);
        proof {
            if old(self).channel.data@.len() == old(self).sb.blocks_count * 1024 && (forall|
                b2: int,
            |
                0 <= b2 < old(self).sb.blocks_count ==> old(self).block_bitmap.bits@[b2]
                    == spec_image_block_bit(old(self).channel.data@, old(self).sb, b2)) && (forall|
                i2: int,
            |
                0 <= i2 < old(self).sb.inodes_count ==> old(self).inode_bitmap.bits@[i2]
                    == spec_image_ino_bit(old(self).channel.data@, old(self).sb, i2)) {
                // The decoded bits are the ones already held, so the
                // session is unchanged and still well formed.
                assert(self.block_bitmap.bits@ =~= old(self).block_bitmap.bits@);
                assert(self.inode_bitmap.bits@ =~= old(self).inode_bitmap.bits@);
                assert forall|i3: int|
                    1 <= i3 <= self.sb.inodes_count && #[trigger] self.ino_allocated(
                        i3,
                    ) implies self.rec_wf(self.inode_at(i3)) by {
                    assert(old(self).ino_allocated(i3));
                    assert(old(self).rec_wf(old(self).inode_at(i3)));
                    assert(self.inode_at(i3) == old(self).inode_at(i3));
                }
                assert forall|i4: int, i5: int|
                    1 <= i4 <= self.sb.inodes_count && 1 <= i5 <= self.sb.inodes_count && i4 != i5
                        && #[trigger] self.ino_allocated(i4) && #[trigger] self.ino_allocated(
                        i5,
                    ) implies crate::session::seqs_disjoint(
                    self.inode_at(i4).blocks@,
                    self.inode_at(i5).blocks@,
                ) by {
                    assert(old(self).ino_allocated(i4) && old(self).ino_allocated(i5));
                }
                assert forall|b3: int|
                    0 <= b3 < self.sb.blocks_count && self.sb.is_metadata_block(
                        b3,
                    ) implies #[trigger] self.block_bitmap.bits@[b3] by {
                    assert(old(self).block_bitmap.bits@[b3]);
                }
                assert(self.wf());
            }
        }
        if self.check_consistency() {
            Ok(())
        } else {
            self.block_bitmap.bits = old_b;
            self.inode_bitmap.bits = old_i;
            proof {
                lemma_wf_same_core(*old(self), *self);
            }
            Err(ExtReport::Message(ExtEtMessage::FilsysCorrupted))
        }
    }
}



/// A table of `count` zeroed inode records.
fn zeroed_records(count: u64) -> (r: Vec<crate::inode::ExtInodeData>)
    requires
        count <= 0x200000,
    ensures
        r@.len() == count,
        forall|x: int|
            0 <= x < count ==> #[trigger] r@[x].blocks@.len() == 0 && r@[x].entries@.len() == 0
                && r@[x].symlink_target@.len() == 0 && r@[x].mode == 0 && r@[x].size == 0,
{
    let mut out: Vec<crate::inode::ExtInodeData> = Vec::new();
    let mut i: u64 = 0;
    while i < count
        invariant
            i <= count,
            out@.len() == i,
            forall|x: int|
                0 <= x < i ==> #[trigger] out@[x].blocks@.len() == 0 && out@[x].entries@.len() == 0
                    && out@[x].symlink_target@.len() == 0 && out@[x].mode == 0 && out@[x].size
                    == 0,
        decreases count - i,
    {
        let ghost pre = out@;
        out.push(crate::inode::ExtInodeData::zeroed());
        proof {
            assert forall|x: int|
                0 <= x < i + 1 implies #[trigger] out@[x].blocks@.len() == 0
                && out@[x].entries@.len() == 0 && out@[x].symlink_target@.len() == 0
                && out@[x].mode == 0 && out@[x].size == 0 by {
                if x < i {
                    assert(out@[x] == pre[x]);
                    assert(pre[x].blocks@.len() == 0);
                } else {
                    assert(out@[x].blocks@.len() == 0);
                }
            }
        }
        i = i + 1;
    }
    out
}

impl ExtFilesystem {
    /// Mark the low reserved inode range — numbers three through
    /// ten — allocated on a fresh image.
    #[verifier::loop_isolation(false)]
    fn reserve_low_range(&mut self)
        requires
            old(self).wf(),
            old(self).sb.inodes_count >= 11,
            forall|x: int|
                3 <= x <= 10 ==> (#[trigger] old(self).inode_at(x)).blocks@.len() == 0 && old(
                    self,
                ).inode_at(x).entries@.len() == 0 && old(self).inode_at(x).symlink_target@.len()
                    == 0 && old(self).inode_at(x).mode == 0 && old(self).inode_at(x).size == 0,
        ensures
            final(self).wf(),
            final(self).sb == old(self).sb,
            final(self).flags == old(self).flags,
            final(self).block_bitmap == old(self).block_bitmap,
            final(self).inodes@ == old(self).inodes@,
            final(self).data@ == old(self).data@,
            final(self).channel.data@ == old(self).channel.data@,
            forall|x: int| 3 <= x <= 10 ==> #[trigger] final(self).ino_allocated(x),
            forall|x: int|
                1 <= x <= old(self).sb.inodes_count && !(3 <= x <= 10) ==> (
                #[trigger] final(self).ino_allocated(x)) == (#[trigger] old(self).ino_allocated(
                    x,
                )),
    {
        proof {
            assert((0u16 as u32) & 0xF000u32 != 0x4000u32 && (0u16 as u32) & 0xF000u32
                != 0xA000u32) by (bit_vector);
        }
        let mut ri: u32 = 3;
        while ri <= 10
            invariant
                3 <= ri <= 11,
                self.wf(),
                self.sb == old(self).sb,
                self.sb.inodes_count >= 11,
                self.flags == old(self).flags,
                self.block_bitmap == old(self).block_bitmap,
                self.inodes@ == old(self).inodes@,
                self.data@ == old(self).data@,
                self.channel.data@ == old(self).channel.data@,
                forall|x: int| 3 <= x < ri ==> #[trigger] self.ino_allocated(x),
                forall|x: int|
                    1 <= x <= old(self).sb.inodes_count && !(3 <= x < ri)
                        ==> #[trigger] self.ino_allocated(x) == old(self).ino_allocated(x),
                (0u16 as u32) & 0xF000u32 != 0x4000u32 && (0u16 as u32) & 0xF000u32 != 0xA000u32,
            decreases 11 - ri,
        {
            proof {
                assert(old(self).inode_at(ri as int).blocks@.len() == 0);
                assert(old(self).inode_at(ri as int).entries@.len() == 0);
                assert(old(self).inode_at(ri as int).symlink_target@.len() == 0);
                assert(old(self).inode_at(ri as int).mode == 0);
                assert(old(self).inode_at(ri as int).size == 0);
                assert(self.inode_at(ri as int) == old(self).inode_at(ri as int));
                assert(!self.inode_at(ri as int).spec_is_dir() && !self.inode_at(
                    ri as int,
                ).spec_is_symlink());
            }
            let ghost prev = *self;
            self.reserve_ino(ri);
            proof {
                assert forall|x: int| 3 <= x < ri + 1 implies self.ino_allocated(x) by {
                    if x < ri {
                        assert(prev.ino_allocated(x));
                    }
                }
                assert forall|x: int|
                    1 <= x <= old(self).sb.inodes_count && !(3 <= x < ri + 1) implies self
                    .ino_allocated(x) == old(self).ino_allocated(x) by {
                    assert(prev.ino_allocated(x) == old(self).ino_allocated(x));
                }
            }
            ri = ri + 1;
        }
    }

    /// Build a fresh filesystem of `size_bytes`: the superblock with
    /// the computed inode ratio and the extent/64-bit feature flags,
    /// the group tables, the root and `lost+found` directories, the
    /// reserved inode range, the bad-blocks inode, and a first flush
    /// of the image bytes.
    #[verifier::loop_isolation(false)]
    #[verifier::rlimit(100)]
    pub fn create(size_bytes: u64) -> (r: Result<ExtFilesystem, ExtReport>)
        ensures
            match r {
                Ok(fs) => {
                    &&& fs.wf()
                    &&& fs.sb.blocks_count == size_bytes / 1024
                    &&& fs.sb.block_size == 1024
                    &&& fs.sb.feature_incompat == crate::geometry::FEATURE_INCOMPAT_EXTENTS
                        | crate::geometry::FEATURE_INCOMPAT_64BIT
                    &&& fs.sb.feature_ro_compat == crate::geometry::FEATURE_RO_COMPAT_LARGE_FILE
                        | crate::geometry::FEATURE_RO_COMPAT_HUGE_FILE
                        | crate::geometry::FEATURE_RO_COMPAT_DIR_NLINK
                    &&& fs.channel.data@.len() == (size_bytes / 1024) * 1024
                    &&& fs.ino_allocated(crate::EXT2_ROOT_INO as int)
                    &&& fs.inode_at(crate::EXT2_ROOT_INO as int).spec_is_dir()
                    &&& fs.ino_allocated(crate::EXT2_LPF_INO as int)
                    &&& fs.inode_at(crate::EXT2_LPF_INO as int).spec_is_dir()
                    &&& fs.inode_at(crate::EXT2_ROOT_INO as int).entries@.len() == 3
                    &&& fs.inode_at(crate::EXT2_ROOT_INO as int).entries@.last().inode
                        == crate::EXT2_LPF_INO
                    &&& forall|i: int| 1 <= i <= 10 ==> fs.ino_allocated(i)
                },
                Err(e) => ({
                    let bc = size_bytes as int / 1024;
                    if bc < 64 {
                        e == ExtReport::Message(ExtEtMessage::TooSmall)
                    } else if bc > EXT2_MAX_BLOCKS {
                        e == ExtReport::Errno(crate::messages::ExtError::EFBIG)
                    } else {
                        let gcnt = ((bc - 1) + 8191) / 8192;
                        let ipg0 = ((((size_bytes as int / 8192) + gcnt - 1) / gcnt + 7) / 8) * 8;
                        let ipg = if ipg0 < 16 {
                            16int
                        } else if ipg0 > 8192 {
                            8192int
                        } else {
                            ipg0
                        };
                        let meta = 3 + ((gcnt * 64) + 1023) / 1024 + ipg / 8;
                        if meta >= 8192 || bc < 1 + (gcnt - 1) * 8192 + meta + 3 {
                            e == ExtReport::Message(ExtEtMessage::TooSmall)
                        } else if !(11 <= ipg * gcnt <= 0x200000) {
                            e == ExtReport::Message(ExtEtMessage::TooManyInodes)
                        } else {
                            false
                        }
                    }
                }),
            },
    {
        let block_size: u64 = 1024;
        let inode_ratio: u64 = 8192;
        let bc: u64 = size_bytes / block_size;
        if bc < 64 {
            return Err(ExtReport::Message(ExtEtMessage::TooSmall));
        }
        if bc > EXT2_MAX_BLOCKS {
            return Err(ExtReport::Errno(crate::messages::ExtError::EFBIG));
        }
        let gcnt: u64 = ((bc - 1) + 8191) / 8192;
        let ic0: u64 = size_bytes / inode_ratio;
        let ipg1: u64 = (ic0 + gcnt - 1) / gcnt;
        let ipg2: u64 = ((ipg1 + 7) / 8) * 8;
        let ipg: u64 = if ipg2 < 16 {
            16
        } else if ipg2 > 8192 {
            8192
        } else {
            ipg2
        };
        proof {
            assert(gcnt >= 1);
            assert(gcnt <= 257);
            assert(ipg % 8 == 0) by (nonlinear_arith)
                requires
                    ipg == 16 || ipg == 8192 || ipg == ((ipg1 + 7) / 8) * 8,
            ;
            assert(ipg * gcnt <= 8192 * 257) by (nonlinear_arith)
                requires
                    ipg <= 8192,
                    gcnt <= 257,
            ;
        }
        let inodes_count: u64 = ipg * gcnt;
        let gdt: u64 = ((gcnt * 64) + 1023) / 1024;
        let itable: u64 = ipg / 8;
        let meta: u64 = 3 + gdt + itable;
        proof {
            assert(gdt <= 17) by (nonlinear_arith)
                requires
                    gdt == ((gcnt * 64) + 1023) / 1024,
                    1 <= gcnt <= 257,
            ;
            assert(itable <= 1024) by (nonlinear_arith)
                requires
                    itable == ipg / 8,
                    ipg <= 8192,
            ;
            assert(meta <= 1044);
        }
        if meta >= 8192 {
            return Err(ExtReport::Message(ExtEtMessage::TooSmall));
        }
        if bc < 1 + (gcnt - 1) * 8192 + meta + 3 {
            return Err(ExtReport::Message(ExtEtMessage::TooSmall));
        }
        if !(inodes_count >= 11 && inodes_count <= 0x200000) {
            return Err(ExtReport::Message(ExtEtMessage::TooManyInodes));
        }
        let uuid = crate::host::fresh_volume_uuid();
        let mut volume_name: Vec<u8> = Vec::new();
        volume_name.push(0x66u8);  // f
        volume_name.push(0x6Cu8);  // l
        volume_name.push(0x61u8);  // a
        volume_name.push(0x69u8);  // i
        volume_name.push(0x6Cu8);  // l
        let mut vpad: usize = 5;
        while vpad < 16
            invariant
                5 <= vpad <= 16,
                volume_name@.len() == vpad,
            decreases 16 - vpad,
        {
            volume_name.push(0u8);
            vpad = vpad + 1;
        }
        let sb = Superblock {
            inodes_count: inodes_count as u32,
            blocks_count: bc,
            r_blocks_count: 5,
            first_data_block: 1,
            block_size: 1024,
            blocks_per_group: 8192,
            inodes_per_group: ipg as u32,
            first_ino: 11,
            inode_size: 128,
            desc_size: 64,
            magic: 0xEF53,
            state: 1,
            errors: 0,
            rev_level: 1,
            minor_rev_level: 0,
            creator_os: 0,
            feature_compat: 0,
            feature_incompat: crate::geometry::FEATURE_INCOMPAT_EXTENTS
                | crate::geometry::FEATURE_INCOMPAT_64BIT,
            feature_ro_compat: crate::geometry::FEATURE_RO_COMPAT_LARGE_FILE
                | crate::geometry::FEATURE_RO_COMPAT_HUGE_FILE
                | crate::geometry::FEATURE_RO_COMPAT_DIR_NLINK,
            checksum_type: 1,
            max_mnt_count: 1,
            mnt_count: 0,
            checkinterval: 0,
            kbytes_written: 1,
            overhead_clusters: 0,
            uuid,
            volume_name,
            group_count: gcnt as u32,
            gdt_blocks: gdt as u32,
            itable_blocks: itable as u32,
            meta_per_group: meta as u32,
        };
        // Allocation bitmaps: the boot block and every metadata block
        // start out in use.
        let mut bbits: Vec<bool> = Vec::new();
        let mut overhead: u32 = 0;
        let mut b: u64 = 0;
        while b < bc
            invariant
                b <= bc,
                bbits@.len() == b,
                overhead <= b,
                forall|x: int| 0 <= x < b ==> #[trigger] bbits@[x] == sb.is_metadata_block(x),
            decreases bc - b,
        {
            let used = sb.is_metadata_block_exec(b);
            bbits.push(used);
            if used && b >= 1 {
                overhead = overhead + 1;
            }
            b = b + 1;
        }
        let mut ibits: Vec<bool> = Vec::new();
        let mut i: u64 = 0;
        while i < inodes_count
            invariant
                i <= inodes_count,
                ibits@.len() == i,
                forall|x: int| 0 <= x < i ==> !ibits@[x],
            decreases inodes_count - i,
        {
            ibits.push(false);
            i = i + 1;
        }
        let inodes = zeroed_records(inodes_count);
        let mut data: Vec<Vec<u8>> = Vec::new();
        let mut b2: u64 = 0;
        while b2 < bc
            invariant
                b2 <= bc,
                data@.len() == b2,
            decreases bc - b2,
        {
            data.push(Vec::new());
            b2 = b2 + 1;
        }
        let n: usize = (bc as usize) * 1024;
        let channel = crate::io::IoChannel {
            data: vec![0u8; n],
            block_size: 1024,
            align: 0,
            flags: 0,
            refcount: 1,
            bytes_read: 0,
            bytes_written: 0,
        };
        let mut sb2 = sb;
        sb2.overhead_clusters = overhead;
        let mut fs = ExtFilesystem {
            sb: sb2,
            flags: 0,
            inode_bitmap: crate::inode::ExtInodeBitmap {
                magic: crate::MAGIC_INODE_BITMAP64,
                bits: ibits,
            },
            block_bitmap: crate::block::ExtBlockBitmap {
                magic: crate::MAGIC_BLOCK_BITMAP64,
                bits: bbits,
            },
            inodes,
            data,
            channel,
        };
        proof {
            // The freshly assembled session is well formed.
            assert(fs.sb.wf()) by {
                assert((inodes_count as u32) as int == ((ipg as u32) as int) * ((gcnt as u32)
                    as int)) by (nonlinear_arith)
                    requires
                        inodes_count == ipg * gcnt,
                        ipg <= 8192,
                        gcnt <= 257,
                        inodes_count <= 0x200000,
                ;
            }
            assert forall|i: int|
                1 <= i <= fs.sb.inodes_count && #[trigger] fs.ino_allocated(i) implies fs.rec_wf(
                fs.inode_at(i),
            ) by {
                assert(!fs.inode_bitmap.bits@[i - 1]);
            }
            assert forall|i1: int, i2: int|
                1 <= i1 <= fs.sb.inodes_count && 1 <= i2 <= fs.sb.inodes_count && i1 != i2
                    && #[trigger] fs.ino_allocated(i1) && #[trigger] fs.ino_allocated(
                    i2,
                ) implies crate::session::seqs_disjoint(
                fs.inode_at(i1).blocks@,
                fs.inode_at(i2).blocks@,
            ) by {
                assert(!fs.inode_bitmap.bits@[i1 - 1]);
            }
            assert forall|b3: int|
                0 <= b3 < fs.sb.blocks_count && fs.sb.is_metadata_block(b3) implies #[trigger] fs
                .block_bitmap.bits@[b3] by {
                assert(fs.block_bitmap.bits@[b3] == sb.is_metadata_block(b3));
            }
            assert(fs.wf());
        }
        if !fs.check_consistency() {
            proof {
                assert(false);
            }
            return Err(ExtReport::Message(ExtEtMessage::FilsysCorrupted));
        }
        let ghost fs0 = fs;
        // Three data blocks sit past the last group's metadata head:
        // free room for the two directories about to be built.
        let ghost w1: int = 1 + (gcnt - 1) * 8192 + meta;
        proof {
            assert(!fs.ino_allocated(crate::EXT2_ROOT_INO as int));
            assert(((gcnt - 1) * 8192 + meta) % 8192 == meta) by (nonlinear_arith)
                requires
                    0 <= meta < 8192,
                    gcnt >= 1,
            ;
            assert((((gcnt - 1) * 8192 + meta) + 1) % 8192 == meta + 1) by (nonlinear_arith)
                requires
                    0 <= meta + 1 < 8192,
                    gcnt >= 1,
            ;
            assert((((gcnt - 1) * 8192 + meta) + 2) % 8192 == meta + 2) by (nonlinear_arith)
                requires
                    0 <= meta + 2 < 8192,
                    gcnt >= 1,
            ;
            assert(1 <= w1 && w1 + 2 < fs0.sb.blocks_count);
            assert(fs0.block_bitmap.bits@[w1] == sb.is_metadata_block(w1));
            assert(fs0.block_bitmap.bits@[w1 + 1] == sb.is_metadata_block(w1 + 1));
            assert(fs0.block_bitmap.bits@[w1 + 2] == sb.is_metadata_block(w1 + 2));
            assert(fs0.block_free(w1) && fs0.block_free(w1 + 1) && fs0.block_free(w1 + 2));
        }
        // Root directory, under the fixed root inode number.
        match fs.mkdir_raw(crate::EXT2_ROOT_INO, crate::EXT2_ROOT_INO, None) {
            Ok(_) => (),
            Err(e) => {
                proof {
                    // A fixed number, no linking, and free blocks:
                    // every failure condition is refuted.
                    assert(false);
                }
                return Err(e);
            },
        }
        let ghost fs1 = fs;
        // The lost+found directory takes the first ordinary inode.
        let mut lpf_name: Vec<u8> = Vec::new();
        lpf_name.push(0x6Cu8);  // l
        lpf_name.push(0x6Fu8);  // o
        lpf_name.push(0x73u8);  // s
        lpf_name.push(0x74u8);  // t
        lpf_name.push(0x2Bu8);  // +
        lpf_name.push(0x66u8);  // f
        lpf_name.push(0x6Fu8);  // o
        lpf_name.push(0x75u8);  // u
        lpf_name.push(0x6Eu8);  // n
        lpf_name.push(0x64u8);  // d
        proof {
            // Before the second directory: inode eleven is free, at
            // least two data blocks are free, and the root's two
            // entries leave packed room for one more.
            assert(!fs1.ino_allocated(11)) by {
                assert(fs1.inode_bitmap.bits@ == fs0.inode_bitmap.bits@.update(
                    crate::EXT2_ROOT_INO - 1,
                    true,
                ));
                assert(!fs0.inode_bitmap.bits@[10]);
            }
            let bb = choose|bb: int|
                1 <= bb < fs0.sb.blocks_count && fs0.block_free(bb) && fs1.block_bitmap.bits@
                    == fs0.block_bitmap.bits@.update(bb, true);
            assert forall|x1: int, x2: int|
                1 <= x1 < fs1.sb.blocks_count && 1 <= x2 < fs1.sb.blocks_count
                    && fs1.block_free(x1) && fs1.block_free(x2) && ({
                    ||| x1 == w1 && x2 == w1 + 1
                    ||| x1 == w1 && x2 == w1 + 2
                    ||| x1 == w1 + 1 && x2 == w1 + 2
                }) implies x1 != x2 by {}
            let es = fs1.inode_at(crate::EXT2_ROOT_INO as int).entries@;
            assert(pack_len(es) == 24 && crate::inode::spec_rec_len(10) == 20) by {
                assert(es.take(1).push(es[1]) =~= es);
                assert(Seq::<crate::inode::ExtDirEntry>::empty().push(es[0]) =~= es.take(1));
                lemma_pack_len_push(Seq::<crate::inode::ExtDirEntry>::empty(), es[0]);
                lemma_pack_len_push(es.take(1), es[1]);
            }
        }
        let lpf = match fs.mkdir_raw(crate::EXT2_ROOT_INO, 0, Some(lpf_name.as_slice())) {
            Ok(nn) => nn,
            Err(e) => {
                proof {
                    // A free inode, two free blocks, and packed room:
                    // every failure condition is refuted.
                    let bb = choose|bb: int|
                        1 <= bb < fs0.sb.blocks_count && fs0.block_free(bb)
                            && fs1.block_bitmap.bits@ == fs0.block_bitmap.bits@.update(bb, true);
                    if bb != w1 && bb != w1 + 1 {
                        assert(fs1.block_free(w1) && fs1.block_free(w1 + 1));
                    } else if bb != w1 && bb != w1 + 2 {
                        assert(fs1.block_free(w1) && fs1.block_free(w1 + 2));
                    } else {
                        assert(fs1.block_free(w1 + 1) && fs1.block_free(w1 + 2));
                    }
                    assert(false);
                }
                return Err(e);
            },
        };
        proof {
            assert(!fs1.ino_allocated(11)) by {
                assert(fs1.inode_bitmap.bits@ == fs0.inode_bitmap.bits@.update(
                    crate::EXT2_ROOT_INO - 1,
                    true,
                ));
                assert(!fs0.inode_bitmap.bits@[10]);
            }
            assert(lpf == crate::EXT2_LPF_INO) by {
                if lpf != 11 {
                    assert(fs1.ino_allocated(11));
                }
            }
        }
        // Reserve the low inode range, and the bad-blocks inode.
        let ghost glow = fs;
        proof {
            assert forall|x: int| (3 <= x <= 10 || x == 1) implies (#[trigger] glow.inode_at(
                x,
            )).blocks@.len() == 0 && glow.inode_at(x).entries@.len() == 0 && glow.inode_at(
                x,
            ).symlink_target@.len() == 0 && glow.inode_at(x).mode == 0 && glow.inode_at(x).size
                == 0 by {
                assert(fs0.sb.inodes_count >= 11);
                assert(x != crate::EXT2_ROOT_INO as int && x != crate::EXT2_LPF_INO as int);
                assert(glow.inode_at(x) == fs1.inode_at(x));
                assert(fs1.inode_at(x) == fs0.inode_at(x));
                assert(fs0.inodes@[x - 1].blocks@.len() == 0);
                assert(fs0.inodes@[x - 1].entries@.len() == 0);
                assert(fs0.inodes@[x - 1].symlink_target@.len() == 0);
                assert(fs0.inodes@[x - 1].mode == 0);
                assert(fs0.inodes@[x - 1].size == 0);
            }
            assert forall|x: int| 3 <= x <= 10 implies (#[trigger] fs.inode_at(x)).blocks@.len()
                == 0 && fs.inode_at(x).entries@.len() == 0 && fs.inode_at(x).symlink_target@.len()
                == 0 && fs.inode_at(x).mode == 0 && fs.inode_at(x).size == 0 by {
                assert(glow.inode_at(x).blocks@.len() == 0);
            }
        }
        fs.reserve_low_range();
        proof {
            assert((0u16 as u32) & 0xF000u32 != 0x4000u32 && (0u16 as u32) & 0xF000u32
                != 0xA000u32) by (bit_vector);
            assert(fs.inode_at(crate::EXT2_ROOT_INO as int) == glow.inode_at(
                crate::EXT2_ROOT_INO as int,
            ));
            assert(fs.inode_at(crate::EXT2_LPF_INO as int) == glow.inode_at(
                crate::EXT2_LPF_INO as int,
            ));
            assert(glow.sb.inodes_count >= 11);
            assert(fs.ino_allocated(crate::EXT2_ROOT_INO as int) == glow.ino_allocated(
                crate::EXT2_ROOT_INO as int,
            ));
            assert(fs.ino_allocated(crate::EXT2_LPF_INO as int) == glow.ino_allocated(
                crate::EXT2_LPF_INO as int,
            ));
            assert(fs.inode_at(1int) == glow.inode_at(1int));
            assert(glow.inode_at(1int).blocks@.len() == 0 && glow.inode_at(1int).entries@.len()
                == 0 && glow.inode_at(1int).symlink_target@.len() == 0 && glow.inode_at(1int).mode
                == 0 && glow.inode_at(1int).size == 0);
            assert(fs.inode_at(1int).blocks@.len() == 0);
            assert(fs.inode_at(1int).mode == 0);
            assert(!fs.inode_at(1int).spec_is_dir() && !fs.inode_at(1int).spec_is_symlink());
        }
        let ghost gafter = fs;
        fs.reserve_ino(crate::EXT2_BAD_INO);
        let ghost gr1 = fs;
        match fs.flush() {
            Ok(()) => (),
            Err(e) => {
                return Err(e);
            },
        }
        proof {
            assert(fs.inode_bitmap == gr1.inode_bitmap && fs.inodes@ == gr1.inodes@);
            assert(gr1.inodes@ == gafter.inodes@);
            assert forall|i: int| 1 <= i <= 10 implies fs.ino_allocated(i) by {
                assert(gr1.inode_bitmap.bits@ == gafter.inode_bitmap.bits@.update(0int, true));
                if i != 1 {
                    assert(gafter.ino_allocated(i));
                }
            }
            assert(fs.inode_at(crate::EXT2_ROOT_INO as int) == gafter.inode_at(
                crate::EXT2_ROOT_INO as int,
            ));
            assert(fs.inode_at(crate::EXT2_LPF_INO as int) == gafter.inode_at(
                crate::EXT2_LPF_INO as int,
            ));
            assert(fs.ino_allocated(crate::EXT2_ROOT_INO as int) && fs.ino_allocated(
                crate::EXT2_LPF_INO as int,
            ));
        }
        Ok(fs)
    }

    /// Mark an inode number allocated without giving it content; used
    /// for the reserved range of a fresh image.
    pub(crate) fn reserve_ino(&mut self, i: u32)
        requires
            old(self).wf(),
            1 <= i <= old(self).sb.inodes_count,
            old(self).inode_at(i as int).blocks@.len() == 0,
            old(self).inode_at(i as int).entries@.len() == 0,
            old(self).inode_at(i as int).symlink_target@.len() == 0,
            !old(self).inode_at(i as int).spec_is_dir(),
            !old(self).inode_at(i as int).spec_is_symlink(),
            old(self).inode_at(i as int).size == 0,
        ensures
            final(self).wf(),
            final(self).sb == old(self).sb,
            final(self).flags == old(self).flags,
            final(self).block_bitmap == old(self).block_bitmap,
            final(self).inodes@ == old(self).inodes@,
            final(self).data@ == old(self).data@,
            final(self).channel.data@ == old(self).channel.data@,
            final(self).inode_bitmap.bits@ == old(self).inode_bitmap.bits@.update(i - 1, true),
    {
        self.inode_bitmap.mark_ino(i);
        proof {
            let s0 = *old(self);
            let s1 = *self;
            let d = s1.inode_at(i as int);
            assert forall|x: int|
                1 <= x <= s1.sb.inodes_count && #[trigger] s1.ino_allocated(x) implies s1.rec_wf(
                s1.inode_at(x),
            ) by {
                if x == i {
                    assert(s1.blocks_wf(d.blocks@));
                    assert(s1.rec_wf(d));
                } else {
                    assert(s0.ino_allocated(x));
                    assert(s0.rec_wf(s0.inode_at(x)));
                    assert(s1.inode_at(x) == s0.inode_at(x));
                    assert(s1.blocks_wf(s1.inode_at(x).blocks@));
                }
            }
            assert forall|i1: int, i2: int|
                1 <= i1 <= s1.sb.inodes_count && 1 <= i2 <= s1.sb.inodes_count && i1 != i2
                    && #[trigger] s1.ino_allocated(i1) && #[trigger] s1.ino_allocated(
                    i2,
                ) implies crate::session::seqs_disjoint(
                s1.inode_at(i1).blocks@,
                s1.inode_at(i2).blocks@,
            ) by {
                if i1 == i || i2 == i {
                    assert(s1.inode_at(i as int).blocks@.len() == 0);
                } else {
                    assert(s0.ino_allocated(i1) && s0.ino_allocated(i2));
                }
            }
        }
    }

    /// The raw image bytes as last flushed, consuming the session.
    pub fn into_image(self) -> (r: Vec<u8>)
        ensures
            r@ == self.channel.data@,
    {
        self.channel.data
    }

    /// Tear the session down: write the bitmaps, synchronise the
    /// image, and hand the bytes back.
    pub fn close(self) -> (r: Result<Vec<u8>, ExtReport>)
        requires
            self.wf(),
        ensures
            r is Ok,
            r is Ok ==> r->Ok_0@.len() == self.sb.blocks_count * 1024,
    {
        let mut fs = self;
        match fs.flush() {
            Ok(()) => (),
            Err(e) => {
                return Err(e);
            },
        }
        match fs.write_bitmaps() {
            Ok(()) => (),
            Err(e) => {
                return Err(e);
            },
        }
        Ok(fs.channel.data)
    }
}



/// Read two bytes little-endian, with a bounds check.
fn rd_u16(img: &Vec<u8>, off: usize) -> (r: Result<u16, ExtReport>)
    ensures
        match r {
            Ok(v) => off + 2 <= img@.len() && v == crate::bytes::spec_le_u16_at(
                img@,
                off as int,
            ),
            Err(e) => off + 2 > img@.len() && e == ExtReport::Message(ExtEtMessage::ShortRead),
        },
{
    if off > img.len() || img.len() - off < 2 {
        return Err(ExtReport::Message(ExtEtMessage::ShortRead));
    }
    Ok(crate::bytes::get_u16(img, off))
}

/// Read four bytes little-endian, with a bounds check.
fn rd_u32(img: &Vec<u8>, off: usize) -> (r: Result<u32, ExtReport>)
    ensures
        match r {
            Ok(v) => off + 4 <= img@.len() && v == crate::bytes::spec_le_u32_at(
                img@,
                off as int,
            ),
            Err(e) => off + 4 > img@.len() && e == ExtReport::Message(ExtEtMessage::ShortRead),
        },
{
    if off > img.len() || img.len() - off < 4 {
        return Err(ExtReport::Message(ExtEtMessage::ShortRead));
    }
    Ok(crate::bytes::get_u32(img, off))
}

/// Copy a byte range, with a bounds check.
fn rd_bytes(img: &Vec<u8>, off: usize, n: usize) -> (r: Result<Vec<u8>, ExtReport>)
    ensures
        match r {
            Ok(v) => off + n <= img@.len() && v@ == img@.subrange(off as int, off + n),
            Err(e) => off + n > img@.len() && e == ExtReport::Message(ExtEtMessage::ShortRead),
        },
{
    if off > img.len() || img.len() - off < n {
        return Err(ExtReport::Message(ExtEtMessage::ShortRead));
    }
    Ok(crate::bytes::read_bytes(img, off, n))
}

/// Parse the directory entries held in one directory block.
#[verifier::loop_isolation(false)]
fn parse_dir_block(img: &Vec<u8>, block_off: usize, out: &mut Vec<crate::inode::ExtDirEntry>) -> (r:
    Result<(), ExtReport>)
    requires
        block_off + 1024 <= img@.len(),
    ensures
        r is Err ==> r->Err_0 == ExtReport::Message(ExtEtMessage::ShortRead) || r->Err_0
            == ExtReport::Message(ExtEtMessage::DirCorrupted),
{
    let ilen: usize = img.len();
    let mut off: usize = 0;
    let mut guard: usize = 0;
    while off + 8 <= 1024 && guard <= 1024
        invariant
            off <= 1024,
            guard <= 1025,
            block_off + 1024 <= ilen,
            img@.len() == ilen,
        decreases 1025 - guard,
    {
        let ino_e = match rd_u32(img, block_off + off) {
            Ok(v) => v,
            Err(e) => {
                return Err(e);
            },
        };
        let rl = match rd_u16(img, block_off + off + 4) {
            Ok(v) => v,
            Err(e) => {
                return Err(e);
            },
        } as usize;
        let nl = match rd_u16(img, block_off + off + 6) {
            Ok(v) => v,
            Err(e) => {
                return Err(e);
            },
        } as usize;
        if rl < 8 || rl % 4 != 0 || off + rl > 1024 {
            return Err(ExtReport::Message(ExtEtMessage::DirCorrupted));
        }
        if ino_e != 0 {
            if nl == 0 || nl > 255 || nl > rl - 8 {
                return Err(ExtReport::Message(ExtEtMessage::DirCorrupted));
            }
            let name = match rd_bytes(img, block_off + off + 8, nl) {
                Ok(v) => v,
                Err(e) => {
                    return Err(e);
                },
            };
            out.push(crate::inode::ExtDirEntry { inode: ino_e, name });
        }
        off = off + rl;
        guard = guard + 1;
    }
    Ok(())
}

impl ExtFilesystem {
    /// Open an existing image: parse the superblock, group layout,
    /// bitmaps, inode table, directory blocks and data, validate the
    /// whole structure with the consistency check, and create the
    /// `lost+found` directory if its inode is missing — the
    /// compatibility shim for older or hand-crafted images, not a full
    /// filesystem check.
    #[verifier::loop_isolation(false)]
    #[verifier::rlimit(100)]
    pub fn open(image: Vec<u8>, block_size: Option<u32>, flags: Option<i32>) -> (r: Result<
        ExtFilesystem,
        ExtReport,
    >)
        ensures
            match r {
                Ok(fs) => {
                    &&& fs.wf()
                    &&& fs.ino_allocated(crate::EXT2_LPF_INO as int)
                    &&& fs.ino_allocated(crate::EXT2_ROOT_INO as int)
                    &&& fs.inode_at(crate::EXT2_ROOT_INO as int).spec_is_dir()
                    &&& fs.sb.block_size == 1024
                    &&& fs.flags == (match flags {
                        Some(f) => f,
                        None => crate::EXT2_FLAG_64BITS,
                    })
                    &&& fs.channel.data@ == image@
                    &&& fs.sb.blocks_count * 1024 <= image@.len()
                },
                Err(e) => ({
                    if (match block_size {
                        Some(bs) => bs != 0 && bs != 1024,
                        None => false,
                    }) {
                        e == ExtReport::Message(ExtEtMessage::UnexpectedBlockSize)
                    } else if image@.len() < 2048 || image@.len() % 1024 != 0 {
                        e == ExtReport::Message(ExtEtMessage::BadMagic)
                    } else if crate::bytes::spec_le_u16_at(image@, 1080int) != 0xEF53 {
                        e == ExtReport::Message(ExtEtMessage::BadMagic)
                    } else if crate::bytes::spec_le_u32_at(image@, 1048int) != 0 {
                        e == ExtReport::Message(ExtEtMessage::UnexpectedBlockSize)
                    } else {
                        e == ExtReport::Message(ExtEtMessage::ShortRead) || e
                            == ExtReport::Message(ExtEtMessage::CorruptSuperblock) || e
                            == ExtReport::Message(ExtEtMessage::UnsupportedFeature) || e
                            == ExtReport::Message(ExtEtMessage::Unimplemented) || e
                            == ExtReport::Message(ExtEtMessage::FileSystemCorrupted) || e
                            == ExtReport::Message(ExtEtMessage::DirCorrupted) || e
                            == ExtReport::Message(ExtEtMessage::FilsysCorrupted) || e
                            == ExtReport::Message(ExtEtMessage::DirExists) || e
                            == ExtReport::Message(ExtEtMessage::NoDirectory) || e
                            == ExtReport::Message(ExtEtMessage::FileNotFound) || e
                            == ExtReport::Message(ExtEtMessage::SymlinkLoop) || e
                            == ExtReport::Message(ExtEtMessage::InodeAllocFail) || e
                            == ExtReport::Message(ExtEtMessage::BlockAllocFail) || e
                            == ExtReport::Message(ExtEtMessage::DirNoSpace) || e
                            == ExtReport::Errno(crate::messages::ExtError::ENAMETOOLONG) || e
                            == ExtReport::Errno(crate::messages::ExtError::EINVAL)
                    }
                }),
            },
    {
        match block_size {
            Some(bs) => {
                if bs != 0 && bs != 1024 {
                    return Err(ExtReport::Message(ExtEtMessage::UnexpectedBlockSize));
                }
            },
            None => (),
        }
        if image.len() < 2048 || image.len() % 1024 != 0 {
            return Err(ExtReport::Message(ExtEtMessage::BadMagic));
        }
        let magic = match rd_u16(&image, 1024 + 56) {
            Ok(v) => v,
            Err(e) => {
                return Err(e);
            },
        };
        if magic != 0xEF53 {
            return Err(ExtReport::Message(ExtEtMessage::BadMagic));
        }
        let log_bs = match rd_u32(&image, 1024 + 24) {
            Ok(v) => v,
            Err(e) => {
                return Err(e);
            },
        };
        if log_bs != 0 {
            return Err(ExtReport::Message(ExtEtMessage::UnexpectedBlockSize));
        }
        let inodes_count = match rd_u32(&image, 1024) {
            Ok(v) => v,
            Err(e) => {
                return Err(e);
            },
        };
        let blocks_count_lo = match rd_u32(&image, 1024 + 4) {
            Ok(v) => v,
            Err(e) => {
                return Err(e);
            },
        };
        let r_blocks = match rd_u32(&image, 1024 + 8) {
            Ok(v) => v,
            Err(e) => {
                return Err(e);
            },
        };
        let first_data_block = match rd_u32(&image, 1024 + 20) {
            Ok(v) => v,
            Err(e) => {
                return Err(e);
            },
        };
        let bpg = match rd_u32(&image, 1024 + 32) {
            Ok(v) => v,
            Err(e) => {
                return Err(e);
            },
        };
        let ipg = match rd_u32(&image, 1024 + 40) {
            Ok(v) => v,
            Err(e) => {
                return Err(e);
            },
        };
        let state = match rd_u16(&image, 1024 + 58) {
            Ok(v) => v,
            Err(e) => {
                return Err(e);
            },
        };
        let errors = match rd_u16(&image, 1024 + 60) {
            Ok(v) => v,
            Err(e) => {
                return Err(e);
            },
        };
        let minor = match rd_u16(&image, 1024 + 62) {
            Ok(v) => v,
            Err(e) => {
                return Err(e);
            },
        };
        let checkinterval = match rd_u32(&image, 1024 + 68) {
            Ok(v) => v,
            Err(e) => {
                return Err(e);
            },
        };
        let creator = match rd_u32(&image, 1024 + 72) {
            Ok(v) => v,
            Err(e) => {
                return Err(e);
            },
        };
        let rev = match rd_u32(&image, 1024 + 76) {
            Ok(v) => v,
            Err(e) => {
                return Err(e);
            },
        };
        let first_ino = match rd_u32(&image, 1024 + 84) {
            Ok(v) => v,
            Err(e) => {
                return Err(e);
            },
        };
        let inode_size = match rd_u16(&image, 1024 + 88) {
            Ok(v) => v,
            Err(e) => {
                return Err(e);
            },
        };
        let fcompat = match rd_u32(&image, 1024 + 92) {
            Ok(v) => v,
            Err(e) => {
                return Err(e);
            },
        };
        let fincompat = match rd_u32(&image, 1024 + 96) {
            Ok(v) => v,
            Err(e) => {
                return Err(e);
            },
        };
        let frocompat = match rd_u32(&image, 1024 + 100) {
            Ok(v) => v,
            Err(e) => {
                return Err(e);
            },
        };
        let uuid = match rd_bytes(&image, 1024 + 104, 16) {
            Ok(v) => v,
            Err(e) => {
                return Err(e);
            },
        };
        let volume_name = match rd_bytes(&image, 1024 + 120, 16) {
            Ok(v) => v,
            Err(e) => {
                return Err(e);
            },
        };
        let desc_size = match rd_u16(&image, 1024 + 254) {
            Ok(v) => v,
            Err(e) => {
                return Err(e);
            },
        };
        let mnt_count = match rd_u16(&image, 1024 + 52) {
            Ok(v) => v,
            Err(e) => {
                return Err(e);
            },
        };
        let max_mnt = match rd_u16(&image, 1024 + 54) {
            Ok(v) => v,
            Err(e) => {
                return Err(e);
            },
        };
        if fincompat & !(crate::geometry::FEATURE_INCOMPAT_EXTENTS
            | crate::geometry::FEATURE_INCOMPAT_64BIT) != 0 {
            return Err(ExtReport::Message(ExtEtMessage::UnsupportedFeature));
        }
        // Geometry: recompute the derived layout and validate every
        // bound before indexing anything by it.
        let bc: u64 = blocks_count_lo as u64;
        if !(bc >= 2 && bc <= EXT2_MAX_BLOCKS) {
            return Err(ExtReport::Message(ExtEtMessage::CorruptSuperblock));
        }
        if (image.len() as u64) < bc * 1024 {
            return Err(ExtReport::Message(ExtEtMessage::ShortRead));
        }
        if first_data_block != 1 || bpg != 8192 || inode_size != 128 || desc_size != 64
            || first_ino != 11 {
            return Err(ExtReport::Message(ExtEtMessage::UnsupportedFeature));
        }
        let gcnt: u64 = ((bc - 1) + 8191) / 8192;
        if !(ipg % 8 == 0 && ipg >= 8 && ipg <= 8192) {
            return Err(ExtReport::Message(ExtEtMessage::CorruptSuperblock));
        }
        let gdt: u64 = ((gcnt * 64) + 1023) / 1024;
        let itable: u64 = (ipg / 8) as u64;
        let meta: u64 = 3 + gdt + itable;
        if meta >= 8192 {
            return Err(ExtReport::Message(ExtEtMessage::CorruptSuperblock));
        }
        if bc < 1 + (gcnt - 1) * 8192 + meta + 1 {
            return Err(ExtReport::Message(ExtEtMessage::CorruptSuperblock));
        }
        proof {
            assert(gcnt <= 257);
            assert((ipg as u64) * gcnt <= 8192 * 257) by (nonlinear_arith)
                requires
                    ipg <= 8192,
                    gcnt <= 257,
            ;
        }
        if inodes_count as u64 != (ipg as u64) * gcnt {
            return Err(ExtReport::Message(ExtEtMessage::CorruptSuperblock));
        }
        if !(inodes_count >= 11 && inodes_count <= 0x200000) {
            return Err(ExtReport::Message(ExtEtMessage::CorruptSuperblock));
        }
        let sb = Superblock {
            inodes_count,
            blocks_count: bc,
            r_blocks_count: r_blocks as u64,
            first_data_block: 1,
            block_size: 1024,
            blocks_per_group: 8192,
            inodes_per_group: ipg,
            first_ino: 11,
            inode_size: 128,
            desc_size: 64,
            magic: 0xEF53,
            state,
            errors,
            rev_level: rev,
            minor_rev_level: minor,
            creator_os: creator,
            feature_compat: fcompat,
            feature_incompat: fincompat,
            feature_ro_compat: frocompat,
            checksum_type: 1,
            max_mnt_count: max_mnt,
            mnt_count,
            checkinterval,
            kbytes_written: 1,
            overhead_clusters: 0,
            uuid,
            volume_name,
            group_count: gcnt as u32,
            gdt_blocks: gdt as u32,
            itable_blocks: (ipg / 8) as u32,
            meta_per_group: meta as u32,
        };
        if sb.uuid.len() != 16 || sb.volume_name.len() != 16 {
            return Err(ExtReport::Message(ExtEtMessage::CorruptSuperblock));
        }
        // Bitmaps, from the per-group bitmap blocks.
        let mut bbits: Vec<bool> = Vec::new();
        let mut b: u64 = 0;
        while b < bc
            invariant
                b <= bc,
                bbits@.len() == b,
                bc <= EXT2_MAX_BLOCKS,
                meta == 3 + gdt + itable,
                meta < 8192,
                gcnt == ((bc - 1) + 8191) / 8192,
                gdt == ((gcnt * 64) + 1023) / 1024,
                image@.len() >= bc * 1024,
            decreases bc - b,
        {
            if b == 0 {
                bbits.push(true);
            } else {
                let g: u64 = (b - 1) / 8192;
                let off: u64 = (b - 1) % 8192;
                proof {
                    vstd::arithmetic::div_mod::lemma_fundamental_div_mod((b - 1) as int, 8192);
                    vstd::arithmetic::div_mod::lemma_mod_bound((b - 1) as int, 8192);
                    assert(g < gcnt) by (nonlinear_arith)
                        requires
                            g == ((b - 1) as int) / 8192,
                            1 <= b < bc,
                            gcnt == ((bc - 1) + 8191) / 8192,
                    ;
                    assert(1 + g * 8192 + meta <= bc) by (nonlinear_arith)
                        requires
                            g < gcnt,
                            gcnt == ((bc - 1) + 8191) / 8192,
                            bc >= 1 + (gcnt - 1) * 8192 + meta + 1,
                            meta < 8192,
                    ;
                }
                let bbm: u64 = 1 + g * 8192 + 1 + gdt;
                let byte = image[(bbm as usize) * 1024 + (off / 8) as usize];
                bbits.push(byte & (1u8 << (off % 8)) != 0);
            }
            b = b + 1;
        }
        let mut ibits: Vec<bool> = Vec::new();
        let mut i: u32 = 0;
        while i < inodes_count
            invariant
                i <= inodes_count,
                ibits@.len() == i,
                bc <= EXT2_MAX_BLOCKS,
                meta == 3 + gdt + itable,
                meta < 8192,
                ipg >= 8,
                inodes_count as u64 == (ipg as u64) * gcnt,
                gcnt == ((bc - 1) + 8191) / 8192,
                gdt == ((gcnt * 64) + 1023) / 1024,
                bc >= 1 + (gcnt - 1) * 8192 + meta + 1,
                image@.len() >= bc * 1024,
            decreases inodes_count - i,
        {
            let g: u32 = i / ipg;
            let off: u32 = i % ipg;
            proof {
                vstd::arithmetic::div_mod::lemma_fundamental_div_mod(i as int, ipg as int);
                vstd::arithmetic::div_mod::lemma_mod_bound(i as int, ipg as int);
                assert(g < gcnt) by (nonlinear_arith)
                    requires
                        g == (i as int) / (ipg as int),
                        i < inodes_count,
                        inodes_count as int == (ipg as int) * gcnt,
                        ipg >= 1,
                ;
                assert(1 + g * 8192 + meta <= bc) by (nonlinear_arith)
                    requires
                        g < gcnt,
                        gcnt == ((bc - 1) + 8191) / 8192,
                        bc >= 1 + (gcnt - 1) * 8192 + meta + 1,
                        meta < 8192,
                ;
            }
            let ibm: u64 = 1 + (g as u64) * 8192 + 2 + gdt;
            let byte = image[(ibm as usize) * 1024 + (off / 8) as usize];
            ibits.push(byte & (1u8 << (off % 8)) != 0);
            i = i + 1;
        }
        // The inode table, record by record for allocated numbers.
        let mut inodes: Vec<crate::inode::ExtInodeData> = Vec::new();
        let mut i2: u32 = 0;
        while i2 < inodes_count
            invariant
                i2 <= inodes_count,
                inodes@.len() == i2,
                ibits@.len() == inodes_count,
                bc <= EXT2_MAX_BLOCKS,
                meta == 3 + gdt + itable,
                itable == ipg / 8,
                meta < 8192,
                ipg >= 8,
                ipg <= 8192,
                inodes_count as u64 == (ipg as u64) * gcnt,
                gcnt == ((bc - 1) + 8191) / 8192,
                gdt == ((gcnt * 64) + 1023) / 1024,
                bc >= 1 + (gcnt - 1) * 8192 + meta + 1,
                image@.len() >= bc * 1024,
            decreases inodes_count - i2,
        {
            if !ibits[i2 as usize] {
                inodes.push(crate::inode::ExtInodeData::zeroed());
                i2 = i2 + 1;
                continue ;
            }
            let g: u32 = i2 / ipg;
            let off: u32 = i2 % ipg;
            proof {
                vstd::arithmetic::div_mod::lemma_fundamental_div_mod(i2 as int, ipg as int);
                vstd::arithmetic::div_mod::lemma_mod_bound(i2 as int, ipg as int);
                assert(g < gcnt) by (nonlinear_arith)
                    requires
                        g == (i2 as int) / (ipg as int),
                        i2 < inodes_count,
                        inodes_count as int == (ipg as int) * gcnt,
                        ipg >= 1,
                ;
                assert(1 + g * 8192 + meta <= bc) by (nonlinear_arith)
                    requires
                        g < gcnt,
                        gcnt == ((bc - 1) + 8191) / 8192,
                        bc >= 1 + (gcnt - 1) * 8192 + meta + 1,
                        meta < 8192,
                ;
                assert((off as int) * 128 + 128 <= (itable as int) * 1024) by (nonlinear_arith)
                    requires
                        (off as int) < (ipg as int),
                        itable as int == (ipg as int) / 8,
                        ipg % 8 == 0,
                        ipg >= 8,
                ;
            }
            let itab: u64 = 1 + (g as u64) * 8192 + 3 + gdt;
            let roff: usize = (itab as usize) * 1024 + (off as usize) * 128;
            let mode = match rd_u16(&image, roff) {
                Ok(v) => v,
                Err(e) => {
                    return Err(e);
                },
            };
            let uid = match rd_u16(&image, roff + 2) {
                Ok(v) => v,
                Err(e) => {
                    return Err(e);
                },
            };
            let size = match rd_u32(&image, roff + 4) {
                Ok(v) => v,
                Err(e) => {
                    return Err(e);
                },
            };
            let atime = match rd_u32(&image, roff + 8) {
                Ok(v) => v,
                Err(e) => {
                    return Err(e);
                },
            };
            let ctime = match rd_u32(&image, roff + 12) {
                Ok(v) => v,
                Err(e) => {
                    return Err(e);
                },
            };
            let mtime = match rd_u32(&image, roff + 16) {
                Ok(v) => v,
                Err(e) => {
                    return Err(e);
                },
            };
            let dtime = match rd_u32(&image, roff + 20) {
                Ok(v) => v,
                Err(e) => {
                    return Err(e);
                },
            };
            let gid = match rd_u16(&image, roff + 24) {
                Ok(v) => v,
                Err(e) => {
                    return Err(e);
                },
            };
            let links = match rd_u16(&image, roff + 26) {
                Ok(v) => v,
                Err(e) => {
                    return Err(e);
                },
            };
            let iblocks512 = match rd_u32(&image, roff + 28) {
                Ok(v) => v,
                Err(e) => {
                    return Err(e);
                },
            };
            let iflags = match rd_u32(&image, roff + 32) {
                Ok(v) => v,
                Err(e) => {
                    return Err(e);
                },
            };
            let generation = match rd_u32(&image, roff + 100) {
                Ok(v) => v,
                Err(e) => {
                    return Err(e);
                },
            };
            let nblocks: u32 = iblocks512 / 2;
            let is_dir = (mode as u32) & 0xF000u32 == crate::LINUX_S_IFDIR;
            let is_symlink = (mode as u32) & 0xF000u32 == crate::LINUX_S_IFLNK;
            let mut rec = crate::inode::ExtInodeData::zeroed();
            rec.mode = mode;
            rec.uid = uid;
            rec.size = size;
            rec.atime = atime;
            rec.ctime = ctime;
            rec.mtime = mtime;
            rec.dtime = dtime;
            rec.gid = gid;
            rec.links_count = links;
            rec.flags = iflags;
            rec.generation = generation;
            if is_symlink && !is_dir {
                if size >= 60 || nblocks != 0 {
                    return Err(ExtReport::Message(ExtEtMessage::Unimplemented));
                }
                rec.symlink_target = match rd_bytes(&image, roff + 40, size as usize) {
                    Ok(v) => v,
                    Err(e) => {
                        return Err(e);
                    },
                };
            } else if is_dir || iflags & EXT4_EXTENTS_FL == 0 {
                if nblocks > 12 {
                    return Err(ExtReport::Message(ExtEtMessage::FileSystemCorrupted));
                }
                let mut j: u32 = 0;
                while j < nblocks
                    invariant
                        j <= nblocks,
                        nblocks <= 12,
                        image@.len() >= bc * 1024,
                        roff + 128 <= image@.len(),
                    decreases nblocks - j,
                {
                    let p = match rd_u32(&image, roff + 40 + 4 * (j as usize)) {
                        Ok(v) => v,
                        Err(e) => {
                            return Err(e);
                        },
                    };
                    rec.blocks.push(p as u64);
                    j = j + 1;
                }
            } else {
                // A depth-zero extent tree.
                let emagic = match rd_u16(&image, roff + 40) {
                    Ok(v) => v,
                    Err(e) => {
                        return Err(e);
                    },
                };
                if emagic != 0xF30A {
                    return Err(ExtReport::Message(ExtEtMessage::FileSystemCorrupted));
                }
                let ecount = match rd_u16(&image, roff + 42) {
                    Ok(v) => v,
                    Err(e) => {
                        return Err(e);
                    },
                };
                let edepth = match rd_u16(&image, roff + 46) {
                    Ok(v) => v,
                    Err(e) => {
                        return Err(e);
                    },
                };
                if edepth != 0 {
                    return Err(ExtReport::Message(ExtEtMessage::Unimplemented));
                }
                if ecount > 4 {
                    return Err(ExtReport::Message(ExtEtMessage::FileSystemCorrupted));
                }
                let mut er: u16 = 0;
                let mut logical: u32 = 0;
                while er < ecount
                    invariant
                        er <= ecount,
                        ecount <= 4,
                        rec.blocks@.len() == logical,
                        logical <= (er as int) * 32768,
                        image@.len() >= bc * 1024,
                        roff + 128 <= image@.len(),
                    decreases ecount - er,
                {
                    let eoff: usize = roff + 52 + 12 * (er as usize);
                    let elog = match rd_u32(&image, eoff) {
                        Ok(v) => v,
                        Err(e) => {
                            return Err(e);
                        },
                    };
                    let elen = match rd_u16(&image, eoff + 4) {
                        Ok(v) => v,
                        Err(e) => {
                            return Err(e);
                        },
                    };
                    let estart = match rd_u32(&image, eoff + 8) {
                        Ok(v) => v,
                        Err(e) => {
                            return Err(e);
                        },
                    };
                    if elog != logical || elen == 0 || elen > 32768 {
                        return Err(ExtReport::Message(ExtEtMessage::Unimplemented));
                    }
                    let mut q: u16 = 0;
                    while q < elen
                        invariant
                            q <= elen,
                            elen <= 32768,
                            er < ecount,
                            ecount <= 4,
                            logical <= (er as int) * 32768,
                            rec.blocks@.len() == logical + q,
                        decreases elen - q,
                    {
                        rec.blocks.push((estart as u64) + (q as u64));
                        q = q + 1;
                    }
                    logical = logical + (elen as u32);
                    er = er + 1;
                }
            }
            inodes.push(rec);
            i2 = i2 + 1;
        }
        // Data blocks, copied wholesale.
        let mut data: Vec<Vec<u8>> = Vec::new();
        let mut b2: u64 = 0;
        while b2 < bc
            invariant
                b2 <= bc,
                data@.len() == b2,
                bc <= EXT2_MAX_BLOCKS,
                image@.len() >= bc * 1024,
            decreases bc - b2,
        {
            let blk = crate::bytes::read_bytes(&image, (b2 as usize) * 1024, 1024);
            data.push(blk);
            b2 = b2 + 1;
        }
        // Directory payloads, parsed from the directory blocks.
        let count = inodes_count;
        let mut di: u32 = 0;
        while di < count
            invariant
                di <= count,
                inodes@.len() == count,
                ibits@.len() == count,
                bc <= EXT2_MAX_BLOCKS,
                image@.len() >= bc * 1024,
            decreases count - di,
        {
            let use_dir = ibits[di as usize] && (inodes[di as usize].mode as u32)
                & 0xF000u32 == crate::LINUX_S_IFDIR;
            if use_dir {
                let nb = inodes[di as usize].blocks.len();
                let mut entries: Vec<crate::inode::ExtDirEntry> = Vec::new();
                let mut bi: usize = 0;
                while bi < nb
                    invariant
                        bi <= nb,
                        inodes@.len() == count,
                        di < count,
                        nb == inodes@[di as int].blocks@.len(),
                        bc <= EXT2_MAX_BLOCKS,
                        image@.len() >= bc * 1024,
                    decreases nb - bi,
                {
                    let blkno = inodes[di as usize].blocks[bi];
                    if !(blkno >= 1 && blkno < bc) {
                        return Err(ExtReport::Message(ExtEtMessage::DirCorrupted));
                    }
                    proof {
                        lemma_mul_inequality(blkno as int + 1, bc as int, 1024);
                    }
                    match parse_dir_block(&image, (blkno as usize) * 1024, &mut entries) {
                        Ok(()) => (),
                        Err(e) => {
                            return Err(e);
                        },
                    }
                    bi = bi + 1;
                }
                let mut rec = crate::session::vec_replace(
                    &mut inodes,
                    di as usize,
                    crate::inode::ExtInodeData::zeroed(),
                );
                rec.entries = entries;
                let _ = crate::session::vec_replace(&mut inodes, di as usize, rec);
            }
            di = di + 1;
        }
        // Assemble and validate.
        let n_img = image.len();
        let fs = ExtFilesystem {
            sb,
            flags: match flags {
                Some(f) => f,
                None => crate::EXT2_FLAG_64BITS,
            },
            inode_bitmap: crate::inode::ExtInodeBitmap {
                magic: crate::MAGIC_INODE_BITMAP64,
                bits: ibits,
            },
            block_bitmap: crate::block::ExtBlockBitmap {
                magic: crate::MAGIC_BLOCK_BITMAP64,
                bits: bbits,
            },
            inodes,
            data,
            channel: crate::io::IoChannel {
                data: image,
                block_size: 1024,
                align: 0,
                flags: match flags {
                    Some(f) => f,
                    None => crate::EXT2_FLAG_64BITS,
                },
                refcount: 1,
                bytes_read: 0,
                bytes_written: 0,
            },
        };
        let mut fs = fs;
        if !fs.check_consistency() {
            return Err(ExtReport::Message(ExtEtMessage::FilsysCorrupted));
        }
        // The root directory must exist, or the image is no usable
        // tree at all.
        let ridx: usize = (crate::EXT2_ROOT_INO - 1) as usize;
        if !(fs.inode_bitmap.test_ino(crate::EXT2_ROOT_INO) && (fs.inodes[ridx].mode as u32)
            & 0xF000u32 == crate::LINUX_S_IFDIR) {
            return Err(ExtReport::Message(ExtEtMessage::FilsysCorrupted));
        }
        // Self-heal a missing lost+found.
        if !fs.inode_bitmap.test_ino(crate::EXT2_LPF_INO) {
            match fs.mkdir("/", "lost+found") {
                Ok(()) => (),
                Err(e) => {
                    return Err(e);
                },
            }
            if !fs.inode_bitmap.test_ino(crate::EXT2_LPF_INO) {
                return Err(ExtReport::Message(ExtEtMessage::FilsysCorrupted));
            }
        }
        Ok(fs)
    }
}


} // verus!
