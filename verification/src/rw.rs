//! File content access: reading through a file handle, writing through
//! a file handle, and the whole-file write convenience path.

use vstd::prelude::*;

use vstd::arithmetic::div_mod::lemma_fundamental_div_mod;
use vstd::arithmetic::div_mod::lemma_mod_bound;
use vstd::string::StringSliceAdditionalSpecFns;

use crate::EXT2_FILE_CREATE;
use crate::EXT2_FILE_WRITE;
use crate::EXT2_ROOT_INO;
use crate::EXT4_EXTENTS_FL;
use crate::dir::MAX_NESTED_LINKS;
use crate::dir::spec_split_path;
use crate::dir::split_path;
use crate::file::ExtFile;
use crate::file::ExtFileState;
use crate::inode::ExtInode;
use crate::inode::ExtInodeData;
use crate::messages::ExtError;
use crate::messages::ExtEtMessage;
use crate::messages::ExtReport;
use crate::session::ExtFilesystem;
use crate::session::EXT_MAX_RUN;
use crate::inode::spec_rec_len;
use crate::session::cat_blocks;
use crate::session::pack_len;
use crate::session::pack_step;
use crate::session::lemma_runs_take_mono;
use crate::session::seqs_disjoint;
use crate::session::spec_runs;
use crate::session::spec_runs_state;
use crate::session::vec_replace;
use crate::tree::spec_file_name;

verus! {

/// The concatenation of whole blocks is as long as the blocks are
/// many.
pub proof fn lemma_cat_len(data: Seq<Seq<u8>>, blocks: Seq<u64>)
    requires
        forall|j: int|
            0 <= j < blocks.len() ==> 0 <= #[trigger] blocks[j] < data.len() && data[blocks[j]
                as int].len() == 1024,
    ensures
        cat_blocks(data, blocks).len() == blocks.len() * 1024,
    decreases blocks.len(),
{
    if blocks.len() != 0 {
        let q = blocks.drop_first();
        assert forall|j: int|
            0 <= j < q.len() implies 0 <= #[trigger] q[j] < data.len() && data[q[j] as int].len()
            == 1024 by {
            assert(blocks[j + 1] == q[j]);
        }
        lemma_cat_len(data, q);
    }
}

/// Byte `k` of the concatenation comes from byte `k % 1024` of block
/// `k / 1024` of the list.
pub proof fn lemma_cat_index(data: Seq<Seq<u8>>, blocks: Seq<u64>, k: int)
    requires
        forall|j: int|
            0 <= j < blocks.len() ==> 0 <= #[trigger] blocks[j] < data.len() && data[blocks[j]
                as int].len() == 1024,
        0 <= k < blocks.len() * 1024,
    ensures
        cat_blocks(data, blocks)[k] == data[blocks[k / 1024] as int][k % 1024],
    decreases blocks.len(),
{
    lemma_cat_len(data, blocks);
    let q = blocks.drop_first();
    assert forall|j: int|
        0 <= j < q.len() implies 0 <= #[trigger] q[j] < data.len() && data[q[j] as int].len()
        == 1024 by {
        assert(blocks[j + 1] == q[j]);
    }
    if k < 1024 {
        assert(k / 1024 == 0 && k % 1024 == k);
    } else {
        lemma_cat_len(data, q);
        lemma_cat_index(data, q, k - 1024);
        assert((k - 1024) / 1024 == k / 1024 - 1 && (k - 1024) % 1024 == k % 1024) by {
            lemma_fundamental_div_mod(k, 1024);
            lemma_fundamental_div_mod(k - 1024, 1024);
            lemma_mod_bound(k, 1024);
            lemma_mod_bound(k - 1024, 1024);
        }
        assert(q[k / 1024 - 1] == blocks[k / 1024]);
    }
}

/// Blocks outside a list do not affect its concatenation.
pub proof fn lemma_cat_unchanged(d1: Seq<Seq<u8>>, d2: Seq<Seq<u8>>, blocks: Seq<u64>)
    requires
        forall|j: int|
            0 <= j < blocks.len() ==> 0 <= #[trigger] blocks[j] < d1.len() && blocks[j] < d2.len()
                && d1[blocks[j] as int] == d2[blocks[j] as int],
    ensures
        cat_blocks(d1, blocks) == cat_blocks(d2, blocks),
    decreases blocks.len(),
{
    if blocks.len() != 0 {
        let q = blocks.drop_first();
        assert forall|j: int|
            0 <= j < q.len() implies 0 <= #[trigger] q[j] < d1.len() && q[j] < d2.len() && d1[q[j]
            as int] == d2[q[j] as int] by {
            assert(blocks[j + 1] == q[j]);
        }
        lemma_cat_unchanged(d1, d2, q);
    }
}

/// Round trip between the write and read paths: on a session where a
/// whole-file write pinned inode `ino`'s content to `bytes` and its
/// size to their count — which is what a successful
/// [`ExtFilesystem::write_to_file`] ensures of the inode it links — a
/// read through a fresh handle at position zero into a buffer of that
/// count returns, in the count formula of
/// [`ExtFilesystem::read_file`]'s own contract, the full count, and
/// every byte it hands back is the written one.
pub proof fn lemma_write_read_round_trip(fs: ExtFilesystem, ino: int, bytes: Seq<u8>)
    requires
        fs.file_content(ino) == bytes,
        fs.inode_at(ino).size == bytes.len(),
    ensures
        ({
            let size = fs.inode_at(ino).size as int;
            let n: int = if 0 >= size {
                0
            } else if size - 0 < bytes.len() {
                size - 0
            } else {
                bytes.len() as int
            };
            &&& n == bytes.len()
            &&& forall|k: int| 0 <= k < n ==> fs.file_content(ino)[0 + k] == bytes[k]
        }),
{
}

/// Putting a well-formed record into a slot whose blocks nobody else
/// claims keeps the session well formed.
pub proof fn lemma_wf_put_back(sp: ExtFilesystem, s1: ExtFilesystem, ino: int, rec: ExtInodeData)
    requires
        sp.wf(),
        1 <= ino <= sp.sb.inodes_count,
        s1.sb == sp.sb,
        s1.inode_bitmap == sp.inode_bitmap,
        s1.block_bitmap == sp.block_bitmap,
        s1.data@ == sp.data@,
        s1.inodes@ == sp.inodes@.update(ino - 1, rec),
        sp.ino_allocated(ino) ==> s1.rec_wf(rec),
        forall|i: int|
            1 <= i <= sp.sb.inodes_count && i != ino && sp.ino_allocated(i) ==> seqs_disjoint(
                sp.inode_at(i).blocks@,
                rec.blocks@,
            ),
    ensures
        s1.wf(),
{
    assert forall|i: int|
        1 <= i <= s1.sb.inodes_count && #[trigger] s1.ino_allocated(i) implies s1.rec_wf(
        s1.inode_at(i),
    ) by {
        assert(sp.ino_allocated(i));
        if i != ino {
            assert(sp.rec_wf(sp.inode_at(i)));
            assert(s1.inode_at(i) == sp.inode_at(i));
        } else {
            assert(s1.inode_at(i) == rec);
        }
    }
    assert forall|i1: int, i2: int|
        1 <= i1 <= s1.sb.inodes_count && 1 <= i2 <= s1.sb.inodes_count && i1 != i2
            && #[trigger] s1.ino_allocated(i1) && #[trigger] s1.ino_allocated(
            i2,
        ) implies seqs_disjoint(s1.inode_at(i1).blocks@, s1.inode_at(i2).blocks@) by {
        assert(sp.ino_allocated(i1) && sp.ino_allocated(i2));
        if i1 == ino || i2 == ino {
            let o = if i1 == ino {
                i2
            } else {
                i1
            };
            assert(seqs_disjoint(sp.inode_at(o).blocks@, rec.blocks@));
            assert(s1.inode_at(o).blocks@ == sp.inode_at(o).blocks@);
            assert(s1.inode_at(ino).blocks@ == rec.blocks@);
            assert forall|a: int, c: int|
                0 <= a < rec.blocks@.len() && 0 <= c < sp.inode_at(o).blocks@.len() implies
                #[trigger] rec.blocks@[a] != #[trigger] sp.inode_at(o).blocks@[c] by {
                assert(sp.inode_at(o).blocks@[c] != rec.blocks@[a]);
            }
        } else {
            assert(s1.inode_at(i1).blocks@ == sp.inode_at(i1).blocks@);
            assert(s1.inode_at(i2).blocks@ == sp.inode_at(i2).blocks@);
        }
    }
}

impl ExtFilesystem {
    /// Read from the file at the handle's position into `buf`: as many
    /// bytes as the buffer holds, cut short at the file's size.  The
    /// handle's position advances by the count read; bytes of `buf`
    /// past the count keep their old values.
    #[verifier::loop_isolation(false)]
    pub fn read_file(&self, file: &mut ExtFile, buf: &mut Vec<u8>) -> (r: Result<usize, ExtReport>)
        requires
            self.wf(),
        ensures
            final(buf)@.len() == old(buf)@.len(),
            final(file).ino == old(file).ino,
            final(file).flags == old(file).flags,
            final(file).state == old(file).state,
            match r {
                Ok(n) => {
                    let ino = old(file).ino as int;
                    let size = self.inode_at(ino).size as int;
                    let pos = old(file).pos as int;
                    &&& self.ino_ok(ino)
                    &&& self.ino_allocated(ino)
                    &&& n == (if pos >= size {
                        0int
                    } else if size - pos < old(buf)@.len() {
                        size - pos
                    } else {
                        old(buf)@.len() as int
                    })
                    &&& final(file).pos == pos + n
                    &&& forall|k: int|
                        0 <= k < n ==> final(buf)@[k] == self.file_content(ino)[pos + k]
                    &&& forall|k: int| n <= k < final(buf)@.len() ==> final(buf)@[k] == old(buf)@[k]
                },
                Err(e) => {
                    &&& final(buf)@ == old(buf)@
                    &&& final(file).pos == old(file).pos
                    &&& (if !self.ino_ok(old(file).ino as int) {
                        e == ExtReport::Message(ExtEtMessage::BadInodeNumber)
                    } else {
                        e == ExtReport::Errno(ExtError::EINVAL) && !(self.ino_allocated(
                            old(file).ino as int,
                        ) && self.inode_at(old(file).ino as int).spec_is_file())
                    })
                },
            },
            self.ino_ok(old(file).ino as int) && self.ino_allocated(old(file).ino as int)
                && self.inode_at(old(file).ino as int).spec_is_file() ==> r is Ok,
    {
        let ino = file.ino;
        if ino == 0 || ino > self.sb.inodes_count {
            return Err(ExtReport::Message(ExtEtMessage::BadInodeNumber));
        }
        let idx: usize = (ino - 1) as usize;
        let allocated = self.inode_bitmap.test_ino(ino);
        let is_file = (self.inodes[idx].mode as u32) & 0xF000u32 == crate::LINUX_S_IFREG;
        if !(allocated && is_file) {
            return Err(ExtReport::Errno(ExtError::EINVAL));
        }
        proof {
            assert(self.ino_allocated(ino as int));
            assert(self.rec_wf(self.inode_at(ino as int)));
        }
        let rec = &self.inodes[idx];
        let size: u64 = rec.size as u64;
        let pos: u64 = file.pos;
        let want: u64 = buf.len() as u64;
        let avail: u64 = if pos >= size {
            0
        } else {
            size - pos
        };
        let n: usize = if avail < want {
            avail as usize
        } else {
            want as usize
        };
        let ghost dv = self.data_view();
        let ghost blocks = rec.blocks@;
        proof {
            assert forall|j: int|
                0 <= j < blocks.len() implies 0 <= #[trigger] blocks[j] < dv.len() && dv[blocks[j]
                as int].len() == 1024 by {
                assert(self.data@[blocks[j] as int]@.len() == 1024);
            }
            lemma_cat_len(dv, blocks);
        }
        let mut k: usize = 0;
        while k < n
            invariant
                k <= n,
                n != 0 ==> n as int + pos as int <= size,
                size <= blocks.len() * 1024,
                n <= buf@.len(),
                buf@.len() == old(buf)@.len(),
                forall|j: int| 0 <= j < k ==> buf@[j] == self.file_content(ino as int)[pos + j],
                forall|j: int| k <= j < buf@.len() ==> buf@[j] == old(buf)@[j],
            decreases n - k,
        {
            let off: u64 = pos + (k as u64);
            let bi: usize = (off / 1024) as usize;
            let bo: usize = (off % 1024) as usize;
            proof {
                lemma_mod_bound(off as int, 1024);
                lemma_fundamental_div_mod(off as int, 1024);
                assert(off < blocks.len() * 1024);
                assert(0 <= off as int / 1024 < blocks.len()) by (nonlinear_arith)
                    requires
                        off as int >= 0,
                        (off as int) < blocks.len() * 1024,
                ;
                lemma_cat_index(dv, blocks, off as int);
            }
            let b: u64 = rec.blocks[bi];
            let byte: u8 = self.data[b as usize][bo];
            buf.set(k, byte);
            proof {
                assert(self.file_content(ino as int)[off as int] == cat_blocks(dv, blocks)[
                off as int]);
            }
            k = k + 1;
        }
        let file_pos_new: u64 = pos + (n as u64);
        file.pos = file_pos_new;
        Ok(n)
    }

    /// Write `buf` through the handle at its position, growing the
    /// file's block list as needed.  The buffer's length is stamped as
    /// the file's size, whatever the position: this path serves the
    /// whole-file write, which always starts at zero.  The handle must
    /// carry the write flag.
    #[verifier::loop_isolation(false)]
    #[verifier::rlimit(100)]
    pub fn write_file(&mut self, file: &mut ExtFile, buf: &Vec<u8>) -> (r: Result<usize, ExtReport>)
        requires
            old(self).wf(),
        ensures
            final(self).wf(),
            final(self).sb == old(self).sb,
            final(self).inode_bitmap == old(self).inode_bitmap,
            final(file).ino == old(file).ino,
            final(file).flags == old(file).flags,
            final(file).state == old(file).state,
            match r {
                Ok(n) => {
                    let ino = old(file).ino as int;
                    &&& n == buf@.len()
                    &&& old(self).ino_ok(ino)
                    &&& old(self).ino_allocated(ino)
                    &&& old(self).inode_at(ino).spec_is_file()
                    &&& final(self).ino_allocated(ino)
                    &&& final(self).inode_at(ino).mode == old(self).inode_at(ino).mode
                    &&& final(self).inode_at(ino).size == buf@.len()
                    &&& final(file).pos == old(file).pos + buf@.len()
                    &&& (old(file).pos == 0 ==> final(self).file_content(ino) == buf@)
                    &&& forall|k: int|
                        0 <= k < buf@.len() ==> final(self).raw_content(ino)[old(file).pos + k]
                            == buf@[k]
                    &&& forall|i: int|
                        1 <= i <= old(self).sb.inodes_count && i != ino ==> final(self).inode_at(i)
                            == old(self).inode_at(i)
                },
                Err(e) => {
                    let ino = old(file).ino as int;
                    let pos = old(file).pos as int;
                    let len = buf@.len() as int;
                    let needed = (pos + len + 1023) / 1024;
                    let d0 = old(self).inode_at(ino);
                    if old(file).flags & EXT2_FILE_WRITE == 0 {
                        e == ExtReport::Message(ExtEtMessage::FileReadOnly)
                    } else if !old(self).ino_ok(ino) {
                        e == ExtReport::Message(ExtEtMessage::BadInodeNumber)
                    } else if !(old(self).ino_allocated(ino) && d0.spec_is_file()) {
                        e == ExtReport::Errno(ExtError::EINVAL)
                    } else if len > 0xFFFFFFFF || pos > 0xFFFFFFFF - len || needed > 0x200000 {
                        e == ExtReport::Message(ExtEtMessage::FileTooBig)
                    } else {
                        &&& needed > d0.blocks@.len()
                        &&& (e == ExtReport::Message(ExtEtMessage::FileTooBig) ==> (d0.flags
                            & EXT4_EXTENTS_FL == 0 && needed > 12) || d0.flags & EXT4_EXTENTS_FL
                            != 0)
                        &&& (e == ExtReport::Message(ExtEtMessage::FileTooBig) || e
                            == ExtReport::Message(ExtEtMessage::BlockAllocFail))
                    }
                },
            },
            r is Err ==> final(self).flags == old(self).flags && final(self).channel.data@ == old(
                self,
            ).channel.data@,
            r is Ok ==> final(self).flags == old(self).flags | (crate::session::EXT2_FLAG_DIRTY
                | crate::session::EXT2_FLAG_CHANGED) && final(self).channel.data@.len() == old(
                self,
            ).sb.blocks_count * 1024,
            old(file).flags & EXT2_FILE_WRITE != 0 && old(self).ino_ok(old(file).ino as int)
                && old(self).ino_allocated(old(file).ino as int) && old(self).inode_at(
                old(file).ino as int,
            ).spec_is_file() && old(file).pos + buf@.len() <= 0xFFFFFFFF && (old(file).pos
                + buf@.len() + 1023) / 1024 <= old(self).inode_at(
                old(file).ino as int,
            ).blocks@.len() && (old(file).pos + buf@.len() + 1023) / 1024 <= 0x200000 ==> r is Ok,
    {
        if file.flags & EXT2_FILE_WRITE == 0 {
            return Err(ExtReport::Message(ExtEtMessage::FileReadOnly));
        }
        let ino = file.ino;
        if ino == 0 || ino > self.sb.inodes_count {
            return Err(ExtReport::Message(ExtEtMessage::BadInodeNumber));
        }
        let idx: usize = (ino - 1) as usize;
        let allocated = self.inode_bitmap.test_ino(ino);
        let is_file = (self.inodes[idx].mode as u32) & 0xF000u32 == crate::LINUX_S_IFREG;
        if !(allocated && is_file) {
            return Err(ExtReport::Errno(ExtError::EINVAL));
        }
        let pos: u64 = file.pos;
        let len: u64 = buf.len() as u64;
        if len > 0xFFFFFFFFu64 || pos > 0xFFFFFFFFu64 - len {
            return Err(ExtReport::Message(ExtEtMessage::FileTooBig));
        }
        let end: u64 = pos + len;
        proof {
            assert(old(self).ino_allocated(ino as int));
            assert(old(self).rec_wf(old(self).inode_at(ino as int)));
        }
        // Grow the block list until it covers the end of the write.
        let z = ExtInodeData::zeroed();
        let ghost zg = z;
        let mut rec = vec_replace(&mut self.inodes, idx, z);
        let ghost d0 = old(self).inode_at(ino as int);
        proof {
            let s1 = *self;
            assert((0u16 as u32) & 0xF000u32 != 0x4000u32 && (0u16 as u32) & 0xF000u32
                != 0xA000u32) by (bit_vector);
            assert(s1.rec_wf(zg)) by {
                assert(zg.blocks@.len() == 0);
                assert(s1.blocks_wf(zg.blocks@));
                assert(!zg.spec_is_dir() && !zg.spec_is_symlink());
            }
            lemma_wf_put_back(*old(self), s1, ino as int, zg);
        }
        proof {
            assert(!d0.spec_is_dir() && !d0.spec_is_symlink());
            if d0.flags & EXT4_EXTENTS_FL != 0 {
                assert(spec_runs(d0.blocks@) <= 4);
            }
            let s1 = *self;
            assert(rec == d0);
            assert(s1.blocks_wf(rec.blocks@)) by {
                assert forall|j: int| 0 <= j < rec.blocks@.len() implies 1 <= #[trigger] rec
                    .blocks@[j] < s1.sb.blocks_count && !s1.sb.is_metadata_block(
                    rec.blocks@[j] as int,
                ) && s1.block_bitmap.bits@[rec.blocks@[j] as int] && s1.data@[rec.blocks@[j]
                    as int]@.len() == 1024 by {
                    assert(old(self).block_bitmap.bits@[rec.blocks@[j] as int]);
                }
            }
            assert forall|i: int|
                1 <= i <= s1.sb.inodes_count && i != ino && s1.ino_allocated(
                    i,
                ) implies seqs_disjoint(s1.inode_at(i).blocks@, rec.blocks@) by {
                assert(old(self).ino_allocated(i));
                assert(s1.inode_at(i).blocks@ == old(self).inode_at(i).blocks@);
                assert(seqs_disjoint(old(self).inode_at(i).blocks@, d0.blocks@));
            }
        }
        // Extent-run accounting, so that growth keeps the record's
        // depth-zero extent tree encodable.
        let extent = rec.flags & EXT4_EXTENTS_FL != 0;
        let mut rr: u32 = 0;
        let mut rc: u32 = 0;
        if extent {
            let nb0 = rec.blocks.len();
            let mut q: usize = 0;
            while q < nb0
                invariant
                    nb0 == rec.blocks@.len(),
                    q <= nb0,
                    rec.flags & EXT4_EXTENTS_FL != 0,
                    rec == d0,
                    spec_runs(rec.blocks@) <= 4,
                    forall|k: int|
                        0 <= k < nb0 ==> 1 <= #[trigger] rec.blocks@[k] < old(self).sb.blocks_count,
                    old(self).sb.blocks_count <= 0x200000,
                    rr as nat == spec_runs_state(rec.blocks@.take(q as int)).0,
                    rc as nat == spec_runs_state(rec.blocks@.take(q as int)).1,
                    rr <= 4,
                    rc <= EXT_MAX_RUN,
                decreases nb0 - q,
            {
                proof {
                    assert(rec.blocks@.take(q + 1).drop_last() =~= rec.blocks@.take(q as int));
                    assert(rec.blocks@.take(q + 1).last() == rec.blocks@[q as int]);
                    lemma_runs_take_mono(rec.blocks@, q + 1);
                }
                if q == 0 {
                    rr = 1;
                    rc = 1;
                } else if rec.blocks[q] == rec.blocks[q - 1] + 1 && rc < EXT_MAX_RUN {
                    rc = rc + 1;
                } else {
                    rr = rr + 1;
                    rc = 1;
                }
                q = q + 1;
            }
            proof {
                assert(rec.blocks@.take(nb0 as int) =~= rec.blocks@);
            }
        }
        let needed: u64 = (end + 1023) / 1024;
        if needed > 0x200000 {
            let _ = vec_replace(&mut self.inodes, idx, rec);
            proof {
                assert(self.inodes@ =~= old(self).inodes@);
                crate::image::lemma_wf_same_core(*old(self), *self);
            }
            return Err(ExtReport::Message(ExtEtMessage::FileTooBig));
        }
        while (rec.blocks.len() as u64) < needed
            invariant
                self.wf(),
                self.sb == old(self).sb,
                self.inode_bitmap == old(self).inode_bitmap,
                self.flags == old(self).flags,
                self.inodes@ == old(self).inodes@.update(ino - 1, zg),
                needed <= 0x200000,
                rec.mode == d0.mode,
                rec.flags == d0.flags,
                rec.entries@ == d0.entries@,
                rec.symlink_target@ == d0.symlink_target@,
                rec.size == d0.size,
                d0.size <= d0.blocks@.len() * 1024,
                self.blocks_wf(rec.blocks@),
                rec.blocks@.len() >= d0.blocks@.len(),
                rec.flags & EXT4_EXTENTS_FL == 0 ==> rec.blocks@.len() <= 12,
                self.channel.data@ == old(self).channel.data@,
                extent == (rec.flags & EXT4_EXTENTS_FL != 0),
                extent ==> rr as nat == spec_runs_state(rec.blocks@).0 && rc as nat
                    == spec_runs_state(rec.blocks@).1 && rr <= 4 && rc <= EXT_MAX_RUN,
                forall|i: int|
                    1 <= i <= self.sb.inodes_count && i != ino && self.ino_allocated(i)
                        ==> seqs_disjoint(self.inode_at(i).blocks@, rec.blocks@),
                forall|b: int|
                    0 <= b < old(self).block_bitmap.bits@.len() && old(self).block_bitmap.bits@[b]
                        ==> self.block_bitmap.bits@[b],
                forall|j: int|
                    0 <= j < d0.blocks@.len() ==> #[trigger] rec.blocks@[j] == d0.blocks@[j]
                        && self.data@[d0.blocks@[j] as int] == old(self).data@[d0.blocks@[j] as int],
            decreases needed - rec.blocks@.len(),
        {
            if rec.flags & EXT4_EXTENTS_FL == 0 && rec.blocks.len() >= 12 {
                // A block-mapped file cannot grow past the direct
                // pointers; restore the record untouched apart from the
                // growth so far.
                let ghost sp = *self;
                let ghost recg2 = rec;
                let _ = vec_replace(&mut self.inodes, idx, rec);
                proof {
                    let s1 = *self;
                    assert(s1.inode_at(ino as int) == recg2);
                    assert(s1.blocks_wf(recg2.blocks@));
                    assert(recg2.size <= recg2.blocks@.len() * 1024) by (nonlinear_arith)
                        requires
                            recg2.size <= d0.blocks@.len() * 1024,
                            recg2.blocks@.len() >= d0.blocks@.len(),
                    ;
                    assert(s1.rec_wf(recg2));
                    lemma_wf_put_back(sp, s1, ino as int, recg2);
                }
                return Err(ExtReport::Message(ExtEtMessage::FileTooBig));
            }
            let probe = ExtInode { num: ino, data: crate::session::copy_rec(&rec) };
            let ghost sprev = *self;
            let b = match self.new_block(&probe) {
                Ok(b) => b,
                Err(e) => {
                    let ghost recg2 = rec;
                    let _ = vec_replace(&mut self.inodes, idx, rec);
                    proof {
                        let s1 = *self;
                        assert(s1.inode_at(ino as int) == recg2);
                        assert(s1.blocks_wf(recg2.blocks@));
                        assert(recg2.size <= recg2.blocks@.len() * 1024) by (nonlinear_arith)
                            requires
                                recg2.size <= d0.blocks@.len() * 1024,
                                recg2.blocks@.len() >= d0.blocks@.len(),
                        ;
                        assert(s1.rec_wf(recg2));
                        lemma_wf_put_back(sprev, s1, ino as int, recg2);
                    }
                    return Err(e);
                },
            };
            if extent {
                let nbl = rec.blocks.len();
                let cont = nbl > 0 && b == rec.blocks[nbl - 1] + 1 && rc < EXT_MAX_RUN;
                let nr: u32 = if nbl == 0 {
                    1
                } else if cont {
                    rr
                } else {
                    rr + 1
                };
                if nr > 4 {
                    // A fifth run would not fit the depth-zero extent
                    // tree: hand the fresh block back and report.
                    self.block_bitmap.unmark_block(b);
                    proof {
                        let s2 = *self;
                        assert(s2.block_bitmap.bits@ =~= sprev.block_bitmap.bits@);
                        assert forall|i: int|
                            1 <= i <= s2.sb.inodes_count && #[trigger] s2.ino_allocated(
                                i,
                            ) implies s2.rec_wf(s2.inode_at(i)) by {
                            assert(sprev.ino_allocated(i));
                            assert(sprev.rec_wf(sprev.inode_at(i)));
                            assert(s2.inode_at(i) == sprev.inode_at(i));
                            let blks = s2.inode_at(i).blocks@;
                            assert forall|j: int|
                                0 <= j < blks.len() implies 1 <= #[trigger] blks[j]
                                < s2.sb.blocks_count && !s2.sb.is_metadata_block(blks[j] as int)
                                && s2.block_bitmap.bits@[blks[j] as int] && s2.data@[blks[j]
                                as int]@.len() == 1024 by {
                                assert(sprev.block_bitmap.bits@[blks[j] as int]);
                                assert(blks[j] != b);
                                assert(s2.data@[blks[j] as int] == sprev.data@[blks[j] as int]);
                            }
                            assert(s2.blocks_wf(blks));
                        }
                        assert forall|i1: int, i2: int|
                            1 <= i1 <= s2.sb.inodes_count && 1 <= i2 <= s2.sb.inodes_count && i1
                                != i2 && #[trigger] s2.ino_allocated(i1)
                                && #[trigger] s2.ino_allocated(i2) implies seqs_disjoint(
                            s2.inode_at(i1).blocks@,
                            s2.inode_at(i2).blocks@,
                        ) by {
                            assert(sprev.ino_allocated(i1) && sprev.ino_allocated(i2));
                            assert(s2.inode_at(i1).blocks@ == sprev.inode_at(i1).blocks@);
                            assert(s2.inode_at(i2).blocks@ == sprev.inode_at(i2).blocks@);
                        }
                        assert forall|b3: int|
                            0 <= b3 < s2.sb.blocks_count && s2.sb.is_metadata_block(
                                b3,
                            ) implies #[trigger] s2.block_bitmap.bits@[b3] by {
                            assert(sprev.block_bitmap.bits@[b3]);
                        }
                        assert(s2.wf());
                    }
                    let ghost sp2 = *self;
                    let ghost recg2 = rec;
                    let _ = vec_replace(&mut self.inodes, idx, rec);
                    proof {
                        let s1 = *self;
                        assert(s1.inode_at(ino as int) == recg2);
                        assert(s1.blocks_wf(recg2.blocks@)) by {
                            assert forall|j: int|
                                0 <= j < recg2.blocks@.len() implies 1 <= #[trigger] recg2
                                .blocks@[j] < s1.sb.blocks_count && !s1.sb.is_metadata_block(
                                recg2.blocks@[j] as int,
                            ) && s1.block_bitmap.bits@[recg2.blocks@[j] as int]
                                && s1.data@[recg2.blocks@[j] as int]@.len() == 1024 by {
                                assert(sprev.block_bitmap.bits@[recg2.blocks@[j] as int]);
                                assert(recg2.blocks@[j] != b);
                            }
                        }
                        assert(recg2.size <= recg2.blocks@.len() * 1024) by (nonlinear_arith)
                            requires
                                recg2.size <= d0.blocks@.len() * 1024,
                                recg2.blocks@.len() >= d0.blocks@.len(),
                        ;
                        assert(s1.rec_wf(recg2));
                        assert forall|i: int|
                            1 <= i <= sp2.sb.inodes_count && i != ino && sp2.ino_allocated(
                                i,
                            ) implies seqs_disjoint(sp2.inode_at(i).blocks@, recg2.blocks@) by {
                            assert(sprev.ino_allocated(i));
                            assert(sp2.inode_at(i).blocks@ == sprev.inode_at(i).blocks@);
                            assert(seqs_disjoint(sprev.inode_at(i).blocks@, recg2.blocks@));
                        }
                        lemma_wf_put_back(sp2, s1, ino as int, recg2);
                    }
                    return Err(ExtReport::Message(ExtEtMessage::FileTooBig));
                }
                proof {
                    assert(rec.blocks@.push(b).drop_last() =~= rec.blocks@);
                    assert(rec.blocks@.push(b).last() == b);
                }
                if nbl == 0 {
                    rr = 1;
                    rc = 1;
                } else if cont {
                    rc = rc + 1;
                } else {
                    rr = rr + 1;
                    rc = 1;
                }
            }
            let ghost blocks_pre = rec.blocks@;
            rec.blocks.push(b);
            proof {
                let s1 = *self;
                assert(blocks_pre == rec.blocks@.drop_last());
                assert forall|j: int| 0 <= j < rec.blocks@.len() implies 1 <= #[trigger] rec
                    .blocks@[j] < s1.sb.blocks_count && !s1.sb.is_metadata_block(
                    rec.blocks@[j] as int,
                ) && s1.block_bitmap.bits@[rec.blocks@[j] as int] && s1.data@[rec.blocks@[j]
                    as int]@.len() == 1024 by {
                    if j < rec.blocks@.len() - 1 {
                        assert(sprev.block_bitmap.bits@[rec.blocks@[j] as int]);
                        assert(rec.blocks@[j] != b);
                    }
                }
                assert forall|j1: int, j2: int| 0 <= j1 < j2 < rec.blocks@.len() implies #[trigger]
                    rec.blocks@[j1] != #[trigger] rec.blocks@[j2] by {
                    if j2 == rec.blocks@.len() - 1 {
                        assert(sprev.block_bitmap.bits@[rec.blocks@[j1] as int]);
                        assert(sprev.block_free(b as int));
                    }
                }
                assert(s1.blocks_wf(rec.blocks@));
                assert forall|i: int|
                    1 <= i <= s1.sb.inodes_count && i != ino && s1.ino_allocated(
                        i,
                    ) implies seqs_disjoint(s1.inode_at(i).blocks@, rec.blocks@) by {
                    assert(sprev.ino_allocated(i));
                    let ob = s1.inode_at(i).blocks@;
                    assert(ob == sprev.inode_at(i).blocks@);
                    assert(seqs_disjoint(ob, rec.blocks@.drop_last()));
                    assert forall|a: int, c: int|
                        0 <= a < ob.len() && 0 <= c < rec.blocks@.len() implies #[trigger] ob[a]
                        != #[trigger] rec.blocks@[c] by {
                        if c < rec.blocks@.len() - 1 {
                            assert(rec.blocks@.drop_last()[c] == rec.blocks@[c]);
                        } else {
                            assert(sprev.rec_wf(sprev.inode_at(i)));
                            assert(sprev.block_bitmap.bits@[ob[a] as int]);
                            assert(sprev.block_free(b as int));
                        }
                    }
                }
                assert forall|j: int| 0 <= j < d0.blocks@.len() implies #[trigger] rec.blocks@[j]
                    == d0.blocks@[j] && s1.data@[d0.blocks@[j] as int] == old(self).data@[d0
                    .blocks@[j] as int] by {
                    assert(blocks_pre[j] == d0.blocks@[j]);
                    assert(rec.blocks@[j] == blocks_pre[j]);
                    assert(sprev.block_bitmap.bits@[d0.blocks@[j] as int]);
                    assert(d0.blocks@[j] != b);
                    assert(sprev.data@[d0.blocks@[j] as int] == old(self).data@[d0.blocks@[j]
                        as int]);
                    assert(s1.data@[d0.blocks@[j] as int] == sprev.data@[d0.blocks@[j] as int]);
                }
            }
        }
        // Write the buffer into the covered blocks, one block at a
        // time.
        let ghost sgrown = *self;
        let mut k: u64 = 0;
        while k < len
            invariant
                self.wf(),
                self.sb == old(self).sb,
                self.inode_bitmap == old(self).inode_bitmap,
                self.block_bitmap == sgrown.block_bitmap,
                self.flags == sgrown.flags,
                self.channel.data@ == sgrown.channel.data@,
                self.inodes@ == old(self).inodes@.update(ino - 1, zg),
                k <= len,
                pos + len == end,
                end <= needed * 1024,
                needed <= 0x200000,
                rec.blocks@.len() * 1024 >= end,
                self.blocks_wf(rec.blocks@),
                rec.mode == d0.mode,
                rec.flags == d0.flags,
                rec.entries@ == d0.entries@,
                rec.symlink_target@ == d0.symlink_target@,
                rec.size == d0.size,
                forall|i: int|
                    1 <= i <= self.sb.inodes_count && i != ino && self.ino_allocated(i)
                        ==> seqs_disjoint(self.inode_at(i).blocks@, rec.blocks@),
                self.data@.len() == sgrown.data@.len(),
                forall|x: int|
                    0 <= x < self.data@.len() && !rec.blocks@.contains(x as u64) ==> self.data@[x]
                        == sgrown.data@[x],
                forall|x: int|
                    0 <= x < self.data@.len() ==> #[trigger] self.data@[x]@.len()
                        == sgrown.data@[x]@.len(),
                forall|j: int|
                    0 <= j < k ==> self.data_view()[rec.blocks@[(pos + j) / 1024] as int][(pos + j)
                        % 1024] == buf@[j],
            decreases len - k,
        {
            let off: u64 = pos + k;
            let bi: usize = (off / 1024) as usize;
            let bo: usize = (off % 1024) as usize;
            proof {
                lemma_mod_bound(off as int, 1024);
                lemma_fundamental_div_mod(off as int, 1024);
                assert(0 <= off as int / 1024 < rec.blocks@.len()) by (nonlinear_arith)
                    requires
                        off as int >= 0,
                        (off as int) < rec.blocks@.len() * 1024,
                ;
            }
            let b: u64 = rec.blocks[bi];
            let bidx: usize = b as usize;
            let ghost before = *self;
            let mut blockvec = vec_replace(&mut self.data, bidx, Vec::new());
            blockvec.set(bo, buf[k as usize]);
            let _ = vec_replace(&mut self.data, bidx, blockvec);
            proof {
                let s1 = *self;
                assert(s1.data@[b as int]@.len() == 1024);
                assert forall|x: int|
                    0 <= x < s1.data@.len() && !rec.blocks@.contains(x as u64) implies s1.data@[x]
                    == sgrown.data@[x] by {
                    assert(rec.blocks@[bi as int] == b);
                    assert(rec.blocks@.contains(b));
                    assert(x != b);
                    assert(before.data@[x] == sgrown.data@[x]);
                }
                assert forall|i: int|
                    1 <= i <= s1.sb.inodes_count && #[trigger] s1.ino_allocated(i) implies s1.rec_wf(
                    s1.inode_at(i),
                ) by {
                    assert(before.ino_allocated(i));
                    assert(before.rec_wf(before.inode_at(i)));
                    assert(s1.inode_at(i) == before.inode_at(i));
                    let blks = s1.inode_at(i).blocks@;
                    assert forall|j: int| 0 <= j < blks.len() implies 1 <= #[trigger] blks[j]
                        < s1.sb.blocks_count && !s1.sb.is_metadata_block(blks[j] as int)
                        && s1.block_bitmap.bits@[blks[j] as int] && s1.data@[blks[j]
                        as int]@.len() == 1024 by {
                        assert(before.data@[blks[j] as int]@.len() == 1024);
                        if blks[j] == b {
                        } else {
                            assert(s1.data@[blks[j] as int] == before.data@[blks[j] as int]);
                        }
                    }
                    assert(s1.blocks_wf(blks));
                }
                assert forall|i1: int, i2: int|
                    1 <= i1 <= s1.sb.inodes_count && 1 <= i2 <= s1.sb.inodes_count && i1 != i2
                        && #[trigger] s1.ino_allocated(i1) && #[trigger] s1.ino_allocated(
                        i2,
                    ) implies seqs_disjoint(s1.inode_at(i1).blocks@, s1.inode_at(i2).blocks@) by {
                    assert(before.ino_allocated(i1) && before.ino_allocated(i2));
                    assert(s1.inode_at(i1).blocks@ == before.inode_at(i1).blocks@);
                    assert(s1.inode_at(i2).blocks@ == before.inode_at(i2).blocks@);
                }
                assert forall|i: int|
                    1 <= i <= s1.sb.inodes_count && i != ino && s1.ino_allocated(
                        i,
                    ) implies seqs_disjoint(s1.inode_at(i).blocks@, rec.blocks@) by {
                    assert(before.ino_allocated(i));
                    assert(s1.inode_at(i).blocks@ == before.inode_at(i).blocks@);
                    assert(seqs_disjoint(before.inode_at(i).blocks@, rec.blocks@));
                }
                assert forall|b3: int|
                    0 <= b3 < s1.sb.blocks_count && s1.sb.is_metadata_block(b3) implies
                    #[trigger] s1.block_bitmap.bits@[b3] by {
                    assert(before.block_bitmap.bits@[b3]);
                }
                assert(s1.wf());
                assert forall|j: int|
                    0 <= j < k + 1 implies self.data_view()[rec.blocks@[(pos + j) / 1024] as int][(
                pos + j) % 1024] == buf@[j] by {
                    lemma_mod_bound(pos + j, 1024);
                    lemma_fundamental_div_mod(pos + j, 1024);
                    assert(0 <= (pos + j) / 1024 < rec.blocks@.len()) by (nonlinear_arith)
                        requires
                            pos + j >= 0,
                            pos + j < rec.blocks@.len() * 1024,
                    ;
                    let jb = rec.blocks@[(pos + j) / 1024];
                    if j == k {
                        assert(jb == b && (pos + j) % 1024 == bo);
                    } else {
                        if jb == b {
                            if (pos + j) % 1024 != bo {
                                assert(s1.data_view()[jb as int][(pos + j) % 1024]
                                    == before.data_view()[jb as int][(pos + j) % 1024]);
                            } else {
                                // Same block and same offset would mean the
                                // same byte index, impossible for j < k.
                                assert(pos + j == off) by (nonlinear_arith)
                                    requires
                                        (pos + j) / 1024 == off as int / 1024,
                                        (pos + j) % 1024 == off as int % 1024,
                                        1024 * ((pos + j) / 1024) + (pos + j) % 1024 == pos + j,
                                        1024 * (off as int / 1024) + off as int % 1024 == off,
                                ;
                                assert(false);
                            }
                        } else {
                            assert(s1.data@[jb as int] == before.data@[jb as int]);
                        }
                    }
                }
            }
            k = k + 1;
        }
        // Record the new size and store the record.
        rec.size = len as u32;
        let ghost sp = *self;
        let ghost recg = rec;
        let _ = vec_replace(&mut self.inodes, idx, rec);
        proof {
            let s1 = *self;
            let d1 = s1.inode_at(ino as int);
            assert(d1 == recg);
            assert(!d1.spec_is_dir() && !d1.spec_is_symlink()) by {
                assert(d1.mode == d0.mode);
            }
            assert(d0.entries@.len() == 0 && d0.symlink_target@.len() == 0);
            assert(d1.size as int <= end as int);
            assert(end as int <= d1.blocks@.len() * 1024);
            assert(s1.blocks_wf(recg.blocks@));
            assert(s1.rec_wf(d1));
            assert forall|i: int|
                1 <= i <= sp.sb.inodes_count && i != ino && sp.ino_allocated(
                    i,
                ) implies seqs_disjoint(sp.inode_at(i).blocks@, recg.blocks@) by {
            }
            lemma_wf_put_back(sp, s1, ino as int, recg);
            // Content: each written byte sits where the concatenation
            // reads it back.
            let dv = s1.data_view();
            let blocks = recg.blocks@;
            assert forall|j: int|
                0 <= j < blocks.len() implies 0 <= #[trigger] blocks[j] < dv.len() && dv[blocks[j]
                as int].len() == 1024 by {
                assert(s1.data@[blocks[j] as int]@.len() == 1024);
            }
            lemma_cat_len(dv, blocks);
            assert forall|k: int|
                0 <= k < len implies cat_blocks(dv, blocks)[pos + k] == buf@[k] by {
                lemma_cat_index(dv, blocks, pos + k);
            }
            assert(s1.raw_content(ino as int) == cat_blocks(dv, blocks));
            if pos == 0 {
                assert forall|j: int|
                    0 <= j < len implies cat_blocks(dv, blocks)[j] == buf@[j] by {
                    assert(cat_blocks(dv, blocks)[0 + j] == buf@[j]);
                }
                assert(s1.file_content(ino as int) =~= buf@);
            }
        }
        // The record is stored: push the state down to the image
        // bytes, as every write is followed by.
        let ghost sfin = *self;
        let _fr = self.flush();
        proof {
            assert forall|i: int|
                1 <= i <= old(self).sb.inodes_count implies self.inode_at(i) == sfin.inode_at(
                i,
            ) by {}
            assert(self.data_view() =~~= sfin.data_view());
            assert(self.raw_content(ino as int) == sfin.raw_content(ino as int));
            lemma_content_congruence(*self, sfin, ino as int);
        }
        let new_pos: u64 = pos + len;
        file.pos = new_pos;
        Ok(buf.len())
    }
}


/// File content is a function of the inode table and the data blocks
/// alone.
pub proof fn lemma_content_congruence(s1: ExtFilesystem, s2: ExtFilesystem, ino: int)
    requires
        s1.inodes@ == s2.inodes@,
        s1.data@ == s2.data@,
    ensures
        s1.file_content(ino) == s2.file_content(ino),
{
    assert(s1.data_view() =~~= s2.data_view());
    assert(s1.inode_at(ino) == s2.inode_at(ino));
}

/// Writing elsewhere on the image leaves a file's content alone, as
/// long as none of the file's blocks were touched.
pub proof fn lemma_content_preserved(s1: ExtFilesystem, s2: ExtFilesystem, ino: int)
    requires
        s1.inode_at(ino).blocks@ == s2.inode_at(ino).blocks@,
        s1.inode_at(ino).size == s2.inode_at(ino).size,
        s1.data@.len() == s2.data@.len(),
        forall|j: int|
            0 <= j < s1.inode_at(ino).blocks@.len() ==> 0 <= #[trigger] s1.inode_at(
                ino,
            ).blocks@[j] < s1.data@.len() && s1.data@[s1.inode_at(ino).blocks@[j] as int]
                == s2.data@[s1.inode_at(ino).blocks@[j] as int],
    ensures
        s1.file_content(ino) == s2.file_content(ino),
{
    let blocks = s1.inode_at(ino).blocks@;
    assert forall|j: int|
        0 <= j < blocks.len() implies 0 <= #[trigger] blocks[j] < s1.data_view().len() && blocks[j]
        < s2.data_view().len() && s1.data_view()[blocks[j] as int] == s2.data_view()[blocks[j]
        as int] by {
        assert(s1.data@[blocks[j] as int] == s2.data@[blocks[j] as int]);
    }
    lemma_cat_unchanged(s1.data_view(), s2.data_view(), blocks);
}

impl ExtFilesystem {
    /// Write a whole buffer to `path`: resolve the path's inode or
    /// allocate a fresh one, write the buffer through a created
    /// write-mode handle, force the link count to one, link the file
    /// under its parent directory, and flush.  The path's prior
    /// absence is assumed: writing over an existing linked file leaves
    /// a second directory entry behind rather than reusing the first.
    #[verifier::loop_isolation(false)]
    pub fn write_to_file(&mut self, path: &str, buf: &Vec<u8>) -> (r: Result<usize, ExtReport>)
        requires
            old(self).wf(),
            spec_file_name(path.spec_bytes()) is Some,
        ensures
            final(self).wf(),
            final(self).sb == old(self).sb,
            match r {
                Ok(n) => {
                    let pr = old(self).spec_walk(
                        EXT2_ROOT_INO,
                        spec_split_path(path.spec_bytes()).drop_last(),
                        false,
                        MAX_NESTED_LINKS as nat,
                    );
                    let nm = spec_file_name(path.spec_bytes())->0;
                    &&& n == buf@.len()
                    &&& pr is Ok
                    &&& ({
                        let pino = pr->Ok_0 as int;
                        let entries = final(self).inode_at(pino).entries@;
                        let p0 = old(self).inode_at(pino);
                        &&& old(self).ino_allocated(pino)
                        &&& p0.spec_is_dir()
                        &&& final(self).ino_allocated(pino)
                        &&& final(self).inode_at(pino).mode == p0.mode
                        &&& entries.len() == p0.entries@.len() + 1
                        &&& entries.last().name@ == nm
                        &&& crate::session::entries_eq(
                            entries.take(p0.entries@.len() as int),
                            p0.entries@,
                        )
                        &&& ({
                            let t = entries.last().inode as int;
                            &&& t != pino
                            &&& final(self).ino_allocated(t)
                            &&& final(self).inode_at(t).links_count == 1
                            &&& final(self).inode_at(t).size == buf@.len()
                            &&& final(self).file_content(t) == buf@
                            &&& final(self).inode_at(t).spec_is_file()
                            &&& forall|i: int|
                                1 <= i <= old(self).sb.inodes_count && i != pino && i != t
                                    ==> final(self).inode_at(i) == old(self).inode_at(i)
                        })
                    })
                },
                Err(e) => e == ExtReport::Message(ExtEtMessage::FileNotFound) || e
                    == ExtReport::Message(ExtEtMessage::NoDirectory) || e == ExtReport::Message(
                    ExtEtMessage::SymlinkLoop,
                ) || e == ExtReport::Errno(ExtError::EINVAL) || e == ExtReport::Errno(
                    ExtError::ENAMETOOLONG,
                ) || e == ExtReport::Message(ExtEtMessage::InodeAllocFail) || e
                    == ExtReport::Message(ExtEtMessage::BlockAllocFail) || e == ExtReport::Message(
                    ExtEtMessage::DirNoSpace,
                ) || e == ExtReport::Message(ExtEtMessage::FileTooBig) || e == ExtReport::Message(
                    ExtEtMessage::BadInodeNumber,
                ) || e == ExtReport::Message(ExtEtMessage::FileReadOnly),
            },
            ({
                let pr = old(self).spec_walk(
                    EXT2_ROOT_INO,
                    spec_split_path(path.spec_bytes()).drop_last(),
                    false,
                    MAX_NESTED_LINKS as nat,
                );
                &&& (pr is Err ==> r == Result::<usize, ExtReport>::Err(pr->Err_0) && *final(self)
                    == *old(self))
                &&& (pr is Ok && !(old(self).ino_allocated(pr->Ok_0 as int) && old(self).inode_at(
                    pr->Ok_0 as int,
                ).spec_is_dir()) ==> r == Result::<usize, ExtReport>::Err(
                    ExtReport::Message(ExtEtMessage::NoDirectory),
                ) && *final(self) == *old(self))
                &&& (r == Result::<usize, ExtReport>::Err(
                    ExtReport::Message(ExtEtMessage::InodeAllocFail),
                ) ==> forall|x: int|
                    old(self).sb.first_ino <= x <= old(self).sb.inodes_count ==> old(self).ino_allocated(x))
            }),
            // A whole-file write of a fresh, short file is owed success:
            // live parent, valid name, absent path, a free inode, a
            // free block, and room for the entry.
            ({
                let pr = old(self).spec_walk(
                    EXT2_ROOT_INO,
                    spec_split_path(path.spec_bytes()).drop_last(),
                    false,
                    MAX_NESTED_LINKS as nat,
                );
                let full = old(self).spec_walk(
                    EXT2_ROOT_INO,
                    spec_split_path(path.spec_bytes()),
                    false,
                    MAX_NESTED_LINKS as nat,
                );
                let nm = spec_file_name(path.spec_bytes())->0;
                (pr is Ok && old(self).ino_allocated(pr->Ok_0 as int) && old(self).inode_at(
                    pr->Ok_0 as int,
                ).spec_is_dir() && crate::tree::name_wf_bytes(nm) && full is Err && (exists|n: int|
                    old(self).sb.first_ino <= n <= old(self).sb.inodes_count && !old(
                        self,
                    ).ino_allocated(n)) && (exists|bf: int|
                    1 <= bf < old(self).sb.blocks_count && old(self).block_free(bf)) && pack_step(
                    pack_len(old(self).inode_at(pr->Ok_0 as int).entries@),
                    spec_rec_len(nm.len()),
                ) <= old(self).inode_at(pr->Ok_0 as int).blocks@.len() * 1024 && buf@.len()
                    <= 1024) ==> r is Ok
            }),
    {
        let (parent_comps, name) = self.split_parent_name(path);
        // Resolve the parent first, so that a missing or non-directory
        // parent fails before anything is touched.
        let ghost pcv = parent_comps.deep_view();
        let pino = match self.walk(EXT2_ROOT_INO, parent_comps, false, MAX_NESTED_LINKS) {
            Ok(n) => n,
            Err(e) => {
                proof {
                    crate::dir::lemma_walk_err_kinds(
                        *self,
                        EXT2_ROOT_INO,
                        pcv,
                        false,
                        MAX_NESTED_LINKS as nat,
                    );
                }
                return Err(e);
            },
        };
        {
            let pidx: usize = (pino - 1) as usize;
            let allocated = self.inode_bitmap.test_ino(pino);
            let is_dir = (self.inodes[pidx].mode as u32) & 0xF000u32
                == crate::LINUX_S_IFDIR;
            if !(allocated && is_dir) {
                return Err(ExtReport::Message(ExtEtMessage::NoDirectory));
            }
        }
        // Resolve the path, or allocate a fresh inode for it.
        let tino: u32 = match self.walk(
            EXT2_ROOT_INO,
            split_path(path.as_bytes()),
            false,
            MAX_NESTED_LINKS,
        ) {
            Ok(n) => n,
            Err(_) => {
                match self.new_inode(EXT2_ROOT_INO, 0) {
                    Ok(ino) => ino.num,
                    Err(e) => {
                        proof {
                            // A free inode and a free block guarantee the
                            // allocation, so this branch refutes them.
                            assert(0u16 & 0xF000u16 == 0u16) by (bit_vector);
                        }
                        return Err(e);
                    },
                }
            },
        };
        let ghost s1 = *self;
        // Write through a created write-mode handle.
        let mut fh = ExtFile {
            ino: tino,
            pos: 0,
            flags: EXT2_FILE_CREATE | EXT2_FILE_WRITE,
            state: ExtFileState::Open,
        };
        let written = match self.write_file(&mut fh, buf) {
            Ok(n) => n,
            Err(e) => {
                proof {
                    // On a fresh one-block inode a short write is owed
                    // success, so this branch refutes the conditions.
                    assert((0u16 | 0x8000u16) as u32 & 0xF000u32 == 0x8000u32) by (bit_vector);
                    let fullx = old(self).spec_walk(
                        EXT2_ROOT_INO,
                        spec_split_path(path.spec_bytes()),
                        false,
                        MAX_NESTED_LINKS as nat,
                    );
                    if fullx is Err && buf@.len() <= 1024 {
                        assert((0 + buf@.len() + 1023) as int / 1024 <= 1) by (nonlinear_arith)
                            requires
                                buf@.len() <= 1024,
                        ;
                        assert(s1.ino_allocated(tino as int));
                        assert(s1.inode_at(tino as int).mode == 0u16 | (crate::LINUX_S_IFREG
                            as u16));
                        assert(s1.inode_at(tino as int).spec_is_file());
                        assert(s1.inode_at(tino as int).blocks@.len() == 1);
                        assert(s1.ino_ok(tino as int));
                        assert((0x02i32 | 0x01i32) & 0x01i32 != 0i32) by (bit_vector);
                        assert(fh.flags & EXT2_FILE_WRITE != 0);
                        assert(false);
                    }
                }
                return Err(e);
            },
        };
        let _closed = self.close_file(&mut fh);
        // Force the link count to one and store the record.
        let ghost s2 = *self;
        let tidx: usize = (tino - 1) as usize;
        let mut rec = vec_replace(&mut self.inodes, tidx, ExtInodeData::zeroed());
        rec.links_count = 1;
        let _ = vec_replace(&mut self.inodes, tidx, rec);
        proof {
            let s3 = *self;
            assert(s3.inode_at(tino as int).blocks@ == s2.inode_at(tino as int).blocks@);
            assert(s2.ino_allocated(tino as int));
            assert(s2.rec_wf(s2.inode_at(tino as int)));
            let dp = s3.inode_at(tino as int);
            let dp0 = s2.inode_at(tino as int);
            assert(dp.entries@ == dp0.entries@ && dp.mode == dp0.mode && dp.size == dp0.size
                && dp.symlink_target@ == dp0.symlink_target@ && dp.blocks@ == dp0.blocks@
                && dp.flags == dp0.flags);
            assert(s3.rec_wf(dp));
            crate::tree::lemma_wf_replace_rec(s2, s3, tino as int);
            lemma_content_congruence(s3, s3, tino as int);
            assert(s3.file_content(tino as int) == cat_blocks(
                s3.data_view(),
                dp.blocks@,
            ).take(dp.size as int));
            assert forall|j: int|
                0 <= j < s3.inode_at(tino as int).blocks@.len() implies 0 <= #[trigger] s3
                .inode_at(tino as int).blocks@[j] < s3.data@.len() && s3.data@[s3.inode_at(
                tino as int,
            ).blocks@[j] as int] == s2.data@[s3.inode_at(tino as int).blocks@[j] as int] by {
                assert(s2.block_bitmap.bits@[s2.inode_at(tino as int).blocks@[j] as int]);
            }
            lemma_content_preserved(s3, s2, tino as int);
        }
        // Link the file under its parent directory.
        let pidx: usize = (pino - 1) as usize;
        let allocated = self.inode_bitmap.test_ino(pino);
        let is_dir = (self.inodes[pidx].mode as u32) & 0xF000u32
            == crate::LINUX_S_IFDIR;
        if !(allocated && is_dir) {
            return Err(ExtReport::Message(ExtEtMessage::NoDirectory));
        }
        if pino == tino {
            return Err(ExtReport::Errno(ExtError::EINVAL));
        }
        match crate::tree::validate_name(name.as_slice()) {
            Ok(()) => (),
            Err(e) => {
                return Err(e);
            },
        }
        let ghost s4 = *self;
        match self.dir_add_entry(pino, name.as_slice(), tino, false) {
            Ok(()) => (),
            Err(e) => {
                return Err(e);
            },
        }
        proof {
            let s5 = *self;
            assert(s5.inode_at(tino as int) == s4.inode_at(tino as int));
            assert(s4.ino_allocated(tino as int));
            assert(s4.rec_wf(s4.inode_at(tino as int)));
            assert forall|j: int|
                0 <= j < s5.inode_at(tino as int).blocks@.len() implies 0 <= #[trigger] s5
                .inode_at(tino as int).blocks@[j] < s5.data@.len() && s5.data@[s5.inode_at(
                tino as int,
            ).blocks@[j] as int] == s4.data@[s5.inode_at(tino as int).blocks@[j] as int] by {
                assert(s4.block_bitmap.bits@[s4.inode_at(tino as int).blocks@[j] as int]);
            }
            lemma_content_preserved(s5, s4, tino as int);
        }
        // Push everything down to the image bytes.
        let ghost s6 = *self;
        match self.flush() {
            Ok(()) => (),
            Err(e) => {
                return Err(e);
            },
        }
        proof {
            lemma_content_congruence(*self, s6, tino as int);
            // The only records that moved belong to the parent and the
            // target: compose the frame of each step.
            assert forall|i: int|
                1 <= i <= old(self).sb.inodes_count && i != pino && i != tino implies final(self).inode_at(i) == old(self).inode_at(i) by {
                assert(final(self).inode_at(i) == s6.inode_at(i));
                assert(s6.inode_at(i) == s4.inode_at(i));
                assert(s4.inode_at(i) == s2.inode_at(i));
                assert(s2.inode_at(i) == s1.inode_at(i));
                assert(s1.inode_at(i) == old(self).inode_at(i));
            }
            assert(s4.inode_at(pino as int) == old(self).inode_at(pino as int)) by {
                assert(s4.inode_at(pino as int) == s2.inode_at(pino as int));
                assert(s2.inode_at(pino as int) == s1.inode_at(pino as int));
                assert(s1.inode_at(pino as int) == old(self).inode_at(pino as int));
            }
            assert(final(self).inode_at(pino as int) == s6.inode_at(pino as int));
        }
        Ok(written)
    }
}


} // verus!
