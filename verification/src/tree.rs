//! Mutations of the directory tree: adding and removing entries,
//! creating directories, linking, unlinking, deleting, and creating
//! symlinks.

use vstd::prelude::*;

use vstd::string::StringSliceAdditionalSpecFns;

use crate::EXT2_ROOT_INO;
use crate::LINUX_S_IFDIR;
use crate::dir::MAX_NESTED_LINKS;
use crate::dir::lemma_lookup_append;
use crate::dir::spec_lookup_entry;
use crate::dir::spec_split_path;
use crate::dir::split_path;
use crate::host::now_epoch_secs;
use crate::inode::ExtDirEntry;
use crate::inode::ExtInode;
use crate::inode::ExtInodeData;
use crate::inode::spec_rec_len;
use crate::messages::ExtError;
use crate::messages::ExtEtMessage;
use crate::messages::ExtReport;
use crate::session::ExtFilesystem;
use crate::session::copy_u8_vec;
use crate::session::EXT_MAX_RUN;
use crate::session::dir_space;
use crate::session::entries_eq;
use crate::session::lemma_dir_space_le_pack;
use crate::session::lemma_dir_space_push;
use crate::session::lemma_pack_len_push;
use crate::session::lemma_pack_len_remove;
use crate::session::lemma_pack_len_take;
use crate::session::pack_len;
use crate::session::pack_step;
use crate::session::lemma_dir_space_remove;
use crate::session::lemma_dir_space_split;
use crate::session::seqs_disjoint;
use crate::session::vec_replace;

verus! {

/// A usable entry name: one to 255 bytes, holding neither a slash nor
/// a NUL.
pub open spec fn name_wf_bytes(name: Seq<u8>) -> bool {
    &&& 1 <= name.len() <= 255
    &&& forall|k: int| 0 <= k < name.len() ==> #[trigger] name[k] != 0x2Fu8 && name[k] != 0u8
}

/// Validate an entry name: over-long names are rejected as too long,
/// everything else malformed as an invalid argument.
#[verifier::loop_isolation(false)]
pub fn validate_name(name: &[u8]) -> (r: Result<(), ExtReport>)
    ensures
        match r {
            Ok(()) => name_wf_bytes(name@),
            Err(e) => !name_wf_bytes(name@) && (if name@.len() > 255 {
                e == ExtReport::Errno(ExtError::ENAMETOOLONG)
            } else {
                e == ExtReport::Errno(ExtError::EINVAL)
            }),
        },
{
    if name.len() > 255 {
        return Err(ExtReport::Errno(ExtError::ENAMETOOLONG));
    }
    if name.len() == 0 {
        return Err(ExtReport::Errno(ExtError::EINVAL));
    }
    let n = name.len();
    let mut k: usize = 0;
    while k < n
        invariant
            k <= n,
            name@.len() == n,
            forall|x: int| 0 <= x < k ==> #[trigger] name@[x] != 0x2Fu8 && name@[x] != 0u8,
        decreases n - k,
    {
        if name[k] == 0x2Fu8 || name[k] == 0u8 {
            return Err(ExtReport::Errno(ExtError::EINVAL));
        }
        k = k + 1;
    }
    Ok(())
}

/// Index of the first entry carrying both this name and this inode
/// number.
pub open spec fn spec_find_named(entries: Seq<ExtDirEntry>, name: Seq<u8>, ino: u32) -> Option<int>
    decreases entries.len(),
{
    if entries.len() == 0 {
        Option::<int>::None
    } else if entries[0].name@ == name && entries[0].inode == ino {
        Option::Some(0int)
    } else {
        match spec_find_named(entries.drop_first(), name, ino) {
            Option::Some(i) => Option::Some(i + 1),
            Option::None => Option::<int>::None,
        }
    }
}

/// The search may skip a prefix with no match.
pub proof fn lemma_find_named_skip(entries: Seq<ExtDirEntry>, name: Seq<u8>, ino: u32, i: int)
    requires
        0 <= i <= entries.len(),
        forall|j: int| 0 <= j < i ==> !(entries[j].name@ == name && entries[j].inode == ino),
    ensures
        spec_find_named(entries, name, ino) == (match spec_find_named(
            entries.skip(i),
            name,
            ino,
        ) {
            Option::Some(k) => Option::Some(k + i),
            Option::None => Option::<int>::None,
        }),
    decreases i,
{
    if i > 0 {
        let q = entries.drop_first();
        assert forall|j: int| 0 <= j < i - 1 implies !(q[j].name@ == name && q[j].inode
            == ino) by {
            assert(entries[j + 1] == q[j]);
        }
        lemma_find_named_skip(q, name, ino, i - 1);
        assert(q.skip(i - 1) =~= entries.skip(i));
    } else {
        assert(entries.skip(0) =~= entries);
    }
}

/// Replacing one record, without touching its block list, keeps the
/// session well formed as long as the new record is itself well
/// formed.
pub proof fn lemma_wf_replace_rec(s0: ExtFilesystem, s1: ExtFilesystem, ino: int)
    requires
        s0.wf(),
        s1.sb == s0.sb,
        s1.inode_bitmap == s0.inode_bitmap,
        s1.block_bitmap == s0.block_bitmap,
        s1.data@ == s0.data@,
        s1.inodes@.len() == s0.inodes@.len(),
        1 <= ino <= s0.sb.inodes_count,
        forall|i: int|
            1 <= i <= s0.sb.inodes_count && i != ino ==> s1.inode_at(i) == s0.inode_at(i),
        s1.inode_at(ino).blocks@ == s0.inode_at(ino).blocks@,
        s0.ino_allocated(ino) ==> s1.rec_wf(s1.inode_at(ino)),
    ensures
        s1.wf(),
{
    assert forall|i: int|
        1 <= i <= s1.sb.inodes_count && #[trigger] s1.ino_allocated(i) implies s1.rec_wf(
        s1.inode_at(i),
    ) by {
        assert(s0.ino_allocated(i));
        if i != ino {
            assert(s0.rec_wf(s0.inode_at(i)));
            assert(s1.inode_at(i) == s0.inode_at(i));
        }
    }
    assert forall|i1: int, i2: int|
        1 <= i1 <= s1.sb.inodes_count && 1 <= i2 <= s1.sb.inodes_count && i1 != i2
            && #[trigger] s1.ino_allocated(i1) && #[trigger] s1.ino_allocated(
            i2,
        ) implies seqs_disjoint(s1.inode_at(i1).blocks@, s1.inode_at(i2).blocks@) by {
        assert(s0.ino_allocated(i1) && s0.ino_allocated(i2));
        assert(s1.inode_at(i1).blocks@ == s0.inode_at(i1).blocks@);
        assert(s1.inode_at(i2).blocks@ == s0.inode_at(i2).blocks@);
    }
}

impl ExtFilesystem {
    /// The packed length of directory `dino`'s entries: what greedy
    /// block packing consumes, padding included.
    #[verifier::loop_isolation(false)]
    fn dir_pack_len(&self, dino: u32) -> (r: usize)
        requires
            self.wf(),
            self.ino_ok(dino as int),
            self.ino_allocated(dino as int),
            self.inode_at(dino as int).spec_is_dir(),
        ensures
            r == pack_len(self.inode_at(dino as int).entries@),
            r <= 12 * 1024,
    {
        proof {
            assert(self.rec_wf(self.inode_at(dino as int)));
        }
        let idx: usize = (dino - 1) as usize;
        let rec = &self.inodes[idx];
        let ne = rec.entries.len();
        let mut accp: usize = 0;
        let mut e: usize = 0;
        while e < ne
            invariant
                self.wf(),
                self.ino_ok(dino as int),
                self.ino_allocated(dino as int),
                idx == dino - 1,
                rec == &self.inodes[idx as int],
                rec.entries@.len() == ne,
                e <= ne,
                accp == pack_len(rec.entries@.take(e as int)),
                accp <= pack_len(rec.entries@),
                pack_len(rec.entries@) <= 12 * 1024,
            decreases ne - e,
        {
            proof {
                assert(self.entry_wf(rec.entries@[e as int]));
                lemma_pack_len_push(rec.entries@.take(e as int), rec.entries@[e as int]);
                assert(rec.entries@.take(e + 1) =~= rec.entries@.take(e as int).push(
                    rec.entries@[e as int],
                ));
                lemma_pack_len_take(rec.entries@, e + 1);
            }
            let rl = rec.entries[e].rec_len();
            if accp % 1024 + rl <= 1024 {
                accp = accp + rl;
            } else {
                accp = (accp / 1024 + 1) * 1024 + rl;
            }
            e = e + 1;
        }
        proof {
            assert(rec.entries@.take(ne as int) =~= rec.entries@);
        }
        accp
    }

    /// Append an entry to directory `dino`, growing the directory by
    /// one block when the packed entries no longer fit and growth is
    /// allowed.
    #[verifier::loop_isolation(false)]
    pub(crate) fn dir_add_entry(
        &mut self,
        dino: u32,
        name: &[u8],
        target: u32,
        expand: bool,
    ) -> (r: Result<(), ExtReport>)
        requires
            old(self).wf(),
            old(self).ino_ok(dino as int),
            old(self).ino_allocated(dino as int),
            old(self).inode_at(dino as int).spec_is_dir(),
            name_wf_bytes(name@),
            1 <= target <= old(self).sb.inodes_count,
        ensures
            final(self).wf(),
            final(self).sb == old(self).sb,
            final(self).flags == old(self).flags,
            final(self).inode_bitmap == old(self).inode_bitmap,
            final(self).channel.data@ == old(self).channel.data@,
            final(self).inodes@.len() == old(self).inodes@.len(),
            forall|i: int|
                1 <= i <= old(self).sb.inodes_count && i != dino ==> final(self).inode_at(i) == old(self).inode_at(i),
            forall|b: int|
                0 <= b < old(self).block_bitmap.bits@.len() && old(self).block_bitmap.bits@[b]
                    ==> final(self).block_bitmap.bits@[b],
            final(self).data@.len() == old(self).data@.len(),
            forall|x: int|
                0 <= x < old(self).data@.len() && old(self).block_bitmap.bits@[x] ==> final(self).data@[x] == old(self).data@[x],
            match r {
                Ok(()) => {
                    let d0 = old(self).inode_at(dino as int);
                    let d1 = final(self).inode_at(dino as int);
                    &&& d1.entries@.len() == d0.entries@.len() + 1
                    &&& d1.entries@.last().inode == target
                    &&& d1.entries@.last().name@ == name@
                    &&& entries_eq(d1.entries@.take(d0.entries@.len() as int), d0.entries@)
                    &&& d1.mode == d0.mode
                    &&& d1.links_count == d0.links_count
                    &&& d1.size as int >= d0.size as int
                },
                Err(e) => {
                    let d0 = old(self).inode_at(dino as int);
                    &&& final(self).inodes@ == old(self).inodes@
                    &&& final(self).block_bitmap == old(self).block_bitmap
                    &&& final(self).data@ == old(self).data@
                    &&& pack_step(pack_len(d0.entries@), spec_rec_len(name@.len()))
                        > d0.blocks@.len() * 1024
                    &&& (if !expand || d0.blocks@.len() >= 12 {
                        e == ExtReport::Message(ExtEtMessage::DirNoSpace)
                    } else {
                        e == ExtReport::Message(ExtEtMessage::BlockAllocFail) && forall|b: int|
                            1 <= b < old(self).sb.blocks_count ==> !old(self).block_free(b)
                    })
                },
            },
    {
        proof {
            assert(old(self).rec_wf(old(self).inode_at(dino as int)));
        }
        let used = self.dir_pack_len(dino);
        let rl: usize = 8 + ((name.len() + 3) / 4) * 4;
        let idx: usize = (dino - 1) as usize;
        let nblk = self.inodes[idx].blocks.len();
        let cap: usize = nblk * 1024;
        let lnew: usize = if used % 1024 + rl <= 1024 {
            used + rl
        } else {
            (used / 1024 + 1) * 1024 + rl
        };
        proof {
            crate::image::lemma_pad4(name@.len() as int);
            assert(lnew == pack_step(
                pack_len(old(self).inode_at(dino as int).entries@),
                spec_rec_len(name@.len()),
            ));
        }
        let entry = ExtDirEntry { inode: target, name: vstd::slice::slice_to_vec(name) };
        if lnew <= cap {
            let ghost s0 = *self;
            let mut rec = vec_replace(&mut self.inodes, idx, ExtInodeData::zeroed());
            rec.entries.push(entry);
            let _ = vec_replace(&mut self.inodes, idx, rec);
            proof {
                let s1 = *self;
                let d0 = s0.inode_at(dino as int);
                let d1 = s1.inode_at(dino as int);
                assert(d1.entries@ == d0.entries@.push(
                    ExtDirEntry { inode: target, name: entry.name },
                ));
                lemma_dir_space_push(d0.entries@, d1.entries@.last());
                lemma_pack_len_push(d0.entries@, d1.entries@.last());
                assert(pack_len(d1.entries@) == lnew);
                lemma_dir_space_le_pack(d1.entries@);
                assert(d1.entries@.take(d0.entries@.len() as int) =~= d0.entries@);
                assert forall|k: int| 0 <= k < d1.entries@.len() implies s1.entry_wf(
                    #[trigger] d1.entries@[k],
                ) by {
                    if k < d0.entries@.len() {
                        assert(s0.entry_wf(d0.entries@[k]));
                        assert(d1.entries@[k] == d0.entries@[k]);
                    }
                }
                assert(s1.rec_wf(d1));
                lemma_wf_replace_rec(s0, s1, dino as int);
            }
            return Ok(());
        }
        if !expand {
            return Err(ExtReport::Message(ExtEtMessage::DirNoSpace));
        }
        if nblk >= 12 {
            return Err(ExtReport::Message(ExtEtMessage::DirNoSpace));
        }
        let probe = ExtInode { num: dino, data: crate::session::copy_rec(&self.inodes[idx]) };
        let b = match self.new_block(&probe) {
            Ok(b) => b,
            Err(e) => {
                return Err(e);
            },
        };
        let ghost sa = *self;
        let mut rec = vec_replace(&mut self.inodes, idx, ExtInodeData::zeroed());
        rec.blocks.push(b);
        rec.size = rec.size + 1024;
        rec.entries.push(entry);
        let _ = vec_replace(&mut self.inodes, idx, rec);
        proof {
            let s0 = *old(self);
            let s1 = *self;
            let d0 = s0.inode_at(dino as int);
            let d1 = s1.inode_at(dino as int);
            assert(d1.blocks@ == d0.blocks@.push(b));
            assert(d1.entries@ == d0.entries@.push(ExtDirEntry { inode: target, name: entry.name }));
            lemma_dir_space_push(d0.entries@, d1.entries@.last());
            lemma_pack_len_push(d0.entries@, d1.entries@.last());
            assert(pack_len(d1.entries@) == lnew);
            lemma_dir_space_le_pack(d1.entries@);
            // One extra block always takes the appended entry in.
            assert(lnew <= (nblk + 1) * 1024) by {
                vstd::arithmetic::div_mod::lemma_fundamental_div_mod(used as int, 1024);
                vstd::arithmetic::div_mod::lemma_mod_bound(used as int, 1024);
                if !(used % 1024 + rl <= 1024) {
                    assert(used as int / 1024 <= nblk - 1) by (nonlinear_arith)
                        requires
                            used as int == 1024 * (used as int / 1024) + (used as int % 1024),
                            used as int % 1024 >= 1,
                            used <= nblk * 1024,
                    ;
                }
            }
            assert(d1.entries@.take(d0.entries@.len() as int) =~= d0.entries@);
            assert forall|i: int|
                1 <= i <= s1.sb.inodes_count && #[trigger] s1.ino_allocated(i) implies s1.rec_wf(
                s1.inode_at(i),
            ) by {
                if i == dino {
                    assert forall|k: int| 0 <= k < d1.entries@.len() implies s1.entry_wf(
                        #[trigger] d1.entries@[k],
                    ) by {
                        if k < d0.entries@.len() {
                            assert(s0.entry_wf(d0.entries@[k]));
                            assert(d1.entries@[k] == d0.entries@[k]);
                        }
                    }
                    assert forall|j: int| 0 <= j < d1.blocks@.len() implies 1 <= #[trigger] d1
                        .blocks@[j] < s1.sb.blocks_count && !s1.sb.is_metadata_block(
                        d1.blocks@[j] as int,
                    ) && s1.block_bitmap.bits@[d1.blocks@[j] as int] && s1.data@[d1.blocks@[j]
                        as int]@.len() == 1024 by {
                        if j < d0.blocks@.len() {
                            assert(s0.block_bitmap.bits@[d0.blocks@[j] as int]);
                            assert(d1.blocks@[j] == d0.blocks@[j]);
                            assert(d1.blocks@[j] != b);
                        }
                    }
                    assert forall|j1: int, j2: int| 0 <= j1 < j2 < d1.blocks@.len() implies
                        #[trigger] d1.blocks@[j1] != #[trigger] d1.blocks@[j2] by {
                        if j2 == d1.blocks@.len() - 1 {
                            assert(s0.block_bitmap.bits@[d0.blocks@[j1] as int]);
                        }
                    }
                    assert(s1.rec_wf(d1));
                } else {
                    assert(sa.ino_allocated(i));
                    assert(sa.rec_wf(sa.inode_at(i)));
                    assert(s1.inode_at(i) == sa.inode_at(i));
                    assert(s1.blocks_wf(s1.inode_at(i).blocks@));
                }
            }
            assert forall|i1: int, i2: int|
                1 <= i1 <= s1.sb.inodes_count && 1 <= i2 <= s1.sb.inodes_count && i1 != i2
                    && #[trigger] s1.ino_allocated(i1) && #[trigger] s1.ino_allocated(
                    i2,
                ) implies seqs_disjoint(s1.inode_at(i1).blocks@, s1.inode_at(i2).blocks@) by {
                if i1 == dino || i2 == dino {
                    let o = if i1 == dino {
                        i2
                    } else {
                        i1
                    };
                    assert(s0.ino_allocated(o));
                    assert(s0.rec_wf(s0.inode_at(o)));
                    let ob = s1.inode_at(o).blocks@;
                    assert(ob == s0.inode_at(o).blocks@);
                    assert(seqs_disjoint(d0.blocks@, ob));
                    assert forall|a: int, c: int|
                        0 <= a < d1.blocks@.len() && 0 <= c < ob.len() implies #[trigger] d1
                        .blocks@[a] != #[trigger] ob[c] by {
                        assert(s0.block_bitmap.bits@[ob[c] as int]);
                        if a < d0.blocks@.len() {
                            assert(d1.blocks@[a] == d0.blocks@[a]);
                        } else {
                            assert(d1.blocks@[a] == b);
                            assert(s0.block_free(b as int));
                        }
                    }
                    assert(seqs_disjoint(ob, d1.blocks@));
                } else {
                    assert(s0.ino_allocated(i1) && s0.ino_allocated(i2));
                    assert(s1.inode_at(i1).blocks@ == s0.inode_at(i1).blocks@);
                    assert(s1.inode_at(i2).blocks@ == s0.inode_at(i2).blocks@);
                }
            }
            assert forall|b3: int|
                0 <= b3 < s1.sb.blocks_count && s1.sb.is_metadata_block(b3) implies #[trigger] s1
                .block_bitmap.bits@[b3] by {
                assert(s0.block_bitmap.bits@[b3]);
            }
        }
        Ok(())
    }

    /// Remove the first entry of directory `dino` matching both the
    /// name and the inode number; only the entry goes away, nothing
    /// else of either inode moves.
    #[verifier::loop_isolation(false)]
    pub(crate) fn dir_remove_entry(&mut self, dino: u32, name: &[u8], target: u32) -> (r: Result<
        (),
        ExtReport,
    >)
        requires
            old(self).wf(),
            old(self).ino_ok(dino as int),
            old(self).ino_allocated(dino as int),
            old(self).inode_at(dino as int).spec_is_dir(),
        ensures
            final(self).wf(),
            final(self).sb == old(self).sb,
            final(self).flags == old(self).flags,
            final(self).inode_bitmap == old(self).inode_bitmap,
            final(self).block_bitmap == old(self).block_bitmap,
            final(self).data@ == old(self).data@,
            final(self).channel.data@ == old(self).channel.data@,
            final(self).inodes@.len() == old(self).inodes@.len(),
            forall|i: int|
                1 <= i <= old(self).sb.inodes_count && i != dino ==> final(self).inode_at(i) == old(self).inode_at(i),
            match r {
                Ok(()) => {
                    let d0 = old(self).inode_at(dino as int);
                    let d1 = final(self).inode_at(dino as int);
                    let idx = spec_find_named(d0.entries@, name@, target);
                    &&& idx is Some
                    &&& entries_eq(d1.entries@, d0.entries@.remove(idx->0))
                    &&& d1.mode == d0.mode
                    &&& d1.links_count == d0.links_count
                    &&& d1.size == d0.size
                    &&& d1.blocks@ == d0.blocks@
                },
                Err(e) => {
                    &&& e == ExtReport::Errno(ExtError::ENOENT)
                    &&& spec_find_named(
                        old(self).inode_at(dino as int).entries@,
                        name@,
                        target,
                    ) is None
                    &&& final(self).inodes@ == old(self).inodes@
                },
            },
    {
        proof {
            assert(old(self).rec_wf(old(self).inode_at(dino as int)));
        }
        let idx: usize = (dino - 1) as usize;
        let ne = self.inodes[idx].entries.len();
        let mut e: usize = 0;
        let mut found: usize = 0;
        let mut have: bool = false;
        while e < ne && !have
            invariant
                self.wf(),
                *self == *old(self),
                idx == dino - 1,
                self.inode_at(dino as int).entries@.len() == ne,
                e <= ne,
                !have ==> forall|j: int|
                    0 <= j < e ==> !(#[trigger] self.inode_at(dino as int).entries@[j].name@
                        == name@ && self.inode_at(dino as int).entries@[j].inode == target),
                have ==> found < ne && self.inode_at(dino as int).entries@[found as int].name@
                    == name@ && self.inode_at(dino as int).entries@[found as int].inode == target
                    && (forall|j: int|
                    0 <= j < found ==> !(#[trigger] self.inode_at(dino as int).entries@[j].name@
                        == name@ && self.inode_at(dino as int).entries@[j].inode == target)),
            decreases ne - e + (if have {
                0int
            } else {
                1int
            }),
        {
            let matches_name = crate::dir::bytes_eq(
                self.inodes[idx].entries[e].name.as_slice(),
                name,
            );
            if matches_name && self.inodes[idx].entries[e].inode == target {
                found = e;
                have = true;
            } else {
                e = e + 1;
            }
        }
        if !have {
            proof {
                lemma_find_named_skip(
                    old(self).inode_at(dino as int).entries@,
                    name@,
                    target,
                    ne as int,
                );
                assert(old(self).inode_at(dino as int).entries@.skip(ne as int).len() == 0);
            }
            return Err(ExtReport::Errno(ExtError::ENOENT));
        }
        proof {
            let entries = old(self).inode_at(dino as int).entries@;
            lemma_find_named_skip(entries, name@, target, found as int);
            assert(entries.skip(found as int)[0] == entries[found as int]);
            assert(spec_find_named(entries, name@, target) == Option::Some(found as int));
        }
        let ghost s0 = *self;
        let mut rec = vec_replace(&mut self.inodes, idx, ExtInodeData::zeroed());
        let _removed = rec.entries.remove(found);
        let _ = vec_replace(&mut self.inodes, idx, rec);
        proof {
            let s1 = *self;
            let d0 = s0.inode_at(dino as int);
            let d1 = s1.inode_at(dino as int);
            assert(d1.entries@ == d0.entries@.remove(found as int));
            assert forall|k: int| 0 <= k < d1.entries@.len() implies s1.entry_wf(
                #[trigger] d1.entries@[k],
            ) by {
                if k < found {
                    assert(d1.entries@[k] == d0.entries@[k]);
                    assert(s0.entry_wf(d0.entries@[k]));
                } else {
                    assert(d1.entries@[k] == d0.entries@[k + 1]);
                    assert(s0.entry_wf(d0.entries@[k + 1]));
                }
            }
            lemma_dir_space_remove(d0.entries@, found as int);
            lemma_pack_len_remove(d0.entries@, found as int);
            crate::session::lemma_pack_len_congruence(d1.entries@, d0.entries@.remove(found as int));
            assert(s1.rec_wf(d1));
            lemma_wf_replace_rec(s0, s1, dino as int);
        }
        Ok(())
    }

    /// The lowest free inode number at or past the first ordinary one.
    #[verifier::loop_isolation(false)]
    fn scan_free_ino(&self) -> (r: Option<u32>)
        requires
            self.wf(),
        ensures
            match r {
                Some(n) => self.sb.first_ino <= n <= self.sb.inodes_count && !self.ino_allocated(
                    n as int,
                ) && forall|x: int| self.sb.first_ino <= x < n ==> self.ino_allocated(x),
                None => forall|x: int|
                    self.sb.first_ino <= x <= self.sb.inodes_count ==> self.ino_allocated(x),
            },
    {
        let count = self.sb.inodes_count;
        let mut n: u32 = self.sb.first_ino;
        while n <= count
            invariant
                self.wf(),
                count == self.sb.inodes_count,
                self.sb.first_ino <= n <= count + 1,
                forall|x: int| self.sb.first_ino <= x < n ==> self.ino_allocated(x),
            decreases count + 1 - n,
        {
            if !self.inode_bitmap.test_ino(n) {
                return Some(n);
            }
            n = n + 1;
        }
        None
    }

    /// Create a directory inode, optionally under a fixed number, and
    /// optionally link it under `parent` with the given name.  The new
    /// directory owns one data block and carries the two standard
    /// entries; linking appends to the parent and raises its link
    /// count.
    #[verifier::loop_isolation(false)]
    pub(crate) fn mkdir_raw(&mut self, parent: u32, fixed_ino: u32, name: Option<&[u8]>) -> (r:
        Result<u32, ExtReport>)
        requires
            old(self).wf(),
            1 <= parent <= old(self).sb.inodes_count,
            fixed_ino != 0 ==> 1 <= fixed_ino <= old(self).sb.inodes_count && !old(self).ino_allocated(fixed_ino as int),
            match name {
                Some(nm) => old(self).ino_allocated(parent as int) && old(self).inode_at(
                    parent as int,
                ).spec_is_dir() && name_wf_bytes(nm@) && parent != fixed_ino,
                None => true,
            },
        ensures
            final(self).wf(),
            final(self).sb == old(self).sb,
            final(self).flags == old(self).flags,
            final(self).channel.data@ == old(self).channel.data@,
            match r {
                Ok(n) => {
                    &&& 1 <= n <= old(self).sb.inodes_count
                    &&& (fixed_ino != 0 ==> n == fixed_ino)
                    &&& (fixed_ino == 0 ==> old(self).sb.first_ino <= n && (forall|x: int|
                        old(self).sb.first_ino <= x < n ==> old(self).ino_allocated(x)))
                    &&& !old(self).ino_allocated(n as int)
                    &&& final(self).ino_allocated(n as int)
                    &&& final(self).inode_at(n as int).spec_is_dir()
                    &&& final(self).inode_at(n as int).links_count == 2
                    &&& final(self).inode_at(n as int).entries@.len() == 2
                    &&& final(self).inode_at(n as int).entries@[0].inode == n
                    &&& final(self).inode_at(n as int).entries@[0].name@ == seq![0x2Eu8]
                    &&& final(self).inode_at(n as int).entries@[1].inode == parent
                    &&& final(self).inode_at(n as int).entries@[1].name@ == seq![0x2Eu8, 0x2Eu8]
                    &&& final(self).inode_bitmap.bits@ == old(self).inode_bitmap.bits@.update(
                        n - 1,
                        true,
                    )
                    &&& (name is None ==> (exists|bb: int|
                        {
                            &&& 1 <= bb < old(self).sb.blocks_count
                            &&& old(self).block_free(bb)
                            &&& final(self).block_bitmap.bits@ == old(
                                self,
                            ).block_bitmap.bits@.update(bb, true)
                        }))
                    &&& (match name {
                        Some(nm) => {
                            let p0 = old(self).inode_at(parent as int);
                            let p1 = final(self).inode_at(parent as int);
                            &&& p1.entries@.len() == p0.entries@.len() + 1
                            &&& p1.entries@.last().inode == n
                            &&& p1.entries@.last().name@ == nm@
                            &&& entries_eq(p1.entries@.take(p0.entries@.len() as int), p0.entries@)
                            &&& p1.links_count as int >= p0.links_count as int
                            &&& p1.mode == p0.mode
                            &&& forall|i: int|
                                1 <= i <= old(self).sb.inodes_count && i != n && i != parent
                                    ==> final(self).inode_at(i) == old(self).inode_at(i)
                        },
                        None => forall|i: int|
                            1 <= i <= old(self).sb.inodes_count && i != n ==> final(self).inode_at(
                                i,
                            ) == old(self).inode_at(i),
                    })
                },
                Err(e) => {
                    let p0 = old(self).inode_at(parent as int);
                    &&& (e == ExtReport::Message(ExtEtMessage::InodeAllocFail) || e
                        == ExtReport::Message(ExtEtMessage::BlockAllocFail) || e
                        == ExtReport::Message(ExtEtMessage::DirNoSpace))
                    &&& (e == ExtReport::Message(ExtEtMessage::InodeAllocFail) ==> fixed_ino == 0
                        && forall|x: int|
                        old(self).sb.first_ino <= x <= old(self).sb.inodes_count ==> old(self).ino_allocated(x))
                    &&& (e == ExtReport::Message(ExtEtMessage::BlockAllocFail) ==> forall|
                        b1: int,
                        b2: int,
                    |
                        1 <= b1 < old(self).sb.blocks_count && 1 <= b2 < old(self).sb.blocks_count
                            && old(self).block_free(b1) && old(self).block_free(b2) ==> b1 == b2)
                    &&& (e == ExtReport::Message(ExtEtMessage::DirNoSpace) ==> name is Some
                        && pack_step(pack_len(p0.entries@), spec_rec_len(name->0@.len())) > 12
                        * 1024)
                },
            },
    {
        let ino: u32 = if fixed_ino != 0 {
            fixed_ino
        } else {
            match self.scan_free_ino() {
                Some(n) => n,
                None => {
                    return Err(ExtReport::Message(ExtEtMessage::InodeAllocFail));
                },
            }
        };
        // The directory's single data block.
        let mut rec = ExtInodeData::zeroed();
        rec.mode = 0x41EDu16;  // a directory with mode 0755
        let now = now_epoch_secs();
        rec.atime = now;
        rec.ctime = now;
        rec.mtime = now;
        let probe = ExtInode { num: ino, data: crate::session::copy_rec(&rec) };
        let b = match self.new_block(&probe) {
            Ok(b) => b,
            Err(e) => {
                return Err(e);
            },
        };
        rec.blocks.push(b);
        rec.size = 1024;
        rec.links_count = 2;
        let mut dot: Vec<u8> = Vec::new();
        dot.push(0x2Eu8);
        rec.entries.push(ExtDirEntry { inode: ino, name: dot });
        let mut dotdot: Vec<u8> = Vec::new();
        dotdot.push(0x2Eu8);
        dotdot.push(0x2Eu8);
        rec.entries.push(ExtDirEntry { inode: parent, name: dotdot });
        let ghost sa = *self;
        self.inode_bitmap.mark_ino(ino);
        let idx: usize = (ino - 1) as usize;
        let _old_rec = vec_replace(&mut self.inodes, idx, rec);
        proof {
            let s1 = *self;
            let fi = ino as int;
            let d1 = s1.inode_at(fi);
            assert(d1.entries@.len() == 2 && d1.entries@[0].inode == ino && d1.entries@[1].inode
                == parent);
            assert(d1.blocks@ =~= Seq::<u64>::empty().push(b));
            assert forall|i: int|
                1 <= i <= s1.sb.inodes_count && #[trigger] s1.ino_allocated(i) implies s1.rec_wf(
                s1.inode_at(i),
            ) by {
                if i == fi {
                    assert((0x41EDu16 as u32) & 0xF000u32 == 0x4000u32) by (bit_vector);
                    assert(d1.spec_is_dir());
                    assert(d1.entries@[0].name@ =~= seq![0x2Eu8]);
                    assert(d1.entries@[1].name@ =~= seq![0x2Eu8, 0x2Eu8]);
                    assert(s1.entry_wf(d1.entries@[0]));
                    assert(s1.entry_wf(d1.entries@[1]));
                    assert forall|k: int| 0 <= k < d1.entries@.len() implies s1.entry_wf(
                        #[trigger] d1.entries@[k],
                    ) by {
                        assert(k == 0 || k == 1);
                    }
                    assert(dir_space(d1.entries@.drop_first().drop_first()) == 0);
                    assert(d1.entries@.drop_first()[0] == d1.entries@[1]);
                    assert(d1.entries@.drop_first().len() == 1);
                    assert(dir_space(d1.entries@.drop_first()) == spec_rec_len(2) + dir_space(
                        d1.entries@.drop_first().drop_first(),
                    ));
                    assert(dir_space(d1.entries@) == spec_rec_len(1) + dir_space(
                        d1.entries@.drop_first(),
                    ));
                    assert(dir_space(d1.entries@) == spec_rec_len(1) + spec_rec_len(2));
                    assert(pack_len(d1.entries@) <= 1024) by {
                        let e0 = d1.entries@.take(1);
                        assert(e0.push(d1.entries@[1]) =~= d1.entries@);
                        assert(Seq::<ExtDirEntry>::empty().push(d1.entries@[0]) =~= e0);
                        lemma_pack_len_push(Seq::<ExtDirEntry>::empty(), d1.entries@[0]);
                        lemma_pack_len_push(e0, d1.entries@[1]);
                    }
                    assert(s1.blocks_wf(d1.blocks@));
                    assert(s1.rec_wf(d1));
                } else {
                    assert(sa.ino_allocated(i));
                    assert(sa.rec_wf(sa.inode_at(i)));
                    assert(s1.inode_at(i) == sa.inode_at(i));
                    assert(s1.blocks_wf(s1.inode_at(i).blocks@));
                }
            }
            assert forall|i1: int, i2: int|
                1 <= i1 <= s1.sb.inodes_count && 1 <= i2 <= s1.sb.inodes_count && i1 != i2
                    && #[trigger] s1.ino_allocated(i1) && #[trigger] s1.ino_allocated(
                    i2,
                ) implies seqs_disjoint(s1.inode_at(i1).blocks@, s1.inode_at(i2).blocks@) by {
                if i1 == fi || i2 == fi {
                    let o = if i1 == fi {
                        i2
                    } else {
                        i1
                    };
                    assert(sa.ino_allocated(o) && old(self).ino_allocated(o));
                    assert(old(self).rec_wf(old(self).inode_at(o)));
                    let ob = s1.inode_at(o).blocks@;
                    assert(ob == old(self).inode_at(o).blocks@);
                    assert forall|a: int, c: int|
                        0 <= a < 1 && 0 <= c < ob.len() implies #[trigger] s1.inode_at(
                        fi,
                    ).blocks@[a] != #[trigger] ob[c] by {
                        assert(old(self).block_bitmap.bits@[ob[c] as int]);
                        assert(old(self).block_free(b as int));
                        assert(s1.inode_at(fi).blocks@[a] == b);
                    }
                    assert(seqs_disjoint(s1.inode_at(fi).blocks@, ob));
                    assert(seqs_disjoint(ob, s1.inode_at(fi).blocks@));
                } else {
                    assert(sa.ino_allocated(i1) && sa.ino_allocated(i2));
                    assert(s1.inode_at(i1).blocks@ == sa.inode_at(i1).blocks@);
                    assert(s1.inode_at(i2).blocks@ == sa.inode_at(i2).blocks@);
                }
            }
            assert forall|b3: int|
                0 <= b3 < s1.sb.blocks_count && s1.sb.is_metadata_block(b3) implies #[trigger] s1
                .block_bitmap.bits@[b3] by {
                assert(sa.block_bitmap.bits@[b3]);
            }
        }
        let ghost sc = *self;
        proof {
            assert((0x41EDu16 as u32) & 0xF000u32 == 0x4000u32) by (bit_vector);
            assert(self.inode_at(ino as int).spec_is_dir());
        }
        let nm = match name {
            Some(nm) => nm,
            None => {
                return Ok(ino);
            },
        };
        // Link the new directory under its parent and account for the
        // back reference its `..` entry adds.
        match self.dir_add_entry(parent, nm, ino, true) {
            Ok(()) => (),
            Err(e) => {
                proof {
                    let p0 = old(self).inode_at(parent as int);
                    let pmid = sc.inode_at(parent as int);
                    assert(pmid == p0);
                    if pmid.blocks@.len() < 12 {
                        assert forall|b1: int, b2: int|
                            1 <= b1 < old(self).sb.blocks_count && 1 <= b2 < old(
                                self,
                            ).sb.blocks_count && old(self).block_free(b1) && old(self).block_free(
                                b2,
                            ) implies b1 == b2 by {
                            assert(sc.block_bitmap.bits@ == old(self).block_bitmap.bits@.update(
                                b as int,
                                true,
                            ));
                            if b1 != b {
                                assert(sc.block_free(b1));
                                assert(false);
                            }
                            if b2 != b {
                                assert(sc.block_free(b2));
                                assert(false);
                            }
                        }
                    } else {
                        assert(sc.ino_allocated(parent as int));
                        assert(sc.rec_wf(pmid));
                    }
                }
                return Err(e);
            },
        }
        let ghost sb2 = *self;
        let pidx: usize = (parent - 1) as usize;
        let mut prec = vec_replace(&mut self.inodes, pidx, ExtInodeData::zeroed());
        if prec.links_count < 65535 {
            prec.links_count = prec.links_count + 1;
        }
        let _ = vec_replace(&mut self.inodes, pidx, prec);
        proof {
            let s1 = *self;
            assert(s1.inode_at(parent as int).blocks@ == sb2.inode_at(parent as int).blocks@);
            if sb2.ino_allocated(parent as int) {
                assert(sb2.rec_wf(sb2.inode_at(parent as int)));
                let dp = s1.inode_at(parent as int);
                let dp0 = sb2.inode_at(parent as int);
                assert(dp.entries@ == dp0.entries@ && dp.mode == dp0.mode && dp.size == dp0.size
                    && dp.symlink_target@ == dp0.symlink_target@ && dp.blocks@ == dp0.blocks@
                    && dp.flags == dp0.flags);
                assert(s1.rec_wf(dp));
            }
            lemma_wf_replace_rec(sb2, s1, parent as int);
            assert forall|i: int|
                1 <= i <= old(self).sb.inodes_count && i != ino && i != parent implies s1.inode_at(
                i,
            ) == old(self).inode_at(i) by {
                assert(s1.inode_at(i) == sb2.inode_at(i));
                assert(sb2.inode_at(i) == sc.inode_at(i));
                assert(sc.inode_at(i) == sa.inode_at(i));
                assert(sa.inode_at(i) == old(self).inode_at(i));
            }
        }
        Ok(ino)
    }

    /// Create the directory `name` under the directory at
    /// `parent`, allocating the inode automatically.
    pub fn mkdir(&mut self, parent: &str, name: &str) -> (r: Result<(), ExtReport>)
        requires
            old(self).wf(),
        ensures
            final(self).wf(),
            final(self).sb == old(self).sb,
            final(self).flags == old(self).flags,
            final(self).channel.data@ == old(self).channel.data@,
            match old(self).spec_walk(
                EXT2_ROOT_INO,
                spec_split_path(parent.spec_bytes()),
                false,
                MAX_NESTED_LINKS as nat,
            ) {
                Ok(pino) => {
                    if !(old(self).ino_allocated(pino as int) && old(self).inode_at(
                        pino as int,
                    ).spec_is_dir()) {
                        r == Result::<(), ExtReport>::Err(
                            ExtReport::Message(ExtEtMessage::NoDirectory),
                        ) && *final(self) == *old(self)
                    } else if !name_wf_bytes(name.spec_bytes()) {
                        (if name.spec_bytes().len() > 255 {
                            r == Result::<(), ExtReport>::Err(
                                ExtReport::Errno(ExtError::ENAMETOOLONG),
                            )
                        } else {
                            r == Result::<(), ExtReport>::Err(ExtReport::Errno(ExtError::EINVAL))
                        }) && *final(self) == *old(self)
                    } else if spec_lookup_entry(
                        old(self).inode_at(pino as int).entries@,
                        name.spec_bytes(),
                    ) is Some {
                        r == Result::<(), ExtReport>::Err(
                            ExtReport::Message(ExtEtMessage::DirExists),
                        ) && *final(self) == *old(self)
                    } else {
                        match r {
                            Ok(()) => exists|n: u32|
                                {
                                    &&& #[trigger] final(self).ino_allocated(n as int)
                                    &&& !old(self).ino_allocated(n as int)
                                    &&& old(self).sb.first_ino <= n <= old(self).sb.inodes_count
                                    &&& final(self).inode_at(n as int).spec_is_dir()
                                    &&& final(self).inode_at(n as int).links_count == 2
                                    &&& final(self).inode_bitmap.bits@ == old(
                                        self,
                                    ).inode_bitmap.bits@.update(n - 1, true)
                                    &&& final(self).inode_at(pino as int).entries@.len() == old(
                                        self,
                                    ).inode_at(pino as int).entries@.len() + 1
                                    &&& final(self).inode_at(pino as int).entries@.last().inode
                                        == n
                                    &&& final(self).inode_at(pino as int).entries@.last().name@
                                        == name.spec_bytes()
                                    &&& final(self).inode_at(pino as int).mode == old(self).inode_at(pino as int).mode
                                    &&& entries_eq(
                                        final(self).inode_at(pino as int).entries@.take(
                                            old(self).inode_at(pino as int).entries@.len() as int,
                                        ),
                                        old(self).inode_at(pino as int).entries@,
                                    )
                                    &&& forall|i: int|
                                        1 <= i <= old(self).sb.inodes_count && i != n && i != pino
                                            ==> final(self).inode_at(i) == old(self).inode_at(i)
                                    &&& spec_lookup_entry(
                                        final(self).inode_at(pino as int).entries@,
                                        name.spec_bytes(),
                                    ) == Option::Some(n)
                                },
                            Err(e) => {
                                &&& (e == ExtReport::Message(ExtEtMessage::InodeAllocFail) || e
                                    == ExtReport::Message(ExtEtMessage::BlockAllocFail) || e
                                    == ExtReport::Message(ExtEtMessage::DirNoSpace))
                                &&& (e == ExtReport::Message(ExtEtMessage::InodeAllocFail)
                                    ==> forall|x: int|
                                    old(self).sb.first_ino <= x <= old(self).sb.inodes_count
                                        ==> old(self).ino_allocated(x))
                                &&& (e == ExtReport::Message(ExtEtMessage::BlockAllocFail)
                                    ==> forall|b1: int, b2: int|
                                    1 <= b1 < old(self).sb.blocks_count && 1 <= b2 < old(
                                        self,
                                    ).sb.blocks_count && old(self).block_free(b1) && old(
                                        self,
                                    ).block_free(b2) ==> b1 == b2)
                                &&& (e == ExtReport::Message(ExtEtMessage::DirNoSpace)
                                    ==> pack_step(
                                    pack_len(old(self).inode_at(pino as int).entries@),
                                    spec_rec_len(name.spec_bytes().len()),
                                ) > 12 * 1024)
                            },
                        }
                    }
                },
                Err(e) => r == Result::<(), ExtReport>::Err(e) && *final(self) == *old(self),
            },
            r is Err ==> (r->Err_0 == ExtReport::Message(ExtEtMessage::NoDirectory) || r->Err_0
                == ExtReport::Message(ExtEtMessage::FileNotFound) || r->Err_0
                == ExtReport::Message(ExtEtMessage::SymlinkLoop) || r->Err_0 == ExtReport::Errno(
                ExtError::ENAMETOOLONG,
            ) || r->Err_0 == ExtReport::Errno(ExtError::EINVAL) || r->Err_0 == ExtReport::Message(
                ExtEtMessage::DirExists,
            ) || r->Err_0 == ExtReport::Message(ExtEtMessage::InodeAllocFail) || r->Err_0
                == ExtReport::Message(ExtEtMessage::BlockAllocFail) || r->Err_0
                == ExtReport::Message(ExtEtMessage::DirNoSpace)),
    {
        let pino = match self.find_inode(parent) {
            Ok(p) => p.num,
            Err(e) => {
                proof {
                    crate::dir::lemma_walk_err_kinds(
                        *self,
                        EXT2_ROOT_INO,
                        spec_split_path(parent.spec_bytes()),
                        false,
                        MAX_NESTED_LINKS as nat,
                    );
                }
                return Err(e);
            },
        };
        let pidx: usize = (pino - 1) as usize;
        let allocated = self.inode_bitmap.test_ino(pino);
        let is_dir = (self.inodes[pidx].mode as u32) & 0xF000u32 == LINUX_S_IFDIR;
        if !(allocated && is_dir) {
            return Err(ExtReport::Message(ExtEtMessage::NoDirectory));
        }
        let name_bytes = name.as_bytes();
        match validate_name(name_bytes) {
            Ok(()) => (),
            Err(e) => {
                return Err(e);
            },
        }
        if pino == 0 {
            return Err(ExtReport::Message(ExtEtMessage::NoDirectory));
        }
        // A directory may hold one entry per name: creating an
        // existing name is the directory-exists error.
        match self.dir_find(pino, name_bytes) {
            Some(_) => {
                return Err(ExtReport::Message(ExtEtMessage::DirExists));
            },
            None => (),
        }
        match self.mkdir_raw(pino, 0, Some(name_bytes)) {
            Ok(_n) => {
                proof {
                    lemma_lookup_append(
                        old(self).inode_at(pino as int).entries@,
                        self.inode_at(pino as int).entries@,
                        name.spec_bytes(),
                    );
                }
                Ok(())
            },
            Err(e) => Err(e),
        }
    }
}


/// The components of a path's parent: everything but the final
/// component; a path without components is its own parent.
pub open spec fn spec_parent_comps(p: Seq<u8>) -> Seq<Seq<u8>> {
    let cs = spec_split_path(p);
    if cs.len() == 0 {
        cs
    } else {
        cs.drop_last()
    }
}

/// The name component a path designates: the last path component,
/// absent when the path has none or ends in a dot or dot-dot
/// component.
pub open spec fn spec_file_name(p: Seq<u8>) -> Option<Seq<u8>> {
    let cs = spec_split_path(p);
    if cs.len() > 0 && cs.last() != seq![0x2Eu8] && cs.last() != seq![0x2Eu8, 0x2Eu8] {
        Option::Some(cs.last())
    } else {
        Option::<Seq<u8>>::None
    }
}

impl ExtFilesystem {
    /// Split a path into the components of its parent and its final
    /// name.
    #[verifier::loop_isolation(false)]
    pub(crate) fn split_parent_name(&self, path: &str) -> (r: (Vec<Vec<u8>>, Vec<u8>))
        requires
            spec_file_name(path.spec_bytes()) is Some,
        ensures
            r.0.deep_view() == spec_split_path(path.spec_bytes()).drop_last(),
            r.1@ == spec_file_name(path.spec_bytes())->0,
    {
        let comps = split_path(path.as_bytes());
        let n = comps.len();
        let name = copy_u8_vec(&comps[n - 1]);
        let mut parent_comps: Vec<Vec<u8>> = Vec::new();
        let mut j: usize = 0;
        while j < n - 1
            invariant
                j <= n - 1,
                n == comps@.len(),
                n >= 1,
                parent_comps.deep_view() =~~= comps.deep_view().subrange(0, j as int),
            decreases n - 1 - j,
        {
            let ghost pre = parent_comps.deep_view();
            let e = copy_u8_vec(&comps[j]);
            let ghost ev = e@;
            parent_comps.push(e);
            proof {
                assert(parent_comps.deep_view().len() == pre.len() + 1);
                assert(parent_comps.deep_view()[pre.len() as int] =~= ev);
                assert(ev =~= comps.deep_view()[j as int]);
                assert(parent_comps.deep_view() =~~= comps.deep_view().subrange(0, j + 1));
            }
            j = j + 1;
        }
        proof {
            assert(parent_comps.deep_view() =~~= comps.deep_view().drop_last());
            assert(name@ =~= comps.deep_view().last());
        }
        (parent_comps, name)
    }

    /// Remove the directory entry for `path`.  Only the entry goes
    /// away: the target inode's link count and record stay untouched,
    /// which makes this the low-level half of removal; callers wanting
    /// full removal use `delete`.
    #[verifier::loop_isolation(false)]
    pub fn unlink(&mut self, path: &str) -> (r: Result<(), ExtReport>)
        requires
            old(self).wf(),
            spec_file_name(path.spec_bytes()) is Some,
        ensures
            final(self).wf(),
            final(self).sb == old(self).sb,
            final(self).flags == old(self).flags,
            final(self).inode_bitmap == old(self).inode_bitmap,
            final(self).block_bitmap == old(self).block_bitmap,
            final(self).data@ == old(self).data@,
            final(self).channel.data@ == old(self).channel.data@,
            ({
                let comps = spec_split_path(path.spec_bytes());
                let nm = spec_file_name(path.spec_bytes())->0;
                match old(self).spec_walk(EXT2_ROOT_INO, comps, false, MAX_NESTED_LINKS as nat) {
                    Err(e) => r == Result::<(), ExtReport>::Err(e) && final(self).inodes@ == old(self).inodes@,
                    Ok(tino) => match old(self).spec_walk(
                        EXT2_ROOT_INO,
                        comps.drop_last(),
                        false,
                        MAX_NESTED_LINKS as nat,
                    ) {
                        Err(e2) => r == Result::<(), ExtReport>::Err(e2) && final(self).inodes@
                            == old(self).inodes@,
                        Ok(pino) => {
                            if !(old(self).ino_allocated(pino as int) && old(self).inode_at(
                                pino as int,
                            ).spec_is_dir()) {
                                r == Result::<(), ExtReport>::Err(
                                    ExtReport::Message(ExtEtMessage::NoDirectory),
                                ) && final(self).inodes@ == old(self).inodes@
                            } else {
                                match spec_find_named(
                                    old(self).inode_at(pino as int).entries@,
                                    nm,
                                    tino,
                                ) {
                                    Option::None => r == Result::<(), ExtReport>::Err(
                                        ExtReport::Errno(ExtError::ENOENT),
                                    ) && final(self).inodes@ == old(self).inodes@,
                                    Option::Some(idx) => {
                                        &&& r is Ok
                                        &&& entries_eq(
                                            final(self).inode_at(pino as int).entries@,
                                            old(self).inode_at(pino as int).entries@.remove(idx),
                                        )
                                        &&& final(self).inode_at(pino as int).links_count == old(self).inode_at(pino as int).links_count
                                        &&& forall|i: int|
                                            1 <= i <= old(self).sb.inodes_count && i != pino
                                                ==> final(self).inode_at(i) == old(self).inode_at(
                                                i,
                                            )
                                    },
                                }
                            }
                        },
                    },
                }
            }),
    {
        let (parent_comps, name) = self.split_parent_name(path);
        let tino = match self.walk(EXT2_ROOT_INO, split_path(path.as_bytes()), false,
            MAX_NESTED_LINKS) {
            Ok(n) => n,
            Err(e) => {
                return Err(e);
            },
        };
        let pino = match self.walk(EXT2_ROOT_INO, parent_comps, false, MAX_NESTED_LINKS) {
            Ok(n) => n,
            Err(e) => {
                return Err(e);
            },
        };
        let pidx: usize = (pino - 1) as usize;
        let allocated = self.inode_bitmap.test_ino(pino);
        let is_dir = (self.inodes[pidx].mode as u32) & 0xF000u32 == LINUX_S_IFDIR;
        if !(allocated && is_dir) {
            return Err(ExtReport::Message(ExtEtMessage::NoDirectory));
        }
        self.dir_remove_entry(pino, name.as_slice(), tino)
    }

    /// Remove `path` fully: the directory entry goes away, the link
    /// count drops, the deletion time is stamped, the data blocks are
    /// freed, and the inode number is marked free again.
    #[verifier::loop_isolation(false)]
    pub fn delete(&mut self, path: &str) -> (r: Result<(), ExtReport>)
        requires
            old(self).wf(),
            spec_file_name(path.spec_bytes()) is Some,
        ensures
            final(self).wf(),
            final(self).sb == old(self).sb,
            r is Err ==> final(self).flags == old(self).flags && final(self).channel.data@ == old(
                self,
            ).channel.data@,
            r is Ok ==> final(self).flags == old(self).flags | (crate::session::EXT2_FLAG_DIRTY
                | crate::session::EXT2_FLAG_CHANGED) && final(self).channel.data@.len() == old(
                self,
            ).sb.blocks_count * 1024,
            ({
                let comps = spec_split_path(path.spec_bytes());
                let nm = spec_file_name(path.spec_bytes())->0;
                match old(self).spec_walk(EXT2_ROOT_INO, comps, false, MAX_NESTED_LINKS as nat) {
                    Err(e) => r == Result::<(), ExtReport>::Err(e) && final(self).inodes@ == old(self).inodes@ && final(self).inode_bitmap == old(self).inode_bitmap && final(self).block_bitmap == old(self).block_bitmap,
                    Ok(tino) => match old(self).spec_walk(
                        EXT2_ROOT_INO,
                        comps.drop_last(),
                        false,
                        MAX_NESTED_LINKS as nat,
                    ) {
                        Err(e2) => r == Result::<(), ExtReport>::Err(e2) && final(self).inodes@
                            == old(self).inodes@ && final(self).inode_bitmap == old(self).inode_bitmap && final(self).block_bitmap == old(self).block_bitmap,
                        Ok(pino) => {
                            if !(old(self).ino_allocated(pino as int) && old(self).inode_at(
                                pino as int,
                            ).spec_is_dir()) {
                                r == Result::<(), ExtReport>::Err(
                                    ExtReport::Message(ExtEtMessage::NoDirectory),
                                ) && final(self).inodes@ == old(self).inodes@ && final(self).inode_bitmap == old(self).inode_bitmap && final(self).block_bitmap == old(self).block_bitmap
                            } else {
                                match spec_find_named(
                                    old(self).inode_at(pino as int).entries@,
                                    nm,
                                    tino,
                                ) {
                                    Option::None => r == Result::<(), ExtReport>::Err(
                                        ExtReport::Errno(ExtError::ENOENT),
                                    ) && final(self).inodes@ == old(self).inodes@ && final(self).inode_bitmap == old(self).inode_bitmap && final(self).block_bitmap == old(self).block_bitmap,
                                    Option::Some(idx) => {
                                        &&& r is Ok
                                        &&& (pino != tino ==> entries_eq(
                                            final(self).inode_at(pino as int).entries@,
                                            old(self).inode_at(pino as int).entries@.remove(idx),
                                        ))
                                        &&& final(self).inode_at(tino as int).links_count == (
                                        if old(self).inode_at(tino as int).links_count > 0 {
                                            (old(self).inode_at(tino as int).links_count
                                                - 1) as u16
                                        } else {
                                            0u16
                                        })
                                        &&& !final(self).ino_allocated(tino as int)
                                        &&& (old(self).ino_allocated(tino as int) ==> (forall|
                                            j: int,
                                        |
                                            0 <= j < old(self).inode_at(tino as int).blocks@.len()
                                                ==> !final(self).block_bitmap.bits@[#[trigger] old(self).inode_at(tino as int).blocks@[j] as int]))
                                        &&& forall|i: int|
                                            1 <= i <= old(self).sb.inodes_count && i != pino && i
                                                != tino ==> final(self).inode_at(i) == old(self).inode_at(i)
                                    },
                                }
                            }
                        },
                    },
                }
            }),
    {
        let (parent_comps, name) = self.split_parent_name(path);
        let tino = match self.walk(EXT2_ROOT_INO, split_path(path.as_bytes()), false,
            MAX_NESTED_LINKS) {
            Ok(n) => n,
            Err(e) => {
                return Err(e);
            },
        };
        let pino = match self.walk(EXT2_ROOT_INO, parent_comps, false, MAX_NESTED_LINKS) {
            Ok(n) => n,
            Err(e) => {
                return Err(e);
            },
        };
        let pidx: usize = (pino - 1) as usize;
        let allocated = self.inode_bitmap.test_ino(pino);
        let is_dir = (self.inodes[pidx].mode as u32) & 0xF000u32 == LINUX_S_IFDIR;
        if !(allocated && is_dir) {
            return Err(ExtReport::Message(ExtEtMessage::NoDirectory));
        }
        match self.dir_remove_entry(pino, name.as_slice(), tino) {
            Ok(()) => (),
            Err(e) => {
                return Err(e);
            },
        }
        // Stamp the record and free whatever it owns.
        let ghost s2 = *self;
        let was_allocated = self.inode_bitmap.test_ino(tino);
        let tidx: usize = (tino - 1) as usize;
        let z = ExtInodeData::zeroed();
        let ghost zg = z;
        let mut rec = vec_replace(&mut self.inodes, tidx, z);
        if rec.links_count > 0 {
            rec.links_count = rec.links_count - 1;
        }
        rec.dtime = now_epoch_secs();
        if was_allocated {
            let ghost owned = rec.blocks@;
            proof {
                assert(s2.ino_allocated(tino as int));
                assert(s2.rec_wf(s2.inode_at(tino as int)));
                assert(owned == s2.inode_at(tino as int).blocks@);
            }
            let nb = rec.blocks.len();
            let mut j: usize = 0;
            while j < nb
                invariant
                    j <= nb,
                    owned.len() == nb,
                    rec.blocks@ == owned,
                    self.block_bitmap.bits@.len() == s2.block_bitmap.bits@.len(),
                    forall|k: int| 0 <= k < j ==> !self.block_bitmap.bits@[#[trigger] owned[k] as int],
                    forall|x: int|
                        0 <= x < self.block_bitmap.bits@.len() && !owned.take(j as int).contains(
                            x as u64,
                        ) ==> self.block_bitmap.bits@[x] == s2.block_bitmap.bits@[x],
                    self.inode_bitmap == s2.inode_bitmap,
                    self.block_bitmap.magic == s2.block_bitmap.magic,
                    self.inodes@ == s2.inodes@.update(tino - 1, zg),
                    self.data@ == s2.data@,
                    self.sb == s2.sb,
                    self.flags == s2.flags,
                    self.channel.data@ == s2.channel.data@,
                decreases nb - j,
            {
                let b = rec.blocks[j];
                proof {
                    assert(owned[j as int] == b);
                    assert(1 <= b < s2.sb.blocks_count);
                }
                self.block_bitmap.unmark_block(b);
                proof {
                    assert(owned.take(j + 1).drop_last() =~= owned.take(j as int));
                    assert forall|x: int|
                        0 <= x < self.block_bitmap.bits@.len() && !owned.take(j + 1).contains(
                            x as u64,
                        ) implies self.block_bitmap.bits@[x] == s2.block_bitmap.bits@[x] by {
                        assert(!owned.take(j as int).contains(x as u64));
                        assert(owned.take(j + 1)[j as int] == b);
                        assert(x != b);
                    }
                }
                j = j + 1;
            }
            rec.blocks = Vec::new();
            rec.entries = Vec::new();
        }
        let _ = vec_replace(&mut self.inodes, tidx, rec);
        self.inode_bitmap.unmark_ino(tino);
        proof {
            let s1 = *self;
            let ti = tino as int;
            assert forall|i: int|
                1 <= i <= s1.sb.inodes_count && #[trigger] s1.ino_allocated(i) implies s1.rec_wf(
                s1.inode_at(i),
            ) by {
                assert(i != ti);
                assert(s2.ino_allocated(i));
                assert(s2.rec_wf(s2.inode_at(i)));
                assert(s1.inode_at(i) == s2.inode_at(i));
                let blocks = s1.inode_at(i).blocks@;
                if was_allocated {
                    let owned = s2.inode_at(ti).blocks@;
                    assert(seqs_disjoint(blocks, owned));
                    assert forall|j: int| 0 <= j < blocks.len() implies 1 <= #[trigger] blocks[j]
                        < s1.sb.blocks_count && !s1.sb.is_metadata_block(blocks[j] as int)
                        && s1.block_bitmap.bits@[blocks[j] as int] && s1.data@[blocks[j]
                        as int]@.len() == 1024 by {
                        assert(s2.block_bitmap.bits@[blocks[j] as int]);
                        assert forall|k: int| 0 <= k < owned.len() implies owned[k] != blocks[j] by {
                            assert(blocks[j] != owned[k]);
                        }
                        assert(!owned.take(owned.len() as int).contains(blocks[j]));
                    }
                } else {
                    assert(s1.block_bitmap == s2.block_bitmap);
                }
                assert(s1.blocks_wf(blocks));
            }
            assert forall|i1: int, i2: int|
                1 <= i1 <= s1.sb.inodes_count && 1 <= i2 <= s1.sb.inodes_count && i1 != i2
                    && #[trigger] s1.ino_allocated(i1) && #[trigger] s1.ino_allocated(
                    i2,
                ) implies seqs_disjoint(s1.inode_at(i1).blocks@, s1.inode_at(i2).blocks@) by {
                assert(s2.ino_allocated(i1) && s2.ino_allocated(i2));
                assert(s1.inode_at(i1).blocks@ == s2.inode_at(i1).blocks@);
                assert(s1.inode_at(i2).blocks@ == s2.inode_at(i2).blocks@);
            }
            assert forall|b3: int|
                0 <= b3 < s1.sb.blocks_count && s1.sb.is_metadata_block(b3) implies #[trigger] s1
                .block_bitmap.bits@[b3] by {
                assert(s2.block_bitmap.bits@[b3]);
                if was_allocated {
                    let owned = s2.inode_at(ti).blocks@;
                    assert(s2.rec_wf(s2.inode_at(ti)));
                    assert forall|k: int| 0 <= k < owned.len() implies owned[k] != b3 as u64 by {
                        assert(!s2.sb.is_metadata_block(owned[k] as int));
                    }
                    assert(!owned.take(owned.len() as int).contains(b3 as u64));
                }
            }
            assert(s1.wf());
        }
        // Removal settled: push the state down to the image bytes.
        let ghost spre = *self;
        let _fr = self.flush();
        proof {
            assert forall|i: int|
                1 <= i <= old(self).sb.inodes_count implies self.inode_at(i) == spre.inode_at(
                i,
            ) by {}
        }
        Ok(())
    }

    /// Create one more directory entry for the object at `path`: the
    /// entry is added under `new_path`'s parent — carrying the final
    /// name component of `path` itself, a documented quirk of this
    /// entry point — and the target's link count rises by one.
    #[verifier::loop_isolation(false)]
    pub fn link(&mut self, path: &str, new_path: &str) -> (r: Result<(), ExtReport>)
        requires
            old(self).wf(),
            spec_file_name(path.spec_bytes()) is Some,
        ensures
            final(self).wf(),
            final(self).sb == old(self).sb,
            final(self).flags == old(self).flags,
            final(self).inode_bitmap == old(self).inode_bitmap,
            final(self).channel.data@ == old(self).channel.data@,
            ({
                let nm = spec_file_name(path.spec_bytes())->0;
                match old(self).spec_walk(
                    EXT2_ROOT_INO,
                    spec_split_path(path.spec_bytes()),
                    false,
                    MAX_NESTED_LINKS as nat,
                ) {
                    Err(e) => r == Result::<(), ExtReport>::Err(e) && final(self).inodes@ == old(self).inodes@,
                    Ok(tino) => match old(self).spec_walk(
                        EXT2_ROOT_INO,
                        spec_parent_comps(new_path.spec_bytes()),
                        false,
                        MAX_NESTED_LINKS as nat,
                    ) {
                        Err(e2) => r == Result::<(), ExtReport>::Err(e2) && final(self).inodes@
                            == old(self).inodes@,
                        Ok(pino) => {
                            if !(old(self).ino_allocated(pino as int) && old(self).inode_at(
                                pino as int,
                            ).spec_is_dir()) {
                                r == Result::<(), ExtReport>::Err(
                                    ExtReport::Message(ExtEtMessage::NoDirectory),
                                ) && final(self).inodes@ == old(self).inodes@
                            } else if !name_wf_bytes(nm) {
                                (if nm.len() > 255 {
                                    r == Result::<(), ExtReport>::Err(
                                        ExtReport::Errno(ExtError::ENAMETOOLONG),
                                    )
                                } else {
                                    r == Result::<(), ExtReport>::Err(
                                        ExtReport::Errno(ExtError::EINVAL),
                                    )
                                }) && final(self).inodes@ == old(self).inodes@
                            } else if old(self).inode_at(tino as int).links_count == 65535 {
                                r == Result::<(), ExtReport>::Err(
                                    ExtReport::Errno(ExtError::EMLINK),
                                ) && final(self).inodes@ == old(self).inodes@
                            } else {
                                match r {
                                    Ok(()) => {
                                        &&& final(self).inode_at(pino as int).entries@.len() > 0
                                        &&& final(self).inode_at(
                                            pino as int,
                                        ).entries@.last().inode == tino
                                        &&& final(self).inode_at(pino as int).entries@.last().name@
                                            == nm
                                        &&& (tino != pino ==> final(self).inode_at(
                                            tino as int,
                                        ).links_count == old(self).inode_at(
                                            tino as int,
                                        ).links_count + 1)
                                        &&& forall|i: int|
                                            1 <= i <= old(self).sb.inodes_count && i != pino && i
                                                != tino ==> final(self).inode_at(i) == old(self).inode_at(i)
                                    },
                                    Err(e3) => e3 == ExtReport::Message(ExtEtMessage::DirNoSpace)
                                        && pack_step(
                                        pack_len(old(self).inode_at(pino as int).entries@),
                                        spec_rec_len(nm.len()),
                                    ) > old(self).inode_at(pino as int).blocks@.len() * 1024
                                        && final(self).inodes@ == old(self).inodes@,
                                }
                            }
                        },
                    },
                }
            }),
    {
        let (_own_parent, name) = self.split_parent_name(path);
        let tino = match self.walk(EXT2_ROOT_INO, split_path(path.as_bytes()), false,
            MAX_NESTED_LINKS) {
            Ok(n) => n,
            Err(e) => {
                return Err(e);
            },
        };
        let new_comps = split_path(new_path.as_bytes());
        let mut parent_comps: Vec<Vec<u8>> = Vec::new();
        let nn = new_comps.len();
        let mut j: usize = 0;
        while nn > 0 && j < nn - 1
            invariant
                nn == new_comps@.len(),
                j <= (if nn > 0 { nn - 1 } else { 0 }),
                parent_comps.deep_view() =~~= new_comps.deep_view().subrange(0, j as int),
            decreases nn - j,
        {
            let ghost pre = parent_comps.deep_view();
            let e = copy_u8_vec(&new_comps[j]);
            let ghost ev = e@;
            parent_comps.push(e);
            proof {
                assert(parent_comps.deep_view().len() == pre.len() + 1);
                assert(parent_comps.deep_view()[pre.len() as int] =~= ev);
                assert(ev =~= new_comps.deep_view()[j as int]);
                assert(parent_comps.deep_view() =~~= new_comps.deep_view().subrange(0, j + 1));
            }
            j = j + 1;
        }
        proof {
            if new_comps.deep_view().len() == 0 {
                assert(parent_comps.deep_view() =~~= spec_parent_comps(new_path.spec_bytes()));
            } else {
                assert(parent_comps.deep_view() =~~= new_comps.deep_view().drop_last());
                assert(parent_comps.deep_view() =~~= spec_parent_comps(new_path.spec_bytes()));
            }
        }
        let pino = match self.walk(EXT2_ROOT_INO, parent_comps, false, MAX_NESTED_LINKS) {
            Ok(n) => n,
            Err(e) => {
                return Err(e);
            },
        };
        let pidx: usize = (pino - 1) as usize;
        let allocated = self.inode_bitmap.test_ino(pino);
        let is_dir = (self.inodes[pidx].mode as u32) & 0xF000u32 == LINUX_S_IFDIR;
        if !(allocated && is_dir) {
            return Err(ExtReport::Message(ExtEtMessage::NoDirectory));
        }
        match validate_name(name.as_slice()) {
            Ok(()) => (),
            Err(e) => {
                return Err(e);
            },
        }
        let tidx: usize = (tino - 1) as usize;
        if self.inodes[tidx].links_count == 65535 {
            return Err(ExtReport::Errno(ExtError::EMLINK));
        }
        match self.dir_add_entry(pino, name.as_slice(), tino, false) {
            Ok(()) => (),
            Err(e) => {
                return Err(e);
            },
        }
        let ghost s2 = *self;
        let mut rec = vec_replace(&mut self.inodes, tidx, ExtInodeData::zeroed());
        if rec.links_count < 65535 {
            rec.links_count = rec.links_count + 1;
        }
        let _ = vec_replace(&mut self.inodes, tidx, rec);
        proof {
            let s1 = *self;
            assert(s1.inode_at(tino as int).blocks@ == s2.inode_at(tino as int).blocks@);
            if s2.ino_allocated(tino as int) {
                assert(s2.rec_wf(s2.inode_at(tino as int)));
                let dp = s1.inode_at(tino as int);
                let dp0 = s2.inode_at(tino as int);
                assert(dp.entries@ == dp0.entries@ && dp.mode == dp0.mode && dp.size == dp0.size
                    && dp.symlink_target@ == dp0.symlink_target@ && dp.blocks@ == dp0.blocks@
                    && dp.flags == dp0.flags);
                assert(s1.rec_wf(dp));
            }
            lemma_wf_replace_rec(s2, s1, tino as int);
        }
        Ok(())
    }

    /// Create a symlink entry named `symlink_name` under the given
    /// parent directory, pointing at `symlink_target_path`.  When an
    /// inode is supplied it is reused — an existing symlink inode
    /// linked under one more name — otherwise a fresh fast-symlink
    /// inode is allocated.
    #[verifier::loop_isolation(false)]
    pub fn symlink(
        &mut self,
        symlink_parent_dir: &ExtInode,
        symlink_inode: Option<&ExtInode>,
        symlink_name: &str,
        symlink_target_path: &str,
    ) -> (r: Result<(), ExtReport>)
        requires
            old(self).wf(),
        ensures
            final(self).wf(),
            final(self).sb == old(self).sb,
            final(self).flags == old(self).flags,
            final(self).channel.data@ == old(self).channel.data@,
            r is Ok ==> {
                let pino = symlink_parent_dir.num;
                &&& old(self).ino_ok(pino as int)
                &&& old(self).ino_allocated(pino as int)
                &&& old(self).inode_at(pino as int).spec_is_dir()
                &&& name_wf_bytes(symlink_name.spec_bytes())
                &&& final(self).inode_at(pino as int).entries@.len() > 0
                &&& final(self).inode_at(pino as int).entries@.last().name@
                    == symlink_name.spec_bytes()
                &&& (match symlink_inode {
                    Some(existing) => final(self).inode_at(pino as int).entries@.last().inode
                        == existing.num,
                    None => ({
                        let n = final(self).inode_at(pino as int).entries@.last().inode;
                        &&& !old(self).ino_allocated(n as int)
                        &&& final(self).ino_allocated(n as int)
                        &&& final(self).inode_at(n as int).spec_is_symlink()
                        &&& final(self).inode_at(n as int).symlink_target@
                            == symlink_target_path.spec_bytes()
                        &&& final(self).inode_at(n as int).links_count == 1
                    }),
                })
            },
            r is Err ==> ({
                let pino = symlink_parent_dir.num as int;
                let nm = symlink_name.spec_bytes();
                let tp = symlink_target_path.spec_bytes();
                let p0 = old(self).inode_at(pino);
                let e = r->Err_0;
                if !old(self).ino_ok(pino) {
                    e == ExtReport::Message(ExtEtMessage::BadInodeNumber) && *final(self) == *old(self)
                } else if !(old(self).ino_allocated(pino) && p0.spec_is_dir()) {
                    e == ExtReport::Message(ExtEtMessage::NoDirectory) && *final(self) == *old(self)
                } else if !name_wf_bytes(nm) {
                    (if nm.len() > 255 {
                        e == ExtReport::Errno(ExtError::ENAMETOOLONG)
                    } else {
                        e == ExtReport::Errno(ExtError::EINVAL)
                    }) && *final(self) == *old(self)
                } else if tp.len() >= 60 {
                    e == ExtReport::Errno(ExtError::ENAMETOOLONG) && *final(self) == *old(self)
                } else if exists|k: int| 0 <= k < tp.len() && tp[k] == 0u8 {
                    e == ExtReport::Errno(ExtError::EINVAL) && *final(self) == *old(self)
                } else {
                    let dirfail = {
                        &&& pack_step(pack_len(p0.entries@), spec_rec_len(nm.len()))
                            > p0.blocks@.len() * 1024
                        &&& (if p0.blocks@.len() >= 12 {
                            e == ExtReport::Message(ExtEtMessage::DirNoSpace)
                        } else {
                            e == ExtReport::Message(ExtEtMessage::BlockAllocFail) && forall|b: int|
                                1 <= b < old(self).sb.blocks_count ==> !old(self).block_free(b)
                        })
                    };
                    match symlink_inode {
                        Some(existing) => {
                            if !old(self).ino_ok(existing.num as int) {
                                e == ExtReport::Message(ExtEtMessage::BadInodeNumber) && *final(self)
                                    == *old(self)
                            } else {
                                dirfail
                            }
                        },
                        None => {
                            if forall|x: int|
                                old(self).sb.first_ino <= x <= old(self).sb.inodes_count
                                    ==> old(self).ino_allocated(x) {
                                e == ExtReport::Message(ExtEtMessage::InodeAllocFail) && *final(self)
                                    == *old(self)
                            } else {
                                dirfail
                            }
                        },
                    }
                }
            }),
    {
        let pino = symlink_parent_dir.num;
        if pino == 0 || pino > self.sb.inodes_count {
            return Err(ExtReport::Message(ExtEtMessage::BadInodeNumber));
        }
        let pidx: usize = (pino - 1) as usize;
        let allocated = self.inode_bitmap.test_ino(pino);
        let is_dir = (self.inodes[pidx].mode as u32) & 0xF000u32 == LINUX_S_IFDIR;
        if !(allocated && is_dir) {
            return Err(ExtReport::Message(ExtEtMessage::NoDirectory));
        }
        let name_bytes = symlink_name.as_bytes();
        match validate_name(name_bytes) {
            Ok(()) => (),
            Err(e) => {
                return Err(e);
            },
        }
        let target_bytes = symlink_target_path.as_bytes();
        if target_bytes.len() >= 60 {
            return Err(ExtReport::Errno(ExtError::ENAMETOOLONG));
        }
        let tn = target_bytes.len();
        let mut k: usize = 0;
        while k < tn
            invariant
                k <= tn,
                target_bytes@.len() == tn,
                forall|x: int| 0 <= x < k ==> #[trigger] target_bytes@[x] != 0u8,
            decreases tn - k,
        {
            if target_bytes[k] == 0u8 {
                return Err(ExtReport::Errno(ExtError::EINVAL));
            }
            k = k + 1;
        }
        let ino: u32 = match symlink_inode {
            Some(existing) => {
                if existing.num == 0 || existing.num > self.sb.inodes_count {
                    return Err(ExtReport::Message(ExtEtMessage::BadInodeNumber));
                }
                existing.num
            },
            None => {
                let n = match self.scan_free_ino() {
                    Some(n) => n,
                    None => {
                        return Err(ExtReport::Message(ExtEtMessage::InodeAllocFail));
                    },
                };
                let mut rec = ExtInodeData::zeroed();
                rec.mode = 0xA1FFu16;  // a symlink with mode 0777
                let now = now_epoch_secs();
                rec.atime = now;
                rec.ctime = now;
                rec.mtime = now;
                rec.links_count = 1;
                rec.size = tn as u32;
                rec.symlink_target = vstd::slice::slice_to_vec(target_bytes);
                let ghost sa = *self;
                self.inode_bitmap.mark_ino(n);
                let nidx: usize = (n - 1) as usize;
                let _old_rec = vec_replace(&mut self.inodes, nidx, rec);
                proof {
                    let s1 = *self;
                    let fi = n as int;
                    assert((0xA1FFu16 as u32) & 0xF000u32 == 0xA000u32) by (bit_vector);
                    let d1 = s1.inode_at(fi);
                    assert(d1.spec_is_symlink() && !d1.spec_is_dir());
                    assert forall|i: int|
                        1 <= i <= s1.sb.inodes_count && #[trigger] s1.ino_allocated(
                            i,
                        ) implies s1.rec_wf(s1.inode_at(i)) by {
                        if i == fi {
                            assert(d1.blocks@.len() == 0);
                            assert(s1.blocks_wf(d1.blocks@));
                            assert(s1.rec_wf(d1));
                        } else {
                            assert(sa.ino_allocated(i));
                            assert(sa.rec_wf(sa.inode_at(i)));
                            assert(s1.inode_at(i) == sa.inode_at(i));
                            assert(s1.blocks_wf(s1.inode_at(i).blocks@));
                        }
                    }
                    assert forall|i1: int, i2: int|
                        1 <= i1 <= s1.sb.inodes_count && 1 <= i2 <= s1.sb.inodes_count && i1 != i2
                            && #[trigger] s1.ino_allocated(i1) && #[trigger] s1.ino_allocated(
                            i2,
                        ) implies seqs_disjoint(s1.inode_at(i1).blocks@, s1.inode_at(i2).blocks@) by {
                        if i1 == fi || i2 == fi {
                            let o = if i1 == fi {
                                i2
                            } else {
                                i1
                            };
                            assert(sa.ino_allocated(o));
                            assert(s1.inode_at(fi).blocks@.len() == 0);
                            assert(s1.inode_at(o).blocks@ == sa.inode_at(o).blocks@);
                        } else {
                            assert(sa.ino_allocated(i1) && sa.ino_allocated(i2));
                            assert(s1.inode_at(i1).blocks@ == sa.inode_at(i1).blocks@);
                            assert(s1.inode_at(i2).blocks@ == sa.inode_at(i2).blocks@);
                        }
                    }
                }
                n
            },
        };
        let ghost smid = *self;
        let res = self.dir_add_entry(pino, name_bytes, ino, true);
        proof {
            if res is Err {
                let e = res->Err_0;
                let p0 = old(self).inode_at(pino as int);
                assert(smid.inode_at(pino as int) == p0);
                assert(smid.block_bitmap == old(self).block_bitmap);
                assert(pack_step(pack_len(p0.entries@), spec_rec_len(name_bytes@.len()))
                    > p0.blocks@.len() * 1024);
                if p0.blocks@.len() >= 12 {
                    assert(e == ExtReport::Message(ExtEtMessage::DirNoSpace));
                } else {
                    assert(e == ExtReport::Message(ExtEtMessage::BlockAllocFail));
                    assert forall|bb: int|
                        1 <= bb < old(self).sb.blocks_count implies !old(self).block_free(bb) by {
                        assert(!smid.block_free(bb));
                    }
                }
                if symlink_inode is None {
                    // The free-inode scan handed `ino` out, so the inode
                    // space was not exhausted.
                    assert(!old(self).ino_allocated(ino as int));
                    assert(old(self).sb.first_ino <= ino <= old(self).sb.inodes_count);
                }
            }
        }
        res
    }
}


} // verus!
