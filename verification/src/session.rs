//! The filesystem session: the sole owner of a mounted image and of
//! every structural read or mutation on it.
//!
//! The session holds the typed state of the image — superblock, the two
//! allocation bitmaps, the inode table, and the data blocks — together
//! with the I/O channel carrying the raw image bytes.  Flushing
//! serialises the typed state into the channel; opening parses and
//! validates the channel's bytes into typed state.  A well-formedness
//! predicate, [`ExtFilesystem::wf`], captures the structural agreement
//! of the allocation structures (bitmaps, block ownership, directory
//! payloads) and every mutating operation preserves it.

use vstd::prelude::*;

use crate::EXT2_ROOT_INO;
use crate::EXT4_EXTENTS_FL;
use crate::block::ExtBlockBitmap;
use crate::file::ExtFile;
use crate::file::ExtFileState;
use crate::geometry::Superblock;
use crate::inode::ExtDirEntry;
use crate::inode::ExtInode;
use crate::inode::ExtInodeBitmap;
use crate::inode::ExtInodeData;
use crate::inode::spec_rec_len;
use crate::io::IoChannel;
use crate::magic_is_valid;
use crate::messages::ExtError;
use crate::messages::ExtEtMessage;
use crate::messages::ExtReport;

verus! {

/// Replace the element at `i`, handing the old element back.
pub fn vec_replace<T>(v: &mut Vec<T>, i: usize, value: T) -> (old_val: T)
    requires
        i < old(v)@.len(),
    ensures
        final(v)@ == old(v)@.update(i as int, value),
        old_val == old(v)@[i as int],
{
    v.push(value);
    let r = v.swap_remove(i);
    proof {
        assert(final(v)@ =~= old(v)@.update(i as int, value));
    }
    r
}

/// Copy a vector of block numbers.
pub fn copy_u64_vec(v: &Vec<u64>) -> (r: Vec<u64>)
    ensures
        r@ == v@,
{
    let mut out: Vec<u64> = Vec::new();
    let mut j: usize = 0;
    while j < v.len()
        invariant
            j <= v@.len(),
            out@ == v@.subrange(0, j as int),
        decreases v@.len() - j,
    {
        out.push(v[j]);
        assert(out@ =~= v@.subrange(0, j + 1));
        j = j + 1;
    }
    proof {
        assert(out@ =~= v@);
    }
    out
}

/// Copy a byte vector.
pub fn copy_u8_vec(v: &Vec<u8>) -> (r: Vec<u8>)
    ensures
        r@ == v@,
{
    let mut out: Vec<u8> = Vec::new();
    let mut j: usize = 0;
    while j < v.len()
        invariant
            j <= v@.len(),
            out@ == v@.subrange(0, j as int),
        decreases v@.len() - j,
    {
        out.push(v[j]);
        assert(out@ =~= v@.subrange(0, j + 1));
        j = j + 1;
    }
    proof {
        assert(out@ =~= v@);
    }
    out
}

/// Field-for-field equality of two directory-entry sequences.
pub open spec fn entries_eq(a: Seq<ExtDirEntry>, b: Seq<ExtDirEntry>) -> bool {
    &&& a.len() == b.len()
    &&& forall|k: int| #![trigger a[k]]
        0 <= k < a.len() ==> a[k].inode == b[k].inode && a[k].name@ == b[k].name@
}

/// Field-for-field equality of two inode records.
pub open spec fn rec_eq(a: ExtInodeData, b: ExtInodeData) -> bool {
    &&& a.mode == b.mode
    &&& a.uid == b.uid
    &&& a.size == b.size
    &&& a.atime == b.atime
    &&& a.ctime == b.ctime
    &&& a.mtime == b.mtime
    &&& a.dtime == b.dtime
    &&& a.gid == b.gid
    &&& a.links_count == b.links_count
    &&& a.flags == b.flags
    &&& a.generation == b.generation
    &&& a.blocks@ == b.blocks@
    &&& entries_eq(a.entries@, b.entries@)
    &&& a.symlink_target@ == b.symlink_target@
}

/// Copy a vector of directory entries.
pub fn copy_entries(v: &Vec<ExtDirEntry>) -> (r: Vec<ExtDirEntry>)
    ensures
        entries_eq(r@, v@),
{
    let mut out: Vec<ExtDirEntry> = Vec::new();
    let mut j: usize = 0;
    while j < v.len()
        invariant
            j <= v@.len(),
            out@.len() == j,
            forall|k: int| #![trigger out@[k]]
                0 <= k < j ==> out@[k].inode == v@[k].inode && out@[k].name@ == v@[k].name@,
        decreases v@.len() - j,
    {
        let e = ExtDirEntry { inode: v[j].inode, name: copy_u8_vec(&v[j].name) };
        out.push(e);
        j = j + 1;
    }
    out
}

/// Copy an inode record.
pub fn copy_rec(d: &ExtInodeData) -> (r: ExtInodeData)
    ensures
        rec_eq(r, *d),
{
    ExtInodeData {
        mode: d.mode,
        uid: d.uid,
        size: d.size,
        atime: d.atime,
        ctime: d.ctime,
        mtime: d.mtime,
        dtime: d.dtime,
        gid: d.gid,
        links_count: d.links_count,
        flags: d.flags,
        generation: d.generation,
        blocks: copy_u64_vec(&d.blocks),
        entries: copy_entries(&d.entries),
        symlink_target: copy_u8_vec(&d.symlink_target),
    }
}

/// Two block lists share no block number.
pub open spec fn seqs_disjoint(s1: Seq<u64>, s2: Seq<u64>) -> bool {
    forall|a: int, b: int|
        0 <= a < s1.len() && 0 <= b < s2.len() ==> #[trigger] s1[a] != #[trigger] s2[b]
}

/// The bytes of an object addressed by `blocks`, in file order: the
/// concatenation of its data blocks.
pub open spec fn cat_blocks(data: Seq<Seq<u8>>, blocks: Seq<u64>) -> Seq<u8>
    decreases blocks.len(),
{
    if blocks.len() == 0 {
        Seq::<u8>::empty()
    } else {
        data[blocks[0] as int] + cat_blocks(data, blocks.drop_first())
    }
}

/// Space the entries of a directory occupy when packed into directory
/// blocks, not counting the padding of the final entry to its block end.
pub open spec fn dir_space(entries: Seq<ExtDirEntry>) -> nat
    decreases entries.len(),
{
    if entries.len() == 0 {
        0
    } else {
        spec_rec_len(entries[0].name@.len()) + dir_space(entries.drop_first())
    }
}

/// Entry space is additive over concatenation.
pub proof fn lemma_dir_space_concat(a: Seq<ExtDirEntry>, b: Seq<ExtDirEntry>)
    ensures
        dir_space(a + b) == dir_space(a) + dir_space(b),
    decreases a.len(),
{
    if a.len() == 0 {
        assert(a + b =~= b);
    } else {
        assert((a + b)[0] == a[0]);
        assert((a + b).drop_first() =~= a.drop_first() + b);
        lemma_dir_space_concat(a.drop_first(), b);
    }
}

/// Splitting a sequence of entries splits its space.
pub proof fn lemma_dir_space_split(s: Seq<ExtDirEntry>, i: int)
    requires
        0 <= i <= s.len(),
    ensures
        dir_space(s) == dir_space(s.take(i)) + dir_space(s.skip(i)),
{
    assert(s =~= s.take(i) + s.skip(i));
    lemma_dir_space_concat(s.take(i), s.skip(i));
}

/// One more entry adds exactly its record length.
pub proof fn lemma_dir_space_push(s: Seq<ExtDirEntry>, e: ExtDirEntry)
    ensures
        dir_space(s.push(e)) == dir_space(s) + spec_rec_len(e.name@.len()),
{
    assert(s.push(e) =~= s + seq![e]);
    lemma_dir_space_concat(s, seq![e]);
    assert(seq![e].len() == 1 && seq![e][0] == e);
    assert(seq![e].drop_first() =~= Seq::<ExtDirEntry>::empty());
    assert(dir_space(Seq::<ExtDirEntry>::empty()) == 0);
    assert(dir_space(seq![e]) == spec_rec_len(e.name@.len()));
}

/// Removing an entry takes away exactly its record length.
pub proof fn lemma_dir_space_remove(s: Seq<ExtDirEntry>, i: int)
    requires
        0 <= i < s.len(),
    ensures
        dir_space(s.remove(i)) + spec_rec_len(s[i].name@.len()) == dir_space(s),
{
    assert(s.remove(i) =~= s.take(i) + s.skip(i + 1));
    lemma_dir_space_concat(s.take(i), s.skip(i + 1));
    lemma_dir_space_split(s, i);
    assert(s.skip(i)[0] == s[i]);
    assert(s.skip(i).drop_first() =~= s.skip(i + 1));
    assert(dir_space(s.skip(i)) == spec_rec_len(s[i].name@.len()) + dir_space(s.skip(i + 1)));
}

/// Entry sequences that agree field for field occupy the same space.
pub proof fn lemma_dir_space_congruence(a: Seq<ExtDirEntry>, b: Seq<ExtDirEntry>)
    requires
        entries_eq(a, b),
    ensures
        dir_space(a) == dir_space(b),
    decreases a.len(),
{
    if a.len() != 0 {
        assert(a[0].inode == b[0].inode && a[0].name@ == b[0].name@);
        assert(entries_eq(a.drop_first(), b.drop_first())) by {
            assert forall|k: int|
                0 <= k < a.drop_first().len() implies #[trigger] a.drop_first()[k].inode
                == b.drop_first()[k].inode && a.drop_first()[k].name@ == b.drop_first()[k].name@ by {
                assert(a[k + 1].inode == b[k + 1].inode && a[k + 1].name@ == b[k + 1].name@);
            }
        }
        lemma_dir_space_congruence(a.drop_first(), b.drop_first());
    }
}

/// One step of greedy directory packing: the packed length after an
/// entry of record length `rl` joins a packing of length `l`.  An
/// entry never splits across a block boundary: when it does not fit in
/// the current block's remainder, that block is closed (its tail
/// becomes padding) and the entry starts the next block.
pub open spec fn pack_step(l: nat, rl: nat) -> nat {
    if l % 1024 + rl <= 1024 {
        l + rl
    } else {
        (l / 1024 + 1) * 1024 + rl
    }
}

/// The packed length of a directory's entries: the bytes consumed by
/// packing them greedily, in order, into 1024-byte blocks — padding at
/// closed block ends included.  A directory's entries fit its blocks
/// exactly when this is at most the blocks' total size.
pub open spec fn pack_len(entries: Seq<ExtDirEntry>) -> nat
    decreases entries.len(),
{
    if entries.len() == 0 {
        0
    } else {
        pack_step(pack_len(entries.drop_last()), spec_rec_len(entries.last().name@.len()))
    }
}

/// Packing continued from an arbitrary starting length, front first;
/// the induction form of [`pack_len`].
pub open spec fn pack_from(l: nat, entries: Seq<ExtDirEntry>) -> nat
    decreases entries.len(),
{
    if entries.len() == 0 {
        l
    } else {
        pack_from(
            pack_step(l, spec_rec_len(entries[0].name@.len())),
            entries.drop_first(),
        )
    }
}

/// A packing step consumes at least the entry itself.
pub proof fn lemma_pack_step_ge(l: nat, rl: nat)
    ensures
        pack_step(l, rl) >= l + rl,
{
    if !(l % 1024 + rl <= 1024) {
        vstd::arithmetic::div_mod::lemma_fundamental_div_mod(l as int, 1024);
        vstd::arithmetic::div_mod::lemma_mod_bound(l as int, 1024);
    }
}

/// A packing step is monotone in the length packed so far.
pub proof fn lemma_pack_step_mono(l1: nat, l2: nat, rl: nat)
    requires
        l1 <= l2,
    ensures
        pack_step(l1, rl) <= pack_step(l2, rl),
{
    vstd::arithmetic::div_mod::lemma_fundamental_div_mod(l1 as int, 1024);
    vstd::arithmetic::div_mod::lemma_fundamental_div_mod(l2 as int, 1024);
    vstd::arithmetic::div_mod::lemma_mod_bound(l1 as int, 1024);
    vstd::arithmetic::div_mod::lemma_mod_bound(l2 as int, 1024);
    lemma_pack_step_ge(l1, rl);
    lemma_pack_step_ge(l2, rl);
    if !(l1 % 1024 + rl <= 1024) {
        assert(l1 as int / 1024 <= l2 as int / 1024) by (nonlinear_arith)
            requires
                l1 <= l2,
                l1 as int == 1024 * (l1 as int / 1024) + (l1 as int % 1024),
                l2 as int == 1024 * (l2 as int / 1024) + (l2 as int % 1024),
                0 <= l1 as int % 1024 < 1024,
                0 <= l2 as int % 1024 < 1024,
        ;
        if l1 as int / 1024 == l2 as int / 1024 {
            assert(l2 % 1024 >= l1 % 1024);
        } else {
            assert(l2 >= (l1 as int / 1024 + 1) * 1024) by (nonlinear_arith)
                requires
                    l2 as int / 1024 >= l1 as int / 1024 + 1,
                    l2 as int == 1024 * (l2 as int / 1024) + (l2 as int % 1024),
                    0 <= l2 as int % 1024,
            ;
        }
    }
}

/// Packing onward never shrinks the length.
pub proof fn lemma_pack_from_ge(l: nat, s: Seq<ExtDirEntry>)
    ensures
        pack_from(l, s) >= l,
    decreases s.len(),
{
    if s.len() > 0 {
        lemma_pack_step_ge(l, spec_rec_len(s[0].name@.len()));
        lemma_pack_from_ge(pack_step(l, spec_rec_len(s[0].name@.len())), s.drop_first());
    }
}

/// Packing onward is monotone in the starting length.
pub proof fn lemma_pack_from_mono(l1: nat, l2: nat, s: Seq<ExtDirEntry>)
    requires
        l1 <= l2,
    ensures
        pack_from(l1, s) <= pack_from(l2, s),
    decreases s.len(),
{
    if s.len() > 0 {
        let rl = spec_rec_len(s[0].name@.len());
        lemma_pack_step_mono(l1, l2, rl);
        lemma_pack_from_mono(pack_step(l1, rl), pack_step(l2, rl), s.drop_first());
    }
}

/// Appending one entry packs it after everything before it.
pub proof fn lemma_pack_from_push(l: nat, s: Seq<ExtDirEntry>, e: ExtDirEntry)
    ensures
        pack_from(l, s.push(e)) == pack_step(pack_from(l, s), spec_rec_len(e.name@.len())),
    decreases s.len(),
{
    if s.len() == 0 {
        assert(s.push(e)[0] == e);
        assert(s.push(e).drop_first() =~= Seq::<ExtDirEntry>::empty());
        assert(pack_from(l, s.push(e)) == pack_from(
            pack_step(l, spec_rec_len(e.name@.len())),
            Seq::<ExtDirEntry>::empty(),
        ));
    } else {
        let rl0 = spec_rec_len(s[0].name@.len());
        assert(s.push(e)[0] == s[0]);
        assert(s.push(e).drop_first() =~= s.drop_first().push(e));
        lemma_pack_from_push(pack_step(l, rl0), s.drop_first(), e);
        assert(pack_from(l, s.push(e)) == pack_from(
            pack_step(l, rl0),
            s.push(e).drop_first(),
        ));
        assert(pack_from(l, s) == pack_from(pack_step(l, rl0), s.drop_first()));
    }
}

/// The two packing forms agree.
pub proof fn lemma_pack_len_is_from(s: Seq<ExtDirEntry>)
    ensures
        pack_len(s) == pack_from(0, s),
    decreases s.len(),
{
    if s.len() > 0 {
        lemma_pack_len_is_from(s.drop_last());
        lemma_pack_from_push(0, s.drop_last(), s.last());
        assert(s.drop_last().push(s.last()) =~= s);
    }
}

/// Packing splits over concatenation.
pub proof fn lemma_pack_from_concat(l: nat, a: Seq<ExtDirEntry>, b: Seq<ExtDirEntry>)
    ensures
        pack_from(l, a + b) == pack_from(pack_from(l, a), b),
    decreases a.len(),
{
    if a.len() == 0 {
        assert(a + b =~= b);
    } else {
        assert((a + b)[0] == a[0]);
        assert((a + b).drop_first() =~= a.drop_first() + b);
        lemma_pack_from_concat(pack_step(l, spec_rec_len(a[0].name@.len())), a.drop_first(), b);
    }
}

/// One more entry packs to exactly one more step.
pub proof fn lemma_pack_len_push(s: Seq<ExtDirEntry>, e: ExtDirEntry)
    ensures
        pack_len(s.push(e)) == pack_step(pack_len(s), spec_rec_len(e.name@.len())),
{
    assert(s.push(e).drop_last() =~= s);
    assert(s.push(e).last() == e);
}

/// A prefix packs no longer than the whole.
pub proof fn lemma_pack_len_take(s: Seq<ExtDirEntry>, i: int)
    requires
        0 <= i <= s.len(),
    ensures
        pack_len(s.take(i)) <= pack_len(s),
{
    lemma_pack_len_is_from(s);
    lemma_pack_len_is_from(s.take(i));
    assert(s =~= s.take(i) + s.skip(i));
    lemma_pack_from_concat(0, s.take(i), s.skip(i));
    lemma_pack_from_ge(pack_from(0, s.take(i)), s.skip(i));
}

/// Removing an entry never lengthens the packing.
pub proof fn lemma_pack_len_remove(s: Seq<ExtDirEntry>, i: int)
    requires
        0 <= i < s.len(),
    ensures
        pack_len(s.remove(i)) <= pack_len(s),
{
    let a = s.take(i);
    let b = s.skip(i + 1);
    let rl = spec_rec_len(s[i].name@.len());
    lemma_pack_len_is_from(s);
    lemma_pack_len_is_from(s.remove(i));
    assert(s.remove(i) =~= a + b);
    lemma_pack_from_concat(0, a, b);
    assert(a.push(s[i]) =~= s.take(i + 1));
    lemma_pack_from_push(0, a, s[i]);
    assert(s =~= s.take(i + 1) + b);
    lemma_pack_from_concat(0, s.take(i + 1), b);
    lemma_pack_len_is_from(a);
    lemma_pack_len_is_from(s.take(i + 1));
    lemma_pack_step_ge(pack_from(0, a), rl);
    lemma_pack_from_mono(pack_from(0, a), pack_step(pack_from(0, a), rl), b);
}

/// The bare record lengths never exceed the packed length.
pub proof fn lemma_dir_space_le_pack(s: Seq<ExtDirEntry>)
    ensures
        dir_space(s) <= pack_len(s),
    decreases s.len(),
{
    if s.len() > 0 {
        lemma_dir_space_le_pack(s.drop_last());
        lemma_dir_space_push(s.drop_last(), s.last());
        assert(s.drop_last().push(s.last()) =~= s);
        lemma_pack_step_ge(pack_len(s.drop_last()), spec_rec_len(s.last().name@.len()));
    }
}

/// Entry sequences that agree field for field pack to the same length.
pub proof fn lemma_pack_len_congruence(a: Seq<ExtDirEntry>, b: Seq<ExtDirEntry>)
    requires
        entries_eq(a, b),
    ensures
        pack_len(a) == pack_len(b),
    decreases a.len(),
{
    if a.len() != 0 {
        assert(a.last().name@ == b.last().name@) by {
            assert(a[a.len() - 1].inode == b[a.len() - 1].inode && a[a.len() - 1].name@ == b[a.len()
                - 1].name@);
        }
        assert(entries_eq(a.drop_last(), b.drop_last())) by {
            assert forall|k: int|
                0 <= k < a.drop_last().len() implies #[trigger] a.drop_last()[k].inode
                == b.drop_last()[k].inode && a.drop_last()[k].name@ == b.drop_last()[k].name@ by {
                assert(a[k].inode == b[k].inode && a[k].name@ == b[k].name@);
            }
        }
        lemma_pack_len_congruence(a.drop_last(), b.drop_last());
    }
}

/// The longest extent one on-disk record encodes; a longer range of
/// consecutive blocks is split into several runs.
pub const EXT_MAX_RUN: u32 = 32767;

/// Greedy extent-run accounting for a block list: the number of runs
/// and the length of the run in progress, a run being a range of
/// consecutive block numbers capped at [`EXT_MAX_RUN`].
pub open spec fn spec_runs_state(blocks: Seq<u64>) -> (nat, nat)
    decreases blocks.len(),
{
    if blocks.len() == 0 {
        (0nat, 0nat)
    } else if blocks.len() == 1 {
        (1nat, 1nat)
    } else {
        let p = spec_runs_state(blocks.drop_last());
        if blocks.last() == blocks[blocks.len() - 2] + 1 && p.1 < EXT_MAX_RUN {
            (p.0, (p.1 + 1) as nat)
        } else {
            ((p.0 + 1) as nat, 1nat)
        }
    }
}

/// The number of extent runs a block list needs.
pub open spec fn spec_runs(blocks: Seq<u64>) -> nat {
    spec_runs_state(blocks).0
}

/// The run count of a prefix never exceeds the whole's.
pub proof fn lemma_runs_take_mono(blocks: Seq<u64>, i: int)
    requires
        0 <= i <= blocks.len(),
    ensures
        spec_runs(blocks.take(i)) <= spec_runs(blocks),
    decreases blocks.len() - i,
{
    if i < blocks.len() {
        lemma_runs_take_mono(blocks, i + 1);
        let t = blocks.take(i + 1);
        assert(t.drop_last() =~= blocks.take(i));
        assert(spec_runs(blocks.take(i)) <= spec_runs(t));
    } else {
        assert(blocks.take(i) =~= blocks);
    }
}

/// The filesystem session.  Exactly one session owns an image at a
/// time; every structural read and mutation goes through it, and
/// mutations take the session exclusively, which is the locking
/// discipline the on-disk structures need.
#[derive(Debug)]
pub struct ExtFilesystem {
    /// The superblock.
    pub sb: Superblock,
    /// Session flag bits (dirty markers).
    pub flags: i32,
    /// The inode allocation bitmap.
    pub inode_bitmap: ExtInodeBitmap,
    /// The block allocation bitmap.
    pub block_bitmap: ExtBlockBitmap,
    /// The inode table; index `i` holds inode number `i + 1`.
    pub inodes: Vec<ExtInodeData>,
    /// The data blocks; entry `b` holds block `b`'s bytes (empty for
    /// blocks whose content the typed state derives, such as metadata).
    pub data: Vec<Vec<u8>>,
    /// The channel to the backing store holding the raw image bytes.
    pub channel: IoChannel,
}

/// Session flag: the superblock must be written back.
pub const EXT2_FLAG_DIRTY: i32 = 0x04;

/// Session flag: the filesystem was changed.
pub const EXT2_FLAG_CHANGED: i32 = 0x02;

/// Session flag: the inode bitmap must be written back.
pub const EXT2_FLAG_IB_DIRTY: i32 = 0x10;

/// Session flag: the block bitmap must be written back.
pub const EXT2_FLAG_BB_DIRTY: i32 = 0x20;

impl ExtFilesystem {
    /// Total number of inodes.
    pub open spec fn inode_count(self) -> int {
        self.sb.inodes_count as int
    }

    /// Total number of blocks.
    pub open spec fn block_count(self) -> int {
        self.sb.blocks_count as int
    }

    /// Whether `ino` is a valid inode number.
    pub open spec fn ino_ok(self, ino: int) -> bool {
        1 <= ino <= self.inode_count()
    }

    /// Whether inode `ino` is marked allocated.
    pub open spec fn ino_allocated(self, ino: int) -> bool {
        self.inode_bitmap.bits@[ino - 1]
    }

    /// The record of inode `ino`.
    pub open spec fn inode_at(self, ino: int) -> ExtInodeData {
        self.inodes@[ino - 1]
    }

    /// Whether block `b` is marked free.
    pub open spec fn block_free(self, b: int) -> bool {
        !self.block_bitmap.bits@[b]
    }

    /// The data blocks as byte sequences.
    pub open spec fn data_view(self) -> Seq<Seq<u8>> {
        Seq::new(self.data@.len(), |b: int| self.data@[b]@)
    }

    /// The raw bytes of inode `ino`'s blocks, in file order.
    pub open spec fn raw_content(self, ino: int) -> Seq<u8> {
        cat_blocks(self.data_view(), self.inode_at(ino).blocks@)
    }

    /// The content of the file at inode `ino`: its raw block bytes,
    /// truncated to the recorded size.
    pub open spec fn file_content(self, ino: int) -> Seq<u8> {
        self.raw_content(ino).take(self.inode_at(ino).size as int)
    }

    /// Every block of the list is a data-area block of the image,
    /// marked in use, distinct from the others, with its bytes held.
    pub open spec fn blocks_wf(self, blocks: Seq<u64>) -> bool {
        &&& forall|j: int|
            0 <= j < blocks.len() ==> 1 <= #[trigger] blocks[j] < self.sb.blocks_count
                && !self.sb.is_metadata_block(blocks[j] as int) && self.block_bitmap.bits@[blocks[j]
                as int] && self.data@[blocks[j] as int]@.len() == 1024
        &&& forall|j1: int, j2: int|
            0 <= j1 < j2 < blocks.len() ==> #[trigger] blocks[j1] != #[trigger] blocks[j2]
    }

    /// A directory entry is well formed: a name of one to 255 bytes
    /// holding neither a slash nor a NUL, pointing at an inode number in
    /// range.
    pub open spec fn entry_wf(self, e: ExtDirEntry) -> bool {
        &&& 1 <= e.name@.len() <= 255
        &&& forall|k: int| 0 <= k < e.name@.len() ==> #[trigger] e.name@[k] != 0x2Fu8 && e.name@[k] != 0u8
        &&& 1 <= e.inode <= self.sb.inodes_count
    }

    /// A live inode record is well formed: its blocks are valid, and its
    /// payload matches its type — directories carry fitting entries and
    /// a block-multiple size, fast symlinks carry a short target and no
    /// blocks, everything else carries neither entries nor target.
    pub open spec fn rec_wf(self, d: ExtInodeData) -> bool {
        &&& self.blocks_wf(d.blocks@)
        &&& if d.spec_is_dir() {
            &&& forall|k: int| 0 <= k < d.entries@.len() ==> self.entry_wf(#[trigger] d.entries@[k])
            &&& dir_space(d.entries@) <= d.blocks@.len() * 1024
            &&& pack_len(d.entries@) <= d.blocks@.len() * 1024
            &&& 1 <= d.blocks@.len() <= 12
            &&& d.size == d.blocks@.len() * 1024
            &&& d.symlink_target@.len() == 0
        } else if d.spec_is_symlink() {
            &&& d.entries@.len() == 0
            &&& d.blocks@.len() == 0
            &&& d.symlink_target@.len() < 60
            &&& forall|k: int| 0 <= k < d.symlink_target@.len() ==> #[trigger] d.symlink_target@[k] != 0u8
            &&& d.size == d.symlink_target@.len()
        } else {
            &&& d.entries@.len() == 0
            &&& d.symlink_target@.len() == 0
            &&& d.size <= d.blocks@.len() * 1024
            &&& (d.flags & EXT4_EXTENTS_FL == 0 ==> d.blocks@.len() <= 12)
            &&& (d.flags & EXT4_EXTENTS_FL != 0 ==> spec_runs(d.blocks@) <= 4)
        }
    }

    /// Structural consistency of the whole session: counts agree, the
    /// bitmap tags are recognised, every metadata block is marked in
    /// use, every live inode's record is well formed, and no two live
    /// inodes share a block.
    pub open spec fn wf(self) -> bool {
        &&& self.sb.wf()
        &&& self.inode_bitmap.bits@.len() == self.sb.inodes_count
        &&& self.block_bitmap.bits@.len() == self.sb.blocks_count
        &&& self.inodes@.len() == self.sb.inodes_count
        &&& self.data@.len() == self.sb.blocks_count
        &&& magic_is_valid(self.inode_bitmap.magic)
        &&& magic_is_valid(self.block_bitmap.magic)
        &&& forall|b: int|
            0 <= b < self.sb.blocks_count && self.sb.is_metadata_block(b)
                ==> #[trigger] self.block_bitmap.bits@[b]
        &&& forall|i: int|
            1 <= i <= self.sb.inodes_count && #[trigger] self.ino_allocated(i) ==> self.rec_wf(
                self.inode_at(i),
            )
        &&& forall|i1: int, i2: int|
            1 <= i1 <= self.sb.inodes_count && 1 <= i2 <= self.sb.inodes_count && i1 != i2
                && #[trigger] self.ino_allocated(i1) && #[trigger] self.ino_allocated(i2)
                ==> seqs_disjoint(self.inode_at(i1).blocks@, self.inode_at(i2).blocks@)
    }

    /// The root directory's inode.
    pub fn root_inode(&self) -> (r: Result<ExtInode, ExtReport>)
        requires
            self.wf(),
        ensures
            match r {
                Ok(ino) => ino.num == EXT2_ROOT_INO && rec_eq(
                    ino.data,
                    self.inode_at(EXT2_ROOT_INO as int),
                ),
                Err(_) => false,
            },
    {
        self.read_inode(EXT2_ROOT_INO)
    }

    /// Read inode `inode` from the table.  No validation is applied
    /// beyond the bounds check: the record comes back as stored, and
    /// succeeds exactly when the number is in range.
    pub fn read_inode(&self, inode: u32) -> (r: Result<ExtInode, ExtReport>)
        requires
            self.wf(),
        ensures
            match r {
                Ok(ino) => self.ino_ok(inode as int) && ino.num == inode && rec_eq(
                    ino.data,
                    self.inode_at(inode as int),
                ),
                Err(e) => !self.ino_ok(inode as int) && e == ExtReport::Message(
                    ExtEtMessage::BadInodeNumber,
                ),
            },
    {
        if inode == 0 || inode > self.sb.inodes_count {
            return Err(ExtReport::Message(ExtEtMessage::BadInodeNumber));
        }
        let idx: usize = (inode - 1) as usize;
        let rec = copy_rec(&self.inodes[idx]);
        Ok(ExtInode { num: inode, data: rec })
    }

    /// Whether a replacement record for inode `ino` leaves the
    /// session's structural consistency intact: the addressing payloads
    /// (blocks, entries, symlink target) are unchanged, and the fields
    /// the record may freely change keep the type/size conditions.
    pub open spec fn rec_compatible(self, ino: int, d: ExtInodeData) -> bool {
        let cur = self.inode_at(ino);
        &&& d.blocks@ == cur.blocks@
        &&& entries_eq(d.entries@, cur.entries@)
        &&& d.symlink_target@ == cur.symlink_target@
        &&& d.mode == cur.mode
        &&& (if d.spec_is_dir() {
            d.size == cur.size
        } else if d.spec_is_symlink() {
            d.size == cur.size
        } else {
            &&& d.size <= d.blocks@.len() * 1024
            &&& (d.flags & EXT4_EXTENTS_FL == 0 ==> d.blocks@.len() <= 12)
            &&& (d.flags & EXT4_EXTENTS_FL != 0 ==> spec_runs(d.blocks@) <= 4)
        })
    }

    /// Write an inode record back to the table.  Raw: no validation is
    /// applied beyond the bounds check.  When the record keeps the
    /// addressing payloads of the stored one — as every in-library
    /// caller does — consistency of the session is preserved.
    pub fn write_inode(&mut self, inode: &ExtInode) -> (r: Result<(), ExtReport>)
        requires
            old(self).wf(),
        ensures
            match r {
                Ok(()) => old(self).ino_ok(inode.num as int) && final(self).inodes@ == old(
                    self,
                ).inodes@.update(inode.num - 1, final(self).inodes@[inode.num - 1]) && rec_eq(
                    final(self).inodes@[inode.num - 1],
                    inode.data,
                ),
                Err(e) => !old(self).ino_ok(inode.num as int) && e == ExtReport::Message(
                    ExtEtMessage::BadInodeNumber,
                ) && final(self).inodes@ == old(self).inodes@,
            },
            final(self).sb == old(self).sb,
            final(self).flags == old(self).flags,
            final(self).inode_bitmap == old(self).inode_bitmap,
            final(self).block_bitmap == old(self).block_bitmap,
            final(self).data@ == old(self).data@,
            final(self).channel.data@ == old(self).channel.data@,
            (r is Ok ==> old(self).rec_compatible(inode.num as int, inode.data)) ==> final(self).wf(),
    {
        if inode.num == 0 || inode.num > self.sb.inodes_count {
            return Err(ExtReport::Message(ExtEtMessage::BadInodeNumber));
        }
        let idx: usize = (inode.num - 1) as usize;
        let rec = copy_rec(&inode.data);
        let _old_rec = vec_replace(&mut self.inodes, idx, rec);
        proof {
            let s0 = *old(self);
            let s1 = *self;
            let ino = inode.num as int;
            if s0.rec_compatible(ino, inode.data) {
                let d0 = s0.inode_at(ino);
                let d1 = s1.inode_at(ino);
                assert(d1.blocks@ == d0.blocks@ && entries_eq(d1.entries@, d0.entries@)
                    && d1.symlink_target@ == d0.symlink_target@ && d1.mode == d0.mode);
                assert forall|i: int|
                    1 <= i <= s1.sb.inodes_count && #[trigger] s1.ino_allocated(i) implies s1.rec_wf(
                    s1.inode_at(i),
                ) by {
                    assert(s0.ino_allocated(i));
                    assert(s0.rec_wf(s0.inode_at(i)));
                    if i == ino {
                        assert(s1.blocks_wf(d1.blocks@));
                        if d1.spec_is_dir() {
                            assert(d0.spec_is_dir());
                            assert(s0.rec_wf(d0));
                            assert forall|k: int|
                                0 <= k < d1.entries@.len() implies s1.entry_wf(
                                #[trigger] d1.entries@[k],
                            ) by {
                                assert(s0.entry_wf(d0.entries@[k]));
                                assert(d1.entries@[k].inode == d0.entries@[k].inode
                                    && d1.entries@[k].name@ == d0.entries@[k].name@);
                            }
                            lemma_dir_space_congruence(d1.entries@, d0.entries@);
                            lemma_pack_len_congruence(d1.entries@, d0.entries@);
                        }
                        assert(s1.rec_wf(d1));
                    } else {
                        assert(s1.inode_at(i) == s0.inode_at(i));
                        assert(s1.blocks_wf(s1.inode_at(i).blocks@));
                    }
                }
                assert forall|i1: int, i2: int|
                    1 <= i1 <= s1.sb.inodes_count && 1 <= i2 <= s1.sb.inodes_count && i1 != i2
                        && #[trigger] s1.ino_allocated(i1) && #[trigger] s1.ino_allocated(
                        i2,
                    ) implies seqs_disjoint(s1.inode_at(i1).blocks@, s1.inode_at(i2).blocks@) by {
                    assert(s0.ino_allocated(i1) && s0.ino_allocated(i2));
                    assert(s1.inode_at(i1).blocks@ == s0.inode_at(i1).blocks@);
                    assert(s1.inode_at(i2).blocks@ == s0.inode_at(i2).blocks@);
                }
            }
        }
        Ok(())
    }

    /// Open a file handle on inode `inode`.  Succeeds exactly when the
    /// number is in range; the handle starts at position zero in the
    /// `Open` state.
    pub fn open_file(&self, inode: u32, flags: Option<i32>) -> (r: Result<ExtFile, ExtReport>)
        requires
            self.wf(),
        ensures
            match r {
                Ok(f) => self.ino_ok(inode as int) && f.ino == inode && f.pos == 0 && f.state
                    == ExtFileState::Open && f.flags == (match flags {
                    Some(fl) => fl,
                    None => 0,
                }),
                Err(e) => !self.ino_ok(inode as int) && e == ExtReport::Message(
                    ExtEtMessage::BadInodeNumber,
                ),
            },
    {
        if inode == 0 || inode > self.sb.inodes_count {
            return Err(ExtReport::Message(ExtEtMessage::BadInodeNumber));
        }
        let fl: i32 = match flags {
            Some(fl) => fl,
            None => 0,
        };
        Ok(ExtFile { ino: inode, pos: 0, flags: fl, state: ExtFileState::Open })
    }

    /// Close a file handle.  Closing an already-closed handle is an
    /// error and the handle is left as it is.
    pub fn close_file(&self, file: &mut ExtFile) -> (r: Result<(), ExtReport>)
        ensures
            match r {
                Ok(()) => old(file).state == ExtFileState::Open && final(file).state
                    == ExtFileState::Closed && final(file).ino == old(file).ino && final(file).pos
                    == old(file).pos && final(file).flags == old(file).flags,
                Err(e) => old(file).state == ExtFileState::Closed && e
                    == ExtReport::FileAlreadyClosed && *final(file) == *old(file),
            },
    {
        if file.state == ExtFileState::Closed {
            return Err(ExtReport::FileAlreadyClosed);
        }
        file.state = ExtFileState::Closed;
        Ok(())
    }

    /// The inode a file handle is bound to.
    pub fn get_inode(&self, file: &ExtFile) -> (r: Result<ExtInode, ExtReport>)
        requires
            self.wf(),
        ensures
            match r {
                Ok(ino) => self.ino_ok(file.ino as int) && ino.num == file.ino && rec_eq(
                    ino.data,
                    self.inode_at(file.ino as int),
                ),
                Err(e) => file.ino == 0 && e == ExtReport::Errno(ExtError::ENOENT) || !self.ino_ok(
                    file.ino as int,
                ) && e == ExtReport::Message(ExtEtMessage::BadInodeNumber),
            },
    {
        if file.ino == 0 {
            return Err(ExtReport::Errno(ExtError::ENOENT));
        }
        self.read_inode(file.ino)
    }

    /// The number of the inode a file handle is bound to.
    pub fn get_inode_number(&self, file: &ExtFile) -> (r: Result<u32, ExtReport>)
        ensures
            match r {
                Ok(n) => file.ino != 0 && n == file.ino,
                Err(e) => file.ino == 0 && e == ExtReport::Errno(ExtError::ENOENT),
            },
    {
        if file.ino == 0 {
            return Err(ExtReport::Errno(ExtError::ENOENT));
        }
        Ok(file.ino)
    }

    /// Flush a file handle.  The typed state is always current, so
    /// there is nothing to push down.
    pub fn flush_file(&self, _file: &ExtFile) -> (r: Result<(), ExtReport>)
        ensures
            r is Ok,
    {
        Ok(())
    }

    /// The session's inode allocation bitmap.
    pub fn inode_bitmap(&self) -> (r: &ExtInodeBitmap)
        ensures
            r == &self.inode_bitmap,
    {
        &self.inode_bitmap
    }

    /// The session's block allocation bitmap.
    pub fn block_bitmap(&self) -> (r: &ExtBlockBitmap)
        ensures
            r == &self.block_bitmap,
    {
        &self.block_bitmap
    }
}

} // verus!
