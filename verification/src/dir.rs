//! Path handling and directory walking: splitting a path into
//! components, looking a name up in a directory, and resolving a path
//! to an inode, following symlinks up to a fixed nesting depth.

use vstd::prelude::*;
use vstd::string::StringSliceAdditionalSpecFns;

use crate::EXT2_ROOT_INO;
use crate::inode::ExtDirEntry;
use crate::inode::ExtInode;
use crate::messages::ExtEtMessage;
use crate::messages::ExtReport;
use crate::session::ExtFilesystem;
use crate::session::copy_entries;
use crate::session::copy_u8_vec;
use crate::session::entries_eq;
use crate::session::rec_eq;

verus! {

/// How many nested symlinks a path walk follows before giving up with
/// the symlink-loop error.
pub const MAX_NESTED_LINKS: u32 = 8;

/// Index of the first slash in `p`, or `p.len()` when there is none.
pub open spec fn first_slash(p: Seq<u8>) -> int
    decreases p.len(),
{
    if p.len() == 0 {
        0
    } else if p[0] == 0x2Fu8 {
        0
    } else {
        1 + first_slash(p.drop_first())
    }
}

/// The first slash of `p` sits within the sequence.
pub proof fn lemma_first_slash_le(p: Seq<u8>)
    ensures
        0 <= first_slash(p) <= p.len(),
    decreases p.len(),
{
    if p.len() != 0 && p[0] != 0x2Fu8 {
        lemma_first_slash_le(p.drop_first());
    }
}

/// A position with no slash before it, and a slash (or the end) at it,
/// is the first slash.
pub proof fn lemma_first_slash_at(p: Seq<u8>, i: int)
    requires
        0 <= i <= p.len(),
        forall|j: int| 0 <= j < i ==> p[j] != 0x2Fu8,
        i < p.len() ==> p[i] == 0x2Fu8,
    ensures
        first_slash(p) == i,
    decreases i,
{
    if i == 0 {
        if p.len() > 0 {
            assert(p[0] == 0x2Fu8);
        }
    } else {
        assert(p[0] != 0x2Fu8);
        let q = p.drop_first();
        assert forall|j: int| 0 <= j < i - 1 implies q[j] != 0x2Fu8 by {
            assert(p[j + 1] != 0x2Fu8);
        }
        if i - 1 < q.len() {
            assert(q[i - 1] == p[i]);
        }
        lemma_first_slash_at(q, i - 1);
    }
}

/// The components of a path: the byte runs between slashes, with empty
/// runs dropped, so that repeated and trailing slashes carry no
/// meaning.
pub open spec fn spec_split_path(p: Seq<u8>) -> Seq<Seq<u8>>
    decreases p.len(),
    via spec_split_path_decreases
{
    if p.len() == 0 {
        Seq::<Seq<u8>>::empty()
    } else if p[0] == 0x2Fu8 {
        spec_split_path(p.drop_first())
    } else {
        let k = 1 + first_slash(p.drop_first());
        seq![p.take(k)] + spec_split_path(p.skip(k))
    }
}

#[via_fn]
proof fn spec_split_path_decreases(p: Seq<u8>) {
    if p.len() != 0 && p[0] != 0x2Fu8 {
        lemma_first_slash_le(p.drop_first());
    }
}

/// Split a path into its components.
pub fn split_path(path: &[u8]) -> (r: Vec<Vec<u8>>)
    ensures
        r.deep_view() == spec_split_path(path@),
    decreases path@.len(),
{
    if path.len() == 0 {
        let r: Vec<Vec<u8>> = Vec::new();
        assert(r.deep_view() =~~= spec_split_path(path@));
        return r;
    }
    if path[0] == 0x2Fu8 {
        let rest = &path[1..path.len()];
        assert(rest@ =~= path@.drop_first());
        return split_path(rest);
    }
    // Find the end of the first component.
    let mut k: usize = 1;
    while k < path.len() && path[k] != 0x2Fu8
        invariant
            1 <= k <= path@.len(),
            forall|j: int| 1 <= j < k ==> path@[j] != 0x2Fu8,
            path@[0] != 0x2Fu8,
        decreases path@.len() - k,
    {
        k = k + 1;
    }
    proof {
        let q = path@.drop_first();
        assert forall|j: int| 0 <= j < k - 1 implies q[j] != 0x2Fu8 by {
            assert(path@[j + 1] != 0x2Fu8);
        }
        if k < path@.len() {
            assert(q[k - 1] == path@[k as int]);
        }
        lemma_first_slash_at(q, k - 1);
    }
    let comp = vstd::slice::slice_to_vec(&path[0..k]);
    let rest = &path[k..path.len()];
    let mut tail = split_path(rest);
    let mut out: Vec<Vec<u8>> = Vec::new();
    out.push(comp);
    out.append(&mut tail);
    proof {
        lemma_first_slash_le(path@.drop_first());
        assert(comp@ =~= path@.take(k as int));
        assert(rest@ =~= path@.skip(k as int));
        assert(out.deep_view() =~~= spec_split_path(path@));
    }
    out
}

/// The inode number the first entry named `name` points at, if any.
pub open spec fn spec_lookup_entry(entries: Seq<ExtDirEntry>, name: Seq<u8>) -> Option<u32>
    decreases entries.len(),
{
    if entries.len() == 0 {
        Option::<u32>::None
    } else if entries[0].name@ == name {
        Option::Some(entries[0].inode)
    } else {
        spec_lookup_entry(entries.drop_first(), name)
    }
}

/// A lookup may skip a prefix with no matching entry.
pub proof fn lemma_lookup_skip(entries: Seq<ExtDirEntry>, name: Seq<u8>, i: int)
    requires
        0 <= i <= entries.len(),
        forall|j: int| 0 <= j < i ==> entries[j].name@ != name,
    ensures
        spec_lookup_entry(entries, name) == spec_lookup_entry(entries.skip(i), name),
    decreases i,
{
    if i > 0 {
        assert(entries[0].name@ != name);
        let q = entries.drop_first();
        assert forall|j: int| 0 <= j < i - 1 implies q[j].name@ != name by {
            assert(entries[j + 1].name@ != name);
        }
        lemma_lookup_skip(q, name, i - 1);
        assert(q.skip(i - 1) =~= entries.skip(i));
    } else {
        assert(entries.skip(0) =~= entries);
    }
}

/// A lookup that finds nothing means no entry carries the name.
pub proof fn lemma_lookup_none(entries: Seq<ExtDirEntry>, name: Seq<u8>)
    requires
        spec_lookup_entry(entries, name) is None,
    ensures
        forall|k: int| 0 <= k < entries.len() ==> entries[k].name@ != name,
    decreases entries.len(),
{
    if entries.len() > 0 {
        lemma_lookup_none(entries.drop_first(), name);
        assert forall|k: int| 0 <= k < entries.len() implies entries[k].name@ != name by {
            if k > 0 {
                assert(entries.drop_first()[k - 1].name@ != name);
            }
        }
    }
}

/// Appending one entry to a directory in which `name` does not yet
/// occur makes a lookup of `name` find exactly the appended entry:
/// resolving a freshly linked name reaches the freshly linked inode.
/// This is the step that carries a `mkdir` or a whole-file write into
/// the resolution functions' contracts.
pub proof fn lemma_lookup_append(s0: Seq<ExtDirEntry>, s1: Seq<ExtDirEntry>, name: Seq<u8>)
    requires
        s1.len() == s0.len() + 1,
        entries_eq(s1.take(s0.len() as int), s0),
        s1.last().name@ == name,
        spec_lookup_entry(s0, name) is None,
    ensures
        spec_lookup_entry(s1, name) == Option::Some(s1.last().inode),
{
    lemma_lookup_none(s0, name);
    assert forall|j: int| 0 <= j < s0.len() implies s1[j].name@ != name by {
        assert(s1.take(s0.len() as int)[j].name@ == s0[j].name@);
    }
    lemma_lookup_skip(s1, name, s0.len() as int);
    let tail = s1.skip(s0.len() as int);
    assert(tail.len() == 1);
    assert(tail[0] == s1.last());
    assert(spec_lookup_entry(tail, name) == Option::Some(s1.last().inode));
}

/// Whether the bytes of `a` equal `b`.
pub fn bytes_eq(a: &[u8], b: &[u8]) -> (r: bool)
    ensures
        r == (a@ == b@),
{
    if a.len() != b.len() {
        proof {
            assert(a@ != b@);
        }
        return false;
    }
    let n = a.len();
    let mut j: usize = 0;
    while j < n
        invariant
            j <= n,
            a@.len() == n,
            b@.len() == n,
            forall|k: int| 0 <= k < j ==> a@[k] == b@[k],
        decreases n - j,
    {
        if a[j] != b[j] {
            proof {
                assert(a@ != b@);
            }
            return false;
        }
        j = j + 1;
    }
    proof {
        assert(a@ =~= b@);
    }
    true
}

impl ExtFilesystem {
    /// Look a single name up among a directory's entries.
    pub(crate) fn dir_find(&self, dino: u32, name: &[u8]) -> (r: Option<u32>)
        requires
            self.wf(),
            self.ino_ok(dino as int),
        ensures
            r == spec_lookup_entry(self.inode_at(dino as int).entries@, name@),
    {
        let idx: usize = (dino - 1) as usize;
        let entries = &self.inodes[idx].entries;
        let n = entries.len();
        let mut j: usize = 0;
        while j < n
            invariant
                j <= n,
                entries@.len() == n,
                entries@ == self.inode_at(dino as int).entries@,
                forall|k: int| 0 <= k < j ==> entries@[k].name@ != name@,
            decreases n - j,
        {
            if bytes_eq(entries[j].name.as_slice(), name) {
                proof {
                    lemma_lookup_skip(entries@, name@, j as int);
                    assert(entries@.skip(j as int)[0] == entries@[j as int]);
                }
                return Some(entries[j].inode);
            }
            j = j + 1;
        }
        proof {
            lemma_lookup_skip(entries@, name@, n as int);
            assert(entries@.skip(n as int).len() == 0);
        }
        None
    }

    /// Where a path walk standing at inode `cur`, with `comps` still to
    /// resolve, ends up.  Every intermediate symlink is followed; the
    /// final component is followed only under `follow_last`; each
    /// following step consumes one unit of `budget`, and running out
    /// reports a symlink loop.
    pub open spec fn spec_walk(
        self,
        cur: u32,
        comps: Seq<Seq<u8>>,
        follow_last: bool,
        budget: nat,
    ) -> Result<u32, ExtReport>
        decreases budget, comps.len(),
    {
        if comps.len() == 0 {
            Result::<u32, ExtReport>::Ok(cur)
        } else {
            let d = self.inode_at(cur as int);
            if !(self.ino_allocated(cur as int) && d.spec_is_dir()) {
                Result::Err(ExtReport::Message(ExtEtMessage::NoDirectory))
            } else {
                match spec_lookup_entry(d.entries@, comps[0]) {
                    Option::None => Result::Err(ExtReport::Message(ExtEtMessage::FileNotFound)),
                    Option::Some(next) => {
                        let nd = self.inode_at(next as int);
                        if self.ino_allocated(next as int) && nd.spec_is_symlink() && (comps.len()
                            > 1 || follow_last) {
                            if budget == 0 {
                                Result::Err(ExtReport::Message(ExtEtMessage::SymlinkLoop))
                            } else {
                                let t = nd.symlink_target@;
                                let base = if t.len() > 0 && t[0] == 0x2Fu8 {
                                    EXT2_ROOT_INO
                                } else {
                                    cur
                                };
                                self.spec_walk(
                                    base,
                                    spec_split_path(t) + comps.drop_first(),
                                    follow_last,
                                    (budget - 1) as nat,
                                )
                            }
                        } else {
                            self.spec_walk(next, comps.drop_first(), follow_last, budget)
                        }
                    },
                }
            }
        }
    }

    /// Resolve `comps`, starting at `cur`.
    pub(crate) fn walk(&self, cur: u32, comps: Vec<Vec<u8>>, follow_last: bool, budget: u32) -> (r: Result<
        u32,
        ExtReport,
    >)
        requires
            self.wf(),
            self.ino_ok(cur as int),
        ensures
            r == self.spec_walk(cur, comps.deep_view(), follow_last, budget as nat),
            r is Ok ==> self.ino_ok(r->Ok_0 as int),
        decreases budget, comps@.len(),
    {
        if comps.len() == 0 {
            return Ok(cur);
        }
        let idx: usize = (cur - 1) as usize;
        let allocated = self.inode_bitmap.test_ino(cur);
        let is_dir = (self.inodes[idx].mode as u32) & 0xF000u32 == crate::LINUX_S_IFDIR;
        if !(allocated && is_dir) {
            return Err(ExtReport::Message(ExtEtMessage::NoDirectory));
        }
        let next = match self.dir_find(cur, comps[0].as_slice()) {
            Some(n) => n,
            None => {
                proof {
                    assert(comps.deep_view()[0] == comps@[0]@);
                }
                return Err(ExtReport::Message(ExtEtMessage::FileNotFound));
            },
        };
        proof {
            assert(comps.deep_view()[0] == comps@[0]@);
            lemma_lookup_in_range(*self, cur as int, comps.deep_view()[0]);
        }
        let nidx: usize = (next - 1) as usize;
        let next_alloc = self.inode_bitmap.test_ino(next);
        let next_symlink = (self.inodes[nidx].mode as u32) & 0xF000u32
            == crate::LINUX_S_IFLNK;
        if next_alloc && next_symlink && (comps.len() > 1 || follow_last) {
            if budget == 0 {
                return Err(ExtReport::Message(ExtEtMessage::SymlinkLoop));
            }
            let target = &self.inodes[nidx].symlink_target;
            let base: u32 = if target.len() > 0 && target[0] == 0x2Fu8 {
                EXT2_ROOT_INO
            } else {
                cur
            };
            let mut new_comps = split_path(target.as_slice());
            let mut j: usize = 1;
            while j < comps.len()
                invariant
                    1 <= j <= comps@.len(),
                    new_comps.deep_view() =~~= spec_split_path(target@)
                        + comps.deep_view().subrange(1, j as int),
                decreases comps@.len() - j,
            {
                let ghost pre = new_comps.deep_view();
                let e = copy_u8_vec(&comps[j]);
                let ghost ev = e@;
                new_comps.push(e);
                proof {
                    let lhs = new_comps.deep_view();
                    let sp = spec_split_path(target@);
                    let rhs = sp + comps.deep_view().subrange(1, j + 1);
                    assert(lhs.len() == pre.len() + 1);
                    assert(lhs[pre.len() as int] =~= ev);
                    assert(ev =~= comps.deep_view()[j as int]);
                    assert forall|i: int| 0 <= i < lhs.len() implies lhs[i] =~= rhs[i] by {
                        if i < pre.len() {
                            assert(lhs[i] == pre[i]);
                            assert(pre[i] == (sp + comps.deep_view().subrange(1, j as int))[i]);
                            if i >= sp.len() {
                                assert(comps.deep_view().subrange(1, j as int)[i - sp.len()]
                                    == comps.deep_view()[1 + i - sp.len()]);
                                assert(comps.deep_view().subrange(1, j + 1)[i - sp.len()]
                                    == comps.deep_view()[1 + i - sp.len()]);
                            }
                        } else {
                            assert(rhs[i] == comps.deep_view().subrange(1, j + 1)[i - sp.len()]);
                            assert(comps.deep_view().subrange(1, j + 1)[i - sp.len()]
                                == comps.deep_view()[j as int]);
                        }
                    }
                    assert(lhs =~~= rhs);
                }
                j = j + 1;
            }
            proof {
                assert(comps.deep_view().subrange(1, comps.deep_view().len() as int)
                    =~~= comps.deep_view().drop_first());
                assert(new_comps.deep_view() =~~= spec_split_path(target@)
                    + comps.deep_view().drop_first());
            }
            self.walk(base, new_comps, follow_last, budget - 1)
        } else {
            let mut rest: Vec<Vec<u8>> = Vec::new();
            let mut j: usize = 1;
            while j < comps.len()
                invariant
                    1 <= j <= comps@.len(),
                    rest.deep_view() =~~= comps.deep_view().subrange(1, j as int),
                decreases comps@.len() - j,
            {
                let ghost pre = rest.deep_view();
                let e = copy_u8_vec(&comps[j]);
                let ghost ev = e@;
                rest.push(e);
                proof {
                    let lhs = rest.deep_view();
                    let rhs = comps.deep_view().subrange(1, j + 1);
                    assert(lhs.len() == pre.len() + 1);
                    assert(lhs[pre.len() as int] =~= ev);
                    assert(ev =~= comps.deep_view()[j as int]);
                    assert forall|i: int| 0 <= i < lhs.len() implies lhs[i] =~= rhs[i] by {
                        if i < pre.len() {
                            assert(lhs[i] == pre[i]);
                            assert(pre[i] == comps.deep_view().subrange(1, j as int)[i]);
                        } else {
                            assert(rhs[i] == comps.deep_view()[j as int]);
                        }
                    }
                    assert(lhs =~~= rhs);
                }
                j = j + 1;
            }
            proof {
                assert(rest.deep_view() =~~= comps.deep_view().drop_first());
            }
            self.walk(next, rest, follow_last, budget)
        }
    }

    /// Resolve an absolute path to its inode, walking the tree from
    /// the root.  Intermediate symlinks are followed; a terminal
    /// symlink is returned as it is.  Fails with the file-not-found
    /// status when a component is missing, with the not-a-directory
    /// status when a component other than the last is no directory,
    /// and with the symlink-loop status when resolution nests more
    /// than [`MAX_NESTED_LINKS`] links deep.
    pub fn find_inode(&self, path: &str) -> (r: Result<ExtInode, ExtReport>)
        requires
            self.wf(),
        ensures
            match r {
                Ok(ino) => self.spec_walk(
                    EXT2_ROOT_INO,
                    spec_split_path(path.spec_bytes()),
                    false,
                    MAX_NESTED_LINKS as nat,
                ) == Result::<u32, ExtReport>::Ok(ino.num) && self.ino_ok(ino.num as int)
                    && rec_eq(ino.data, self.inode_at(ino.num as int)),
                Err(e) => self.spec_walk(
                    EXT2_ROOT_INO,
                    spec_split_path(path.spec_bytes()),
                    false,
                    MAX_NESTED_LINKS as nat,
                ) == Result::<u32, ExtReport>::Err(e),
            },
    {
        let comps = split_path(path.as_bytes());
        match self.walk(EXT2_ROOT_INO, comps, false, MAX_NESTED_LINKS) {
            Ok(num) => self.read_inode(num),
            Err(e) => Err(e),
        }
    }

    /// Resolve an absolute path to its inode, dereferencing a terminal
    /// symlink as well.
    pub fn find_inode_follow(&self, path: &str) -> (r: Result<ExtInode, ExtReport>)
        requires
            self.wf(),
        ensures
            match r {
                Ok(ino) => self.spec_walk(
                    EXT2_ROOT_INO,
                    spec_split_path(path.spec_bytes()),
                    true,
                    MAX_NESTED_LINKS as nat,
                ) == Result::<u32, ExtReport>::Ok(ino.num) && self.ino_ok(ino.num as int)
                    && rec_eq(ino.data, self.inode_at(ino.num as int)),
                Err(e) => self.spec_walk(
                    EXT2_ROOT_INO,
                    spec_split_path(path.spec_bytes()),
                    true,
                    MAX_NESTED_LINKS as nat,
                ) == Result::<u32, ExtReport>::Err(e),
            },
    {
        let comps = split_path(path.as_bytes());
        match self.walk(EXT2_ROOT_INO, comps, true, MAX_NESTED_LINKS) {
            Ok(num) => self.read_inode(num),
            Err(e) => Err(e),
        }
    }

    /// Resolve a single name within a known directory.  A leading
    /// slash on `name` is stripped (a documented quirk of this entry
    /// point); the rest of the name is looked up literally among the
    /// directory's entries.
    pub fn lookup(&self, dir: &str, name: &str) -> (r: Result<ExtInode, ExtReport>)
        requires
            self.wf(),
        ensures
            match self.spec_walk(
                EXT2_ROOT_INO,
                spec_split_path(dir.spec_bytes()),
                false,
                MAX_NESTED_LINKS as nat,
            ) {
                Ok(dino) => {
                    let stripped = if name.spec_bytes().len() > 0 && name.spec_bytes()[0]
                        == 0x2Fu8 {
                        name.spec_bytes().drop_first()
                    } else {
                        name.spec_bytes()
                    };
                    if !(self.ino_allocated(dino as int) && self.inode_at(
                        dino as int,
                    ).spec_is_dir()) {
                        r == Result::<ExtInode, ExtReport>::Err(
                            ExtReport::Message(ExtEtMessage::NoDirectory),
                        )
                    } else {
                        match spec_lookup_entry(self.inode_at(dino as int).entries@, stripped) {
                            Option::Some(n) => r is Ok && r->Ok_0.num == n && rec_eq(
                                r->Ok_0.data,
                                self.inode_at(n as int),
                            ),
                            Option::None => r == Result::<ExtInode, ExtReport>::Err(
                                ExtReport::Message(ExtEtMessage::FileNotFound),
                            ),
                        }
                    }
                },
                Err(e) => r == Result::<ExtInode, ExtReport>::Err(e),
            },
    {
        let dino = match self.find_inode(dir) {
            Ok(ino) => ino.num,
            Err(e) => {
                return Err(e);
            },
        };
        let name_bytes = name.as_bytes();
        let stripped: &[u8] = if name_bytes.len() > 0 && name_bytes[0] == 0x2Fu8 {
            &name_bytes[1..name_bytes.len()]
        } else {
            name_bytes
        };
        proof {
            if name.spec_bytes().len() > 0 && name.spec_bytes()[0] == 0x2Fu8 {
                assert(stripped@ =~= name.spec_bytes().drop_first());
            }
        }
        let didx: usize = (dino - 1) as usize;
        let allocated = self.inode_bitmap.test_ino(dino);
        let is_dir = (self.inodes[didx].mode as u32) & 0xF000u32
            == crate::LINUX_S_IFDIR;
        if !(allocated && is_dir) {
            return Err(ExtReport::Message(ExtEtMessage::NoDirectory));
        }
        match self.dir_find(dino, stripped) {
            Some(n) => {
                proof {
                    lemma_lookup_in_range(*self, dino as int, stripped@);
                }
                self.read_inode(n)
            },
            None => Err(ExtReport::Message(ExtEtMessage::FileNotFound)),
        }
    }

    /// The entries of the directory at `path`, in order.  Every entry
    /// is a plain copy: the caller reads the inode for an entry's
    /// number if it wants the object itself.
    pub fn iterate_dir(&self, dir: &str) -> (r: Result<Vec<ExtDirEntry>, ExtReport>)
        requires
            self.wf(),
        ensures
            match self.spec_walk(
                EXT2_ROOT_INO,
                spec_split_path(dir.spec_bytes()),
                false,
                MAX_NESTED_LINKS as nat,
            ) {
                Ok(dino) => {
                    if self.ino_allocated(dino as int) && self.inode_at(
                        dino as int,
                    ).spec_is_dir() {
                        r is Ok && entries_eq(r->Ok_0@, self.inode_at(dino as int).entries@)
                    } else {
                        r == Result::<Vec<ExtDirEntry>, ExtReport>::Err(
                            ExtReport::Message(ExtEtMessage::NoDirectory),
                        )
                    }
                },
                Err(e) => r == Result::<Vec<ExtDirEntry>, ExtReport>::Err(e),
            },
    {
        let dino = match self.find_inode(dir) {
            Ok(ino) => ino.num,
            Err(e) => {
                return Err(e);
            },
        };
        let didx: usize = (dino - 1) as usize;
        let allocated = self.inode_bitmap.test_ino(dino);
        let is_dir = (self.inodes[didx].mode as u32) & 0xF000u32
            == crate::LINUX_S_IFDIR;
        if !(allocated && is_dir) {
            return Err(ExtReport::Message(ExtEtMessage::NoDirectory));
        }
        Ok(copy_entries(&self.inodes[didx].entries))
    }
}

/// A name found among a live directory's entries points into the inode
/// table.
pub proof fn lemma_lookup_in_range(fs: ExtFilesystem, dino: int, name: Seq<u8>)
    requires
        fs.wf(),
        fs.ino_ok(dino),
        fs.ino_allocated(dino),
        fs.inode_at(dino).spec_is_dir(),
        spec_lookup_entry(fs.inode_at(dino).entries@, name) is Some,
    ensures
        1 <= spec_lookup_entry(fs.inode_at(dino).entries@, name)->0 <= fs.sb.inodes_count,
{
    assert(fs.rec_wf(fs.inode_at(dino)));
    lemma_lookup_entry_wf(fs, fs.inode_at(dino).entries@, name);
}

/// Helper for [`lemma_lookup_in_range`]: the found entry is one of the
/// sequence's entries, so it inherits their well-formedness.
proof fn lemma_lookup_entry_wf(fs: ExtFilesystem, entries: Seq<ExtDirEntry>, name: Seq<u8>)
    requires
        forall|k: int| 0 <= k < entries.len() ==> fs.entry_wf(#[trigger] entries[k]),
        spec_lookup_entry(entries, name) is Some,
    ensures
        1 <= spec_lookup_entry(entries, name)->0 <= fs.sb.inodes_count,
    decreases entries.len(),
{
    if entries.len() > 0 {
        if entries[0].name@ == name {
            assert(fs.entry_wf(entries[0]));
        } else {
            assert forall|k: int| 0 <= k < entries.drop_first().len() implies fs.entry_wf(
                #[trigger] entries.drop_first()[k],
            ) by {
                assert(fs.entry_wf(entries[k + 1]));
            }
            lemma_lookup_entry_wf(fs, entries.drop_first(), name);
        }
    }
}


/// A failed walk reports one of exactly three conditions: a component
/// that is no directory, a missing component, or too-deep symlink
/// nesting.
pub proof fn lemma_walk_err_kinds(
    fs: ExtFilesystem,
    cur: u32,
    comps: Seq<Seq<u8>>,
    follow_last: bool,
    budget: nat,
)
    ensures
        fs.spec_walk(cur, comps, follow_last, budget) is Err ==> {
            let e = fs.spec_walk(cur, comps, follow_last, budget)->Err_0;
            e == ExtReport::Message(ExtEtMessage::NoDirectory) || e == ExtReport::Message(
                ExtEtMessage::FileNotFound,
            ) || e == ExtReport::Message(ExtEtMessage::SymlinkLoop)
        },
    decreases budget, comps.len(),
{
    if comps.len() != 0 {
        let d = fs.inode_at(cur as int);
        if fs.ino_allocated(cur as int) && d.spec_is_dir() {
            match spec_lookup_entry(d.entries@, comps[0]) {
                Option::None => {},
                Option::Some(next) => {
                    let nd = fs.inode_at(next as int);
                    if fs.ino_allocated(next as int) && nd.spec_is_symlink() && (comps.len() > 1
                        || follow_last) {
                        if budget != 0 {
                            let t = nd.symlink_target@;
                            let base = if t.len() > 0 && t[0] == 0x2Fu8 {
                                EXT2_ROOT_INO
                            } else {
                                cur
                            };
                            lemma_walk_err_kinds(
                                fs,
                                base,
                                spec_split_path(t) + comps.drop_first(),
                                follow_last,
                                (budget - 1) as nat,
                            );
                        }
                    } else {
                        lemma_walk_err_kinds(fs, next, comps.drop_first(), follow_last, budget);
                    }
                },
            }
        }
    }
}



impl ExtFilesystem {
    /// The name an entry of `parent` gives to inode `child`, skipping
    /// the dot and dot-dot entries.
    #[verifier::loop_isolation(false)]
    fn name_of_child(&self, parent: u32, child: u32) -> (r: Option<Vec<u8>>)
        requires
            self.wf(),
            self.ino_ok(parent as int),
    {
        let pidx: usize = (parent - 1) as usize;
        let entries = &self.inodes[pidx].entries;
        let n = entries.len();
        let mut j: usize = 0;
        while j < n
            invariant
                j <= n,
                entries@.len() == n,
                entries@ == self.inode_at(parent as int).entries@,
            decreases n - j,
        {
            if entries[j].inode == child {
                let name = &entries[j].name;
                let is_dot = name.len() == 1 && name[0] == 0x2Eu8;
                let is_dotdot = name.len() == 2 && name[0] == 0x2Eu8 && name[1] == 0x2Eu8;
                if !is_dot && !is_dotdot {
                    return Some(crate::session::copy_u8_vec(name));
                }
            }
            j = j + 1;
        }
        None
    }

    /// The absolute pathname of a directory inode, assembled by
    /// climbing the dot-dot chain to the root and reading each level's
    /// name in its parent.  The result always starts with a slash;
    /// resolving it walks back to the inode it was asked about.
    #[verifier::loop_isolation(false)]
    pub fn get_pathname(&self, inode: u32) -> (r: Result<Vec<u8>, ExtReport>)
        requires
            self.wf(),
        ensures
            match r {
                Ok(p) => self.ino_ok(inode as int) && p@.len() >= 1 && p@[0] == 0x2Fu8,
                Err(e) => e == ExtReport::Message(ExtEtMessage::BadInodeNumber) && !self.ino_ok(
                    inode as int,
                ) || e == ExtReport::Message(ExtEtMessage::NoDirectory) || e == ExtReport::Message(
                    ExtEtMessage::FileNotFound,
                ) || e == ExtReport::Message(ExtEtMessage::SymlinkLoop),
            },
    {
        if inode == 0 || inode > self.sb.inodes_count {
            return Err(ExtReport::Message(ExtEtMessage::BadInodeNumber));
        }
        let mut names: Vec<Vec<u8>> = Vec::new();
        let mut cur: u32 = inode;
        let mut steps: u32 = 0;
        let limit: u32 = self.sb.inodes_count;
        while cur != EXT2_ROOT_INO && steps <= limit
            invariant
                self.wf(),
                self.ino_ok(cur as int),
                steps <= limit + 1,
            decreases limit + 1 - steps,
        {
            let cidx: usize = (cur - 1) as usize;
            let allocated = self.inode_bitmap.test_ino(cur);
            let is_dir = (self.inodes[cidx].mode as u32) & 0xF000u32
                == crate::LINUX_S_IFDIR;
            if !(allocated && is_dir) {
                return Err(ExtReport::Message(ExtEtMessage::NoDirectory));
            }
            let mut dotdot: Vec<u8> = Vec::new();
            dotdot.push(0x2Eu8);
            dotdot.push(0x2Eu8);
            let parent = match self.dir_find(cur, dotdot.as_slice()) {
                Some(p) => p,
                None => {
                    return Err(ExtReport::Message(ExtEtMessage::FileNotFound));
                },
            };
            proof {
                lemma_lookup_in_range(*self, cur as int, dotdot@);
            }
            let name = match self.name_of_child(parent, cur) {
                Some(nm) => nm,
                None => {
                    return Err(ExtReport::Message(ExtEtMessage::FileNotFound));
                },
            };
            names.push(name);
            cur = parent;
            steps = steps + 1;
        }
        if cur != EXT2_ROOT_INO {
            // The dot-dot chain never reached the root: a cycle.
            return Err(ExtReport::Message(ExtEtMessage::SymlinkLoop));
        }
        let mut path: Vec<u8> = Vec::new();
        path.push(0x2Fu8);
        let mut k: usize = names.len();
        while k > 0
            invariant
                k <= names@.len(),
                path@.len() >= 1,
                path@[0] == 0x2Fu8,
            decreases k,
        {
            k = k - 1;
            let nm = &names[k];
            let mut c: usize = 0;
            while c < nm.len()
                invariant
                    c <= nm@.len(),
                    path@.len() >= 1,
                    path@[0] == 0x2Fu8,
                decreases nm@.len() - c,
            {
                path.push(nm[c]);
                c = c + 1;
            }
            if k > 0 {
                path.push(0x2Fu8);
            }
        }
        Ok(path)
    }
}


} // verus!
