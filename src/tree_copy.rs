//! The decisions of a recursive directory copy that keeps symbolic links.
//!
//! A [`TreeCopier`] walks the source depth first, in the order of each
//! listing. The caller performs each operation it asks for and hands back
//! what came of it. A symbolic link is always recreated as a link and never
//! followed: only the root and entries listed as directories are ever listed
//! or created, and only entries listed as files are copied. A link that
//! cannot be recreated is skipped; any other failure ends the copy.
use vstd::prelude::*;
use crate::text::{join_path, join_spec};

verus! {

/// What a directory entry is, as its own metadata says (links not followed).
#[derive(PartialEq, Eq, Structural, Clone, Copy)]
pub enum EntryKind {
    Symlink,
    Directory,
    File,
}

/// One entry of a directory listing.
pub struct DirEntry {
    pub name: String,
    pub kind: EntryKind,
}

/// An operation for the caller to perform.
pub enum CopyOp {
    /// Create the directory and its parents (`Done`).
    CreateDir(String),
    /// List the directory (`Listed`, or `Done` with an error).
    ListDir(String),
    /// Read the link at `from` and create the same link at `to`, removing any
    /// file there first (`Done`; a failure is skipped).
    Link { from: String, to: String },
    /// Copy the file's bytes (`Done`).
    CopyFile { from: String, to: String },
    /// The copy is over, with this result.
    Finish(Result<(), String>),
    /// Nothing to do.
    Nothing,
}

/// What came of the last operation.
pub enum CopyEvent {
    Done(Result<(), String>),
    Listed(Vec<DirEntry>),
}

/// A directory being copied, and how far its listing has been taken.
struct Frame {
    src: String,
    dst: String,
    entries: Vec<DirEntry>,
    next: usize,
}

/// The operation whose outcome is awaited.
#[derive(PartialEq, Eq, Structural, Clone, Copy)]
pub enum Awaiting {
    Create,
    List,
    Link,
    File,
    Over,
}

pub struct TreeCopier {
    frames: Vec<Frame>,
    awaiting: Awaiting,
}

impl Frame {
    spec fn taken(&self) -> &DirEntry {
        &self.entries@[self.next - 1]
    }
}

/// Each frame has taken no more entries than it has, and each frame below
/// the root copies the entry last taken from the frame above, which is a
/// directory.
spec fn chain(fs: Seq<Frame>) -> bool {
    &&& forall|k: int| 0 <= k < fs.len() ==> (#[trigger] fs[k]).next <= fs[k].entries@.len()
    &&& forall|k: int| 0 < k < fs.len() ==> child_of(fs[k - 1], #[trigger] fs[k])
}

spec fn child_of(p: Frame, f: Frame) -> bool {
    &&& p.next > 0
    &&& p.taken().kind == EntryKind::Directory
    &&& f.src@ == join_spec(p.src@, p.taken().name@)
    &&& f.dst@ == join_spec(p.dst@, p.taken().name@)
}

proof fn lemma_chain_pop(fs: Seq<Frame>)
    requires
        chain(fs),
        fs.len() > 0,
    ensures
        chain(fs.drop_last()),
{
    let g = fs.drop_last();
    assert forall|k: int| 0 < k < g.len() implies child_of(g[k - 1], #[trigger] g[k]) by {
        assert(child_of(fs[k - 1], fs[k]));
    }
    assert forall|k: int| 0 <= k < g.len() implies (#[trigger] g[k]).next <= g[k].entries@.len() by {
        assert(fs[k].next <= fs[k].entries@.len());
    }
}

proof fn lemma_chain_push(fs: Seq<Frame>, f: Frame)
    requires
        chain(fs),
        f.next <= f.entries@.len(),
        fs.len() > 0 ==> child_of(fs.last(), f),
    ensures
        chain(fs.push(f)),
{
    let g = fs.push(f);
    assert forall|k: int| 0 < k < g.len() implies child_of(g[k - 1], #[trigger] g[k]) by {
        if k < fs.len() {
            assert(child_of(fs[k - 1], fs[k]));
        }
    }
    assert forall|k: int| 0 <= k < g.len() implies (#[trigger] g[k]).next <= g[k].entries@.len() by {
        if k < fs.len() {
            assert(fs[k].next <= fs[k].entries@.len());
        }
    }
}

/// A directory being copied, as contracts see it: source path, destination
/// path, the listed entries (name and kind), and how many have been taken.
pub type FrameView = (Seq<char>, Seq<char>, Seq<(Seq<char>, EntryKind)>, nat);

spec fn frame_view(f: Frame) -> FrameView {
    (f.src@, f.dst@, f.entries@.map_values(|e: DirEntry| (e.name@, e.kind)), f.next as nat)
}

/// How many directories are left once those whose entries are all taken
/// are closed, innermost first.
pub open spec fn resume_depth(fs: Seq<FrameView>) -> nat
    decreases fs.len(),
{
    if fs.len() == 0 {
        0
    } else if fs.last().3 < fs.last().2.len() {
        fs.len()
    } else {
        resume_depth(fs.drop_last())
    }
}

/// What taking the next entry of `fs` leads to: the directories `gs`, the
/// operation awaited `w`, and the operation `r` asked for.
pub open spec fn continues(fs: Seq<FrameView>, gs: Seq<FrameView>, w: Awaiting, r: CopyOp) -> bool {
    let d = resume_depth(fs);
    if d == 0 {
        &&& r == CopyOp::Finish(Ok(()))
        &&& w == Awaiting::Over
        &&& gs.len() == 0
    } else {
        let f = fs[d - 1];
        let e = f.2[f.3 as int];
        let kept = fs.take(d - 1).push((f.0, f.1, f.2, f.3 + 1));
        let from = join_spec(f.0, e.0);
        let to = join_spec(f.1, e.0);
        if e.1 == EntryKind::Symlink {
            &&& gs == kept
            &&& w == Awaiting::Link
            &&& r matches CopyOp::Link { from: a, to: b }
            &&& a@ == from
            &&& b@ == to
        } else if e.1 == EntryKind::File {
            &&& gs == kept
            &&& w == Awaiting::File
            &&& r matches CopyOp::CopyFile { from: a, to: b }
            &&& a@ == from
            &&& b@ == to
        } else {
            &&& gs == kept.push((from, to, Seq::empty(), 0))
            &&& w == Awaiting::Create
            &&& r matches CopyOp::CreateDir(b)
            &&& b@ == to
        }
    }
}

/// The entries of a listing as contracts see them.
pub open spec fn entries_view(es: Seq<DirEntry>) -> Seq<(Seq<char>, EntryKind)> {
    es.map_values(|e: DirEntry| (e.name@, e.kind))
}

/// A step never follows a symbolic link: it recreates an entry listed as a
/// link, copies only an entry listed as a file, and creates (and later
/// lists) only an entry listed as a directory.
pub proof fn lemma_links_not_followed(fs: Seq<FrameView>, gs: Seq<FrameView>, w: Awaiting, r: CopyOp)
    requires
        continues(fs, gs, w, r),
        resume_depth(fs) > 0,
    ensures
        ({
            let f = fs[resume_depth(fs) - 1];
            let kind = f.2[f.3 as int].1;
            &&& r is Link <==> kind == EntryKind::Symlink
            &&& r is CopyFile <==> kind == EntryKind::File
            &&& r is CreateDir <==> kind == EntryKind::Directory
        }),
{
}

impl TreeCopier {
    /// The directories being copied, outermost first.
    pub closed spec fn frames(&self) -> Seq<FrameView> {
        self.frames@.map_values(|f: Frame| frame_view(f))
    }

    pub closed spec fn awaiting(&self) -> Awaiting {
        self.awaiting
    }

    /// Each directory below the root is the entry last taken from the one
    /// above it, which was listed as a directory, and paths are joined; the
    /// operation awaited matches the entry last taken.
    pub closed spec fn wf(&self) -> bool {
        &&& (self.awaiting == Awaiting::Over <==> self.frames@.len() == 0)
        &&& chain(self.frames@)
        &&& (self.awaiting == Awaiting::Link || self.awaiting == Awaiting::File) ==> {
            let f = self.frames@.last();
            &&& f.next > 0
            &&& self.awaiting == Awaiting::Link ==> f.taken().kind == EntryKind::Symlink
            &&& self.awaiting == Awaiting::File ==> f.taken().kind == EntryKind::File
        }
    }

    /// Starts copying the tree at `src` to `dst`; the first operation creates `dst`.
    pub fn new(src: &String, dst: &String) -> (r: (TreeCopier, CopyOp))
        ensures
            r.0.wf(),
            r.0.frames() == seq![(src@, dst@, Seq::<(Seq<char>, EntryKind)>::empty(), 0nat)],
            r.0.awaiting() == Awaiting::Create,
            r.1 matches CopyOp::CreateDir(d) && d@ == dst@,
    {
        let mut frames: Vec<Frame> = Vec::new();
        frames.push(Frame { src: src.clone(), dst: dst.clone(), entries: Vec::new(), next: 0 });
        let c = TreeCopier { frames, awaiting: Awaiting::Create };
        assert(c.frames()[0].2 =~= Seq::<(Seq<char>, EntryKind)>::empty());
        assert(c.frames() =~= seq![(src@, dst@, Seq::<(Seq<char>, EntryKind)>::empty(), 0nat)]);
        (c, CopyOp::CreateDir(dst.clone()))
    }

    /// Takes the next entry of the innermost directory, leaving directories
    /// that are done, and asks for the operation that copies it.
    fn take_next(&mut self) -> (r: CopyOp)
        requires
            old(self).wf(),
            old(self).frames@.len() > 0,
        ensures
            final(self).wf(),
            continues(old(self).frames(), final(self).frames(), final(self).awaiting, r),
    {
        let ghost fs = self.frames();
        loop
            invariant
                fs == old(self).frames(),
                chain(self.frames@),
                self.frames@.len() > 0,
                self.frames@.len() <= fs.len(),
                self.frames() == fs.take(self.frames@.len() as int),
                resume_depth(fs) == resume_depth(self.frames()),
            decreases self.frames@.len(),
        {
            let ghost before = self.frames@;
            let ghost bv = self.frames();
            let mut f = self.frames.pop().unwrap();
            proof {
                lemma_chain_pop(before);
                assert(before.drop_last() =~= self.frames@);
                assert(f == before[before.len() - 1]);
                assert(f.next <= f.entries@.len());
                if self.frames@.len() > 0 {
                    assert(child_of(before[before.len() - 2], before[before.len() - 1]));
                }
                assert(bv.drop_last() =~= self.frames());
                assert(bv.last() == frame_view(f));
                assert(frame_view(f).2.len() == f.entries@.len());
                assert(bv =~= fs.take(before.len() as int));
                assert(fs[before.len() - 1] == bv.last());
                assert(fs.take(self.frames@.len() as int) =~= bv.drop_last());
            }
            if f.next < f.entries.len() {
                let i = f.next;
                let kind = f.entries[i].kind;
                let from = join_path(f.src.as_str(), f.entries[i].name.as_str());
                let to = join_path(f.dst.as_str(), f.entries[i].name.as_str());
                let ghost fv = frame_view(f);
                f.next = i + 1;
                proof {
                    lemma_chain_push(self.frames@, f);
                    assert(frame_view(f) == (fv.0, fv.1, fv.2, fv.3 + 1));
                    assert(fv.2[i as int] == (f.entries@[i as int].name@, f.entries@[i as int].kind));
                }
                let ghost rest = self.frames();
                self.frames.push(f);
                proof {
                    assert(self.frames() =~= rest.push(frame_view(f)));
                    assert(bv.last().3 < bv.last().2.len());
                    assert(resume_depth(bv) == before.len());
                    assert(resume_depth(fs) == before.len());
                    assert(rest =~= fs.take(before.len() - 1));
                }
                match kind {
                    EntryKind::Symlink => {
                        self.awaiting = Awaiting::Link;
                        return CopyOp::Link { from, to };
                    },
                    EntryKind::File => {
                        self.awaiting = Awaiting::File;
                        return CopyOp::CopyFile { from, to };
                    },
                    EntryKind::Directory => {
                        let d = to.clone();
                        let child = Frame { src: from, dst: to, entries: Vec::new(), next: 0 };
                        let ghost kept = self.frames();
                        proof {
                            assert(child_of(self.frames@.last(), child));
                            lemma_chain_push(self.frames@, child);
                        }
                        self.frames.push(child);
                        proof {
                            assert(frame_view(child).2 =~= Seq::<(Seq<char>, EntryKind)>::empty());
                            assert(self.frames() =~= kept.push(frame_view(child)));
                        }
                        self.awaiting = Awaiting::Create;
                        return CopyOp::CreateDir(d);
                    },
                }
            } else {
                proof {
                    assert(bv.last().3 >= bv.last().2.len());
                    assert(resume_depth(bv) == resume_depth(bv.drop_last()));
                }
                if self.frames.len() == 0 {
                    self.awaiting = Awaiting::Over;
                    return CopyOp::Finish(Ok(()));
                }
            }
        }
    }

    /// Takes the outcome of the pending operation and decides the next one.
    pub fn step(&mut self, event: CopyEvent) -> (r: CopyOp)
        requires
            old(self).wf(),
        ensures
            final(self).wf(),
            ({
                let fs = old(self).frames();
                match (old(self).awaiting(), event) {
                    (Awaiting::Create, CopyEvent::Done(Ok(_))) => {
                        &&& final(self).frames() == fs
                        &&& final(self).awaiting() == Awaiting::List
                        &&& r matches CopyOp::ListDir(d) && d@ == fs.last().0
                    },
                    (Awaiting::List, CopyEvent::Listed(es)) => {
                        let f = fs.last();
                        let listed = fs.drop_last().push((f.0, f.1, entries_view(es@), 0));
                        continues(listed, final(self).frames(), final(self).awaiting(), r)
                    },
                    (Awaiting::Link, CopyEvent::Done(_)) => {
                        continues(fs, final(self).frames(), final(self).awaiting(), r)
                    },
                    (Awaiting::File, CopyEvent::Done(Ok(_))) => {
                        continues(fs, final(self).frames(), final(self).awaiting(), r)
                    },
                    (Awaiting::Create, CopyEvent::Done(Err(e))) | (Awaiting::List, CopyEvent::Done(Err(e)))
                    | (Awaiting::File, CopyEvent::Done(Err(e))) => {
                        &&& r == CopyOp::Finish(Err(e))
                        &&& final(self).awaiting() == Awaiting::Over
                        &&& final(self).frames().len() == 0
                    },
                    _ => {
                        &&& r is Nothing
                        &&& final(self).frames() == fs
                        &&& final(self).awaiting() == old(self).awaiting()
                    },
                }
            }),
    {
        match (self.awaiting, event) {
            (Awaiting::Create, CopyEvent::Done(Ok(()))) => {
                let n = self.frames.len();
                self.awaiting = Awaiting::List;
                CopyOp::ListDir(self.frames[n - 1].src.clone())
            },
            (Awaiting::List, CopyEvent::Listed(entries)) => {
                let ghost before = self.frames@;
                let mut f = self.frames.pop().unwrap();
                f.entries = entries;
                f.next = 0;
                proof {
                    lemma_chain_pop(before);
                    assert(before.drop_last() =~= self.frames@);
                    if self.frames@.len() > 0 {
                        assert(child_of(before[before.len() - 2], before[before.len() - 1]));
                    }
                    lemma_chain_push(self.frames@, f);
                }
                let ghost rest = self.frames();
                self.frames.push(f);
                proof {
                    let bv = before.map_values(|f: Frame| frame_view(f));
                    assert(rest =~= bv.drop_last());
                    assert(self.frames() =~= rest.push(frame_view(f)));
                    assert(frame_view(f).2 =~= entries_view(entries@));
                }
                self.take_next()
            },
            (Awaiting::Link, CopyEvent::Done(_)) => self.take_next(),
            (Awaiting::File, CopyEvent::Done(Ok(()))) => self.take_next(),
            (Awaiting::Create, CopyEvent::Done(Err(e))) | (Awaiting::List, CopyEvent::Done(Err(e)))
            | (Awaiting::File, CopyEvent::Done(Err(e))) => {
                self.frames = Vec::new();
                self.awaiting = Awaiting::Over;
                assert(self.frames().len() == 0);
                CopyOp::Finish(Err(e))
            },
            _ => CopyOp::Nothing,
        }
    }
}

} // verus!
