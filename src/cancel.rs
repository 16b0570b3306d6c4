//! Per-download cancellation flags.
//!
//! A registry remembers which downloads are running and which of them have a
//! pending cancellation request. A request for an identifier that is not
//! running is ignored, and a flag never outlives the download it was raised
//! for, so a later download under the same identifier starts clean.
use vstd::prelude::*;

verus! {

/// The identifiers held by a vector of strings, as a set of character sequences.
pub open spec fn id_set(v: Seq<String>) -> Set<Seq<char>> {
    Set::new(|k: Seq<char>| exists|i: int| 0 <= i < v.len() && #[trigger] v[i]@ == k)
}

pub struct CancelRegistry {
    active: Vec<String>,
    cancelled: Vec<String>,
}

fn same_id(a: &String, b: &String) -> (r: bool)
    ensures
        r == (a@ == b@),
{
    a.eq(b)
}

fn holds_id(v: &Vec<String>, id: &String) -> (r: bool)
    ensures
        r == id_set(v@).contains(id@),
{
    let mut i: usize = 0;
    while i < v.len()
        invariant
            i <= v.len(),
            forall|j: int| 0 <= j < i ==> v@[j]@ != id@,
        decreases v.len() - i,
    {
        if same_id(&v[i], id) {
            assert(v@[i as int]@ == id@);
            return true;
        }
        i += 1;
    }
    false
}

fn without_id(v: &Vec<String>, id: &String) -> (r: Vec<String>)
    ensures
        id_set(r@) == id_set(v@).remove(id@),
{
    let mut out: Vec<String> = Vec::new();
    let mut i: usize = 0;
    while i < v.len()
        invariant
            i <= v.len(),
            id_set(out@) == id_set(v@.subrange(0, i as int)).remove(id@),
        decreases v.len() - i,
    {
        let ghost before = out@;
        if !same_id(&v[i], id) {
            out.push(v[i].clone());
        }
        proof {
            let pre = v@.subrange(0, i as int);
            let post = v@.subrange(0, i + 1);
            assert(post =~= pre.push(v@[i as int]));
            assert(id_set(out@) =~= id_set(post).remove(id@)) by {
                assert forall|k: Seq<char>| #[trigger] id_set(post).remove(id@).contains(k)
                    implies id_set(out@).contains(k) by {
                    let j = choose|j: int| 0 <= j < post.len() && #[trigger] post[j]@ == k;
                    if j < i {
                        assert(pre[j]@ == k);
                        assert(id_set(pre).contains(k));
                        assert(id_set(before).contains(k));
                        let m = choose|m: int| 0 <= m < before.len() && #[trigger] before[m]@ == k;
                        assert(out@[m] == before[m]);
                        assert(out@[m]@ == k);
                    } else {
                        assert(out@[out@.len() - 1]@ == k);
                    }
                }
                assert forall|k: Seq<char>| #[trigger] id_set(out@).contains(k)
                    implies id_set(post).remove(id@).contains(k) by {
                    let m = choose|m: int| 0 <= m < out@.len() && #[trigger] out@[m]@ == k;
                    if m < before.len() {
                        assert(before[m]@ == k);
                        assert(id_set(before).contains(k));
                        let j = choose|j: int| 0 <= j < pre.len() && #[trigger] pre[j]@ == k;
                        assert(post[j]@ == k);
                    } else {
                        assert(post[i as int]@ == k);
                    }
                }
            }
        }
        i += 1;
    }
    assert(v@.subrange(0, v@.len() as int) =~= v@);
    out
}

fn with_id(v: &mut Vec<String>, id: &String)
    ensures
        id_set(final(v)@) == id_set(old(v)@).insert(id@),
{
    if !holds_id(v, id) {
        let ghost before = v@;
        v.push(id.clone());
        assert(id_set(v@) =~= id_set(before).insert(id@)) by {
            assert(v@[v@.len() - 1]@ == id@);
            assert forall|k: Seq<char>| #[trigger] id_set(before).contains(k)
                implies id_set(v@).contains(k) by {
                let j = choose|j: int| 0 <= j < before.len() && #[trigger] before[j]@ == k;
                assert(v@[j]@ == k);
            }
            assert forall|k: Seq<char>| #[trigger] id_set(v@).contains(k)
                implies id_set(before).insert(id@).contains(k) by {
                let j = choose|j: int| 0 <= j < v@.len() && #[trigger] v@[j]@ == k;
                if j < before.len() {
                    assert(before[j]@ == k);
                }
            }
        }
    } else {
        assert(id_set(v@) =~= id_set(v@).insert(id@));
    }
}

impl CancelRegistry {
    /// The identifiers of the downloads that are running.
    pub closed spec fn active(&self) -> Set<Seq<char>> {
        id_set(self.active@)
    }

    /// The identifiers whose cancellation was requested and not yet consumed.
    pub closed spec fn pending(&self) -> Set<Seq<char>> {
        id_set(self.cancelled@)
    }

    /// Every pending request belongs to a running download.
    pub open spec fn wf(&self) -> bool {
        self.pending().subset_of(self.active())
    }

    /// The effect of [`CancelRegistry::begin`].
    pub open spec fn begun(pre: Self, post: Self, id: Seq<char>) -> bool {
        &&& post.active() == pre.active().insert(id)
        &&& post.pending() == pre.pending().remove(id)
    }

    /// The effect of [`CancelRegistry::request_cancel`].
    pub open spec fn requested(pre: Self, post: Self, id: Seq<char>) -> bool {
        &&& post.active() == pre.active()
        &&& post.pending() == if pre.active().contains(id) {
            pre.pending().insert(id)
        } else {
            pre.pending()
        }
    }

    /// The effect of [`CancelRegistry::finish`].
    pub open spec fn finished(pre: Self, post: Self, id: Seq<char>) -> bool {
        &&& post.active() == pre.active().remove(id)
        &&& post.pending() == pre.pending().remove(id)
    }

    pub fn new() -> (r: Self)
        ensures
            r.wf(),
            r.active() == Set::<Seq<char>>::empty(),
            r.pending() == Set::<Seq<char>>::empty(),
    {
        let r = CancelRegistry { active: Vec::new(), cancelled: Vec::new() };
        assert(r.active() =~= Set::<Seq<char>>::empty());
        assert(r.pending() =~= Set::<Seq<char>>::empty());
        r
    }

    /// Registers a download that starts now; any flag left under its identifier is dropped.
    pub fn begin(&mut self, id: &String)
        requires
            old(self).wf(),
        ensures
            final(self).wf(),
            Self::begun(*old(self), *final(self), id@),
    {
        with_id(&mut self.active, id);
        self.cancelled = without_id(&self.cancelled, id);
    }

    /// Asks the running download `id` to stop. Returns whether such a download
    /// was running; when none was, nothing changes.
    pub fn request_cancel(&mut self, id: &String) -> (r: bool)
        requires
            old(self).wf(),
        ensures
            final(self).wf(),
            r == old(self).active().contains(id@),
            Self::requested(*old(self), *final(self), id@),
    {
        if holds_id(&self.active, id) {
            with_id(&mut self.cancelled, id);
            true
        } else {
            false
        }
    }

    /// Whether a cancellation of `id` is pending; nothing is cleared.
    pub fn is_cancelled(&self, id: &String) -> (r: bool)
        ensures
            r == self.pending().contains(id@),
    {
        holds_id(&self.cancelled, id)
    }

    /// Whether a cancellation of `id` is pending; the flag is cleared in the same step.
    pub fn consume(&mut self, id: &String) -> (r: bool)
        requires
            old(self).wf(),
        ensures
            final(self).wf(),
            r == old(self).pending().contains(id@),
            final(self).active() == old(self).active(),
            final(self).pending() == old(self).pending().remove(id@),
    {
        let r = holds_id(&self.cancelled, id);
        self.cancelled = without_id(&self.cancelled, id);
        r
    }

    /// Forgets the download `id`, which has ended, together with any flag it had.
    pub fn finish(&mut self, id: &String)
        requires
            old(self).wf(),
        ensures
            final(self).wf(),
            Self::finished(*old(self), *final(self), id@),
    {
        self.active = without_id(&self.active, id);
        self.cancelled = without_id(&self.cancelled, id);
    }
}

/// A cancellation flag is used once: a download that starts under an
/// identifier starts without a flag, whatever was requested before; and a
/// request made after the download under that identifier has finished is
/// ignored.
pub proof fn lemma_flag_single_use(
    r0: CancelRegistry,
    r1: CancelRegistry,
    r2: CancelRegistry,
    r3: CancelRegistry,
    id: Seq<char>,
)
    requires
        r0.wf(),
        CancelRegistry::finished(r0, r1, id),
        CancelRegistry::requested(r1, r2, id),
        CancelRegistry::begun(r2, r3, id),
    ensures
        !r2.pending().contains(id),
        !r3.pending().contains(id),
{
}

} // verus!
