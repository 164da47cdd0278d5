//! Process-wide allocation of unique instance ids.
//!
//! Several wallpaper instances can coexist inside one host; each one is
//! tagged with a small integer id so the host can correlate render elements
//! across frames. The registry hands out ids that are fresh among everything
//! it has allocated so far and never reclaims them.

use vstd::prelude::*;

verus! {

/// Allocator of unique instance ids: a monotonically increasing counter
/// together with the record of every id handed out so far.
///
/// The host is expected to keep one registry per process (behind a lock when
/// containers are constructed from several threads) and to allocate from it
/// with [`next_id`]. The record grows with every allocation and is never
/// pruned: uniqueness is promised among all ids ever handed out.
pub struct IdRegistry {
    next: usize,
    used: Vec<usize>,
}

impl View for IdRegistry {
    type V = Seq<usize>;

    /// The ids handed out so far, in order of allocation.
    closed spec fn view(&self) -> Seq<usize> {
        self.used@
    }
}

/// One allocation: `id` was fresh for the record `pre` — indeed, the counter
/// only moves up, so it lies strictly above everything recorded — and is
/// recorded in `post`.
pub open spec fn alloc_step(pre: Seq<usize>, id: usize, post: Seq<usize>) -> bool {
    &&& !pre.contains(id)
    &&& (forall|i: int| 0 <= i < pre.len() ==> pre[i] < id)
    &&& post == pre.push(id)
}

impl IdRegistry {
    /// Every recorded id lies strictly below the counter, so the counter's
    /// current value is always fresh; the counter advances once per
    /// allocation, so it equals the record's length.
    pub closed spec fn wf(&self) -> bool {
        &&& (forall|i: int| 0 <= i < self.used@.len() ==> self.used@[i] < self.next)
        &&& self.next == self.used@.len()
    }

    /// Every representable id has been handed out; no further allocation is
    /// possible. (A resource-limit condition no real host reaches.)
    pub open spec fn exhausted(&self) -> bool {
        self@.len() >= usize::MAX
    }

    /// An empty registry: nothing allocated yet.
    pub fn new() -> (r: IdRegistry)
        ensures
            r.wf(),
            !r.exhausted(),
            r@ == Seq::<usize>::empty(),
    {
        IdRegistry { next: 0, used: Vec::new() }
    }

    /// How many ids have been handed out.
    pub fn len(&self) -> (n: usize)
        ensures
            n == self@.len(),
    {
        self.used.len()
    }

    /// Membership check over the record.
    fn contains_used(&self, id: usize) -> (r: bool)
        ensures
            r == self@.contains(id),
    {
        let mut k: usize = 0;
        while k < self.used.len()
            invariant
                0 <= k <= self.used@.len(),
                forall|i: int| 0 <= i < k ==> self.used@[i] != id,
            decreases self.used@.len() - k,
        {
            if self.used[k] == id {
                proof {
                    assert(self.used@[k as int] == id);
                }
                return true;
            }
            k = k + 1;
        }
        false
    }
}

/// Allocate a fresh instance id.
///
/// The id returned was never handed out by this registry before — it lies
/// strictly above every id recorded so far, so successive allocations return
/// strictly increasing ids — and is recorded so that it never will be handed
/// out again. The membership loop defends the freshness promise even against
/// a wrapped counter; while the registry is well-formed the counter itself is
/// already fresh and the loop does not run.
pub fn next_id(reg: &mut IdRegistry) -> (id: usize)
    requires
        old(reg).wf(),
        !old(reg).exhausted(),
    ensures
        final(reg).wf(),
        alloc_step(old(reg)@, id, final(reg)@),
        forall|i: int| 0 <= i < old(reg)@.len() ==> old(reg)@[i] < id,
{
    let mut id: usize = reg.next;
    proof {
        assert(!reg@.contains(id)) by {
            if reg@.contains(id) {
                let i = choose|i: int| 0 <= i < reg@.len() && reg@[i] == id;
                assert(reg.used@[i] < reg.next);
            }
        }
    }
    while reg.contains_used(id)
        invariant
            !reg@.contains(id),
            id == reg.next,
        decreases 0int,
    {
        // Unreachable while the registry is well-formed: every recorded id
        // lies strictly below the counter. Kept as the wraparound guard the
        // freshness promise calls for.
        proof {
            assert(false);
        }
        id = reg.next;
    }
    reg.used.push(id);
    reg.next = reg.next + 1;
    id
}

/// All ids handed out along a chain of allocations are pairwise distinct —
/// indeed strictly increasing in allocation order.
///
/// `states` is the record of the registry before and after each allocation;
/// `ids` are the allocated ids, in order. Because every allocation returns an
/// id strictly above everything recorded so far and records it, no two
/// allocations can return the same id — in particular, containers constructed
/// one after another (or concurrently, serialized by the host's lock) carry
/// pairwise distinct instance ids.
pub proof fn lemma_allocated_ids_distinct(states: Seq<Seq<usize>>, ids: Seq<usize>)
    requires
        states.len() == ids.len() + 1,
        forall|k: int| 0 <= k < ids.len() ==> #[trigger] alloc_step(states[k], ids[k], states[k + 1]),
    ensures
        forall|i: int, j: int| 0 <= i < j < ids.len() ==> ids[i] < ids[j],
        forall|i: int, j: int| 0 <= i < j < ids.len() ==> ids[i] != ids[j],
{
    assert forall|i: int, j: int| 0 <= i < j < ids.len() implies ids[i] < ids[j] by {
        lemma_allocated_id_recorded(states, ids, i, j);
        assert(alloc_step(states[j], ids[j], states[j + 1]));
        let w = choose|w: int|
            0 <= w < states[j].len() && #[trigger] states[j][w] == ids[i];
        assert(states[j][w] < ids[j]);
    }
}

/// After allocation `i`, the id it returned stays recorded in every later state.
proof fn lemma_allocated_id_recorded(states: Seq<Seq<usize>>, ids: Seq<usize>, i: int, j: int)
    requires
        states.len() == ids.len() + 1,
        forall|k: int| 0 <= k < ids.len() ==> #[trigger] alloc_step(states[k], ids[k], states[k + 1]),
        0 <= i < j <= ids.len(),
    ensures
        states[j].contains(ids[i]),
    decreases j - i,
{
    if j == i + 1 {
        assert(alloc_step(states[i], ids[i], states[i + 1]));
        assert(states[i + 1][states[i].len() as int] == ids[i]);
    } else {
        lemma_allocated_id_recorded(states, ids, i, j - 1);
        assert(alloc_step(states[j - 1], ids[j - 1], states[j - 1 + 1]));
        let w = choose|w: int| 0 <= w < states[j - 1].len() && #[trigger] states[j - 1][w] == ids[i];
        assert(states[j][w] == ids[i]);
    }
}

} // verus!
