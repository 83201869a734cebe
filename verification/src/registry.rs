//! Ledger of live opaque handles. A handle is live from the creation call
//! that returned it until the destruction call that consumed it; the
//! ledger makes that lifetime an explicit, checkable object. Registration
//! hands out fresh tokens, release retires them, and the set of live
//! tokens is the observable state the lifecycle laws speak of.

use vstd::prelude::*;

verus! {

/// The ledger: a monotone counter for freshness and the tokens currently
/// live, each recorded once.
pub struct HandleRegistry {
    next_id: u64,
    live: Vec<u64>,
}

impl HandleRegistry {
    /// Every live token was handed out (is below the counter) and is
    /// recorded exactly once.
    pub closed spec fn wf(self) -> bool {
        &&& forall|i: int| 0 <= i < self.live@.len() ==> #[trigger] self.live@[i] < self.next_id
        &&& forall|i: int, j: int|
            0 <= i < j < self.live@.len() ==> self.live@[i] != self.live@[j]
    }

    /// The set of tokens currently live.
    pub closed spec fn live_ids(self) -> Set<u64> {
        self.live@.to_set()
    }

    /// How many handles are currently live.
    pub closed spec fn live_count(self) -> nat {
        self.live@.len()
    }

    /// How many tokens have ever been handed out; freshness runs out only
    /// when the token space is exhausted.
    pub closed spec fn issued(self) -> nat {
        self.next_id as nat
    }

    /// An empty ledger: nothing is live.
    pub fn new() -> (r: HandleRegistry)
        ensures
            r.wf(),
            r.live_ids() == Set::<u64>::empty(),
            r.live_count() == 0,
            r.issued() == 0,
    {
        let r = HandleRegistry { next_id: 0, live: Vec::new() };
        proof {
            assert(r.live_ids() =~= Set::<u64>::empty());
        }
        r
    }

    /// Whether a fresh token can still be handed out.
    pub fn can_issue(&self) -> (r: bool)
        ensures
            r == (self.issued() < u64::MAX),
    {
        self.next_id < u64::MAX
    }

    /// Record a newly created handle and hand out its token. The token is
    /// fresh: it was not live before, and afterwards exactly it has been
    /// added to the live set.
    pub fn register(&mut self) -> (id: u64)
        requires
            old(self).wf(),
            old(self).issued() < u64::MAX,
        ensures
            final(self).wf(),
            !old(self).live_ids().contains(id),
            final(self).live_ids() == old(self).live_ids().insert(id),
            final(self).live_count() == old(self).live_count() + 1,
            final(self).issued() == old(self).issued() + 1,
    {
        let id = self.next_id;
        self.next_id = self.next_id + 1;
        self.live.push(id);
        proof {
            let oldseq = old(self).live@;
            assert(self.live@ == oldseq.push(id));
            assert(forall|i: int|
                0 <= i < oldseq.len() ==> #[trigger] self.live@[i] == oldseq[i]);
            assert(self.live@[oldseq.len() as int] == id);
            assert(!oldseq.contains(id));
            assert forall|x: u64| self.live@.contains(x) implies (oldseq.contains(x) || x == id) by {
                let i = choose|i: int| 0 <= i < self.live@.len() && self.live@[i] == x;
                if i < oldseq.len() {
                    assert(oldseq[i] == x);
                }
            }
            assert forall|x: u64| oldseq.contains(x) implies self.live@.contains(x) by {
                let i = choose|i: int| 0 <= i < oldseq.len() && oldseq[i] == x;
                assert(self.live@[i] == x);
            }
            assert(self.live@.contains(id));
            assert(self.live_ids() =~= old(self).live_ids().insert(id));
        }
        id
    }

    /// Whether a token is currently live.
    pub fn is_live(&self, id: u64) -> (r: bool)
        ensures
            r == self.live_ids().contains(id),
    {
        let mut i: usize = 0;
        while i < self.live.len()
            invariant
                i <= self.live@.len(),
                forall|j: int| 0 <= j < i ==> #[trigger] self.live@[j] != id,
            decreases self.live@.len() - i,
        {
            if self.live[i] == id {
                assert(self.live@.contains(id));
                return true;
            }
            i = i + 1;
        }
        assert(!self.live@.contains(id));
        false
    }

    /// Retire a handle's token. If it was live, exactly it leaves the
    /// live set; if it was not, nothing changes.
    pub fn release(&mut self, id: u64) -> (found: bool)
        requires
            old(self).wf(),
        ensures
            final(self).wf(),
            found == old(self).live_ids().contains(id),
            final(self).live_ids() == old(self).live_ids().remove(id),
            final(self).issued() == old(self).issued(),
            found ==> final(self).live_count() == old(self).live_count() - 1,
            !found ==> *final(self) == *old(self),
    {
        let mut i: usize = 0;
        while i < self.live.len()
            invariant
                i <= self.live@.len(),
                forall|j: int| 0 <= j < i ==> #[trigger] self.live@[j] != id,
                *self == *old(self),
                old(self).wf(),
            decreases self.live@.len() - i,
        {
            if self.live[i] == id {
                let ghost oldseq = old(self).live@;
                let ghost k = i as int;
                proof {
                    assert(oldseq[k] == id);
                    assert(oldseq.contains(id));
                    oldseq.remove_ensures(k);
                    assert forall|m: int| 0 <= m < oldseq.len() && m != k implies oldseq[m]
                        != id by {
                        if m < k {
                            assert(old(self).live@[m] != old(self).live@[k]);
                        } else {
                            assert(old(self).live@[k] != old(self).live@[m]);
                        }
                    }
                }
                self.live.remove(i);
                proof {
                    let newseq = oldseq.remove(k);
                    assert(self.live@ == newseq);
                    assert(forall|m: int| 0 <= m < k ==> #[trigger] newseq[m] == oldseq[m]);
                    assert(forall|m: int|
                        k <= m < oldseq.len() - 1 ==> #[trigger] newseq[m] == oldseq[m + 1]);
                    assert forall|a: int| 0 <= a < newseq.len() implies #[trigger] newseq[a]
                        < self.next_id by {
                        if a < k {
                            assert(newseq[a] == oldseq[a]);
                        } else {
                            assert(newseq[a] == oldseq[a + 1]);
                        }
                    }
                    assert forall|a: int, b: int| 0 <= a < b < newseq.len() implies newseq[a]
                        != newseq[b] by {
                        let a0: int = if a < k {
                            a
                        } else {
                            a + 1
                        };
                        let b0: int = if b < k {
                            b
                        } else {
                            b + 1
                        };
                        assert(newseq[a] == oldseq[a0]);
                        assert(newseq[b] == oldseq[b0]);
                        assert(old(self).live@[a0] != old(self).live@[b0]);
                    }
                    assert forall|x: u64| newseq.contains(x) implies (oldseq.contains(x) && x
                        != id) by {
                        let j = choose|j: int| 0 <= j < newseq.len() && newseq[j] == x;
                        if j < k {
                            assert(oldseq[j] == x);
                        } else {
                            assert(oldseq[j + 1] == x);
                        }
                    }
                    assert forall|x: u64| (oldseq.contains(x) && x != id) implies newseq.contains(
                        x,
                    ) by {
                        let j = choose|j: int| 0 <= j < oldseq.len() && oldseq[j] == x;
                        if j < k {
                            assert(newseq[j] == x);
                        } else {
                            assert(j != k);
                            assert(newseq[j - 1] == oldseq[j]);
                        }
                    }
                    assert(self.live_ids() =~= old(self).live_ids().remove(id));
                }
                return true;
            }
            i = i + 1;
        }
        proof {
            assert(!self.live@.contains(id));
            assert(self.live_ids() =~= old(self).live_ids().remove(id));
        }
        false
    }
}

/// The creation decision. The edge reports three verdicts in the order
/// the creation call gathers them: whether a provided path decoded as
/// text, whether a configuration was obtained (defaults count as
/// obtained), and whether the pipeline collaborator was built from it.
/// A handle is registered and returned exactly when all three hold; any
/// failure yields null and leaves the ledger unchanged.
pub fn create(
    reg: &mut HandleRegistry,
    path_ok: bool,
    config_ok: bool,
    pipeline_ok: bool,
) -> (r: Option<u64>)
    requires
        old(reg).wf(),
        old(reg).issued() < u64::MAX,
    ensures
        final(reg).wf(),
        r is Some <==> (path_ok && config_ok && pipeline_ok),
        r matches Some(id) ==> {
            &&& !old(reg).live_ids().contains(id)
            &&& final(reg).live_ids() == old(reg).live_ids().insert(id)
            &&& final(reg).live_count() == old(reg).live_count() + 1
        },
        r is None ==> *final(reg) == *old(reg),
{
    if path_ok && config_ok && pipeline_ok {
        Some(reg.register())
    } else {
        None
    }
}

/// The destruction decision: destroying null is a no-op; destroying a
/// handle retires exactly its token.
pub fn destroy(reg: &mut HandleRegistry, handle: Option<u64>) -> (found: bool)
    requires
        old(reg).wf(),
    ensures
        final(reg).wf(),
        handle is None ==> (*final(reg) == *old(reg) && !found),
        handle matches Some(id) ==> {
            &&& found == old(reg).live_ids().contains(id)
            &&& final(reg).live_ids() == old(reg).live_ids().remove(id)
        },
{
    match handle {
        Some(id) => reg.release(id),
        None => false,
    }
}

/// Creating a handle and immediately destroying it leaves no observable
/// handle: retiring a token that was fresh when handed out restores the
/// live set that held before the creation.
pub proof fn lemma_create_then_destroy(live: Set<u64>, id: u64)
    requires
        !live.contains(id),
    ensures
        live.insert(id).remove(id) == live,
{
    assert(live.insert(id).remove(id) =~= live);
}

} // verus!
