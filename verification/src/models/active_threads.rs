use vstd::prelude::*;
use crate::utils::text::contains_id;

verus! {

/// The threads, by channel id, in which the bot keeps a conversation
/// going, in the order in which they were opened.
#[derive(Debug)]
pub struct ActiveThreads {
    pub ids: Vec<u64>,
}

/// The ids of `active` that are not among `archived`, in their order.
pub open spec fn without_archived(active: Seq<u64>, archived: Seq<u64>) -> Seq<u64> {
    active.filter(|id: u64| !archived.contains(id))
}

impl View for ActiveThreads {
    type V = Seq<u64>;

    open spec fn view(&self) -> Seq<u64> {
        self.ids@
    }
}

impl ActiveThreads {
    /// No thread is active.
    pub fn new() -> (r: Self)
        ensures
            r@ == Seq::<u64>::empty(),
    {
        ActiveThreads { ids: Vec::new() }
    }

    pub fn contains(&self, channel_id: u64) -> (r: bool)
        ensures
            r == self@.contains(channel_id),
    {
        contains_id(&self.ids, channel_id)
    }

    /// Records a newly opened thread as the last active one.
    pub fn register(&mut self, channel_id: u64)
        ensures
            final(self)@ == old(self)@.push(channel_id),
    {
        self.ids.push(channel_id);
    }

    /// Forgets every thread that has been archived, keeping the others
    /// in their order.
    pub fn clear_inactive_threads(&mut self, archived: &Vec<u64>)
        ensures
            final(self)@ == without_archived(old(self)@, archived@),
    {
        let ghost before = self@;
        let ghost pred = |id: u64| !archived@.contains(id);
        let mut kept: Vec<u64> = Vec::new();
        let n = self.ids.len();
        let mut i: usize = 0;
        while i < n
            invariant
                n == self.ids.len(),
                before == self@,
                i <= n,
                pred == (|id: u64| !archived@.contains(id)),
                kept@ == before.take(i as int).filter(pred),
            decreases n - i,
        {
            let id = self.ids[i];
            let archived_now = contains_id(archived, id);
            proof {
                reveal_with_fuel(Seq::<_>::filter, 1);
                assert(before.take(i + 1).drop_last() =~= before.take(i as int));
            }
            if !archived_now {
                kept.push(id);
            }
            i = i + 1;
        }
        proof {
            assert(before.take(n as int) =~= before);
        }
        self.ids = kept;
    }
}

/// A thread that was just registered is active.
pub proof fn lemma_registered_is_active(active: Seq<u64>, channel_id: u64)
    ensures
        active.push(channel_id).contains(channel_id),
{
    assert(active.push(channel_id)[active.len() as int] == channel_id);
}

/// Clearing the archived threads twice leaves what clearing them once
/// leaves.
pub proof fn lemma_clear_idempotent(active: Seq<u64>, archived: Seq<u64>)
    ensures
        without_archived(without_archived(active, archived), archived) == without_archived(
            active,
            archived,
        ),
{
    let once = without_archived(active, archived);
    assert forall|i: int| 0 <= i < once.len() implies !archived.contains(#[trigger] once[i]) by {
        active.lemma_filter_pred(|id: u64| !archived.contains(id), i);
    }
    lemma_filter_keeps_all(once, |id: u64| !archived.contains(id));
}

/// Filtering with a predicate that holds of every element changes nothing.
pub proof fn lemma_filter_keeps_all(s: Seq<u64>, pred: spec_fn(u64) -> bool)
    requires
        forall|i: int| 0 <= i < s.len() ==> pred(#[trigger] s[i]),
    ensures
        s.filter(pred) == s,
    decreases s.len(),
{
    reveal_with_fuel(Seq::<_>::filter, 1);
    if s.len() > 0 {
        lemma_filter_keeps_all(s.drop_last(), pred);
        assert(pred(s[s.len() - 1]));
        assert(s.drop_last().push(s.last()) =~= s);
    }
}

/// After clearing, no archived thread is active, and every thread that
/// is still active was active before.
pub proof fn lemma_cleared_threads_are_gone(active: Seq<u64>, archived: Seq<u64>, id: u64)
    ensures
        without_archived(active, archived).contains(id) <==> (active.contains(id)
            && !archived.contains(id)),
{
    let pred = |x: u64| !archived.contains(x);
    let once = without_archived(active, archived);
    if once.contains(id) {
        active.lemma_filter_contains_rev(pred, id);
        let i = choose|i: int| 0 <= i < once.len() && once[i] == id;
        active.lemma_filter_pred(pred, i);
    }
    if active.contains(id) && !archived.contains(id) {
        let i = choose|i: int| 0 <= i < active.len() && active[i] == id;
        active.lemma_filter_contains(pred, i);
    }
}

} // verus!
