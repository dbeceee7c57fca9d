//! The unclaimed-message buffer, as a plain single-owner value.
//!
//! A `Pending<T>` is what the broker keeps behind its lock: messages are
//! appended at the back and any one of them may be claimed by a filter.
use vstd::multiset::Multiset;
use vstd::prelude::*;

verus! {

broadcast use vstd::seq_lib::group_to_multiset_ensures;

/// Buffer of messages that no consumer has claimed yet.
pub struct Pending<T> {
    items: Vec<T>,
}

impl<T> View for Pending<T> {
    type V = Seq<T>;

    closed spec fn view(&self) -> Seq<T> {
        self.items@
    }
}

/// Whether `filter` is callable on every message.
pub open spec fn total_filter<T, F: Fn(&T) -> bool>(filter: &F) -> bool {
    forall|m: &T| #[trigger] filter.requires((m,))
}

/// Whether `filter` accepts `m`.
pub open spec fn accepts<T, F: Fn(&T) -> bool>(filter: &F, m: T) -> bool {
    filter.ensures((&m,), true)
}

/// Whether `filter` rejects `m`.
pub open spec fn rejects<T, F: Fn(&T) -> bool>(filter: &F, m: T) -> bool {
    filter.ensures((&m,), false)
}

/// Whether `filter` rejects every message of `s`.
pub open spec fn none_accepted<T, F: Fn(&T) -> bool>(s: Seq<T>, filter: &F) -> bool {
    forall|i: int| 0 <= i < s.len() ==> rejects(filter, #[trigger] s[i])
}

/// Removing the element at `i` by moving the last one into its place leaves
/// the same messages but that one.
proof fn lemma_swap_remove_multiset<T>(s: Seq<T>, i: int)
    requires
        0 <= i < s.len(),
    ensures
        s.update(i, s.last()).drop_last().to_multiset() =~= s.to_multiset().remove(s[i]),
{
    let n = s.len() - 1;
    let l = s.last();
    let d = s.drop_last();
    let t = s.update(i, l).drop_last();
    assert(d =~= s.remove(n));
    if i < n {
        assert(t =~= d.update(i, l));
        assert(t.remove(i) =~= d.remove(i));
        assert(t[i] == l);
        assert(t.to_multiset().count(l) > 0);
        assert(d[i] == s[i]);
        assert(t.to_multiset().remove(l) =~= d.to_multiset().remove(s[i]));
        assert(t.to_multiset() =~= t.to_multiset().remove(l).insert(l));
        assert(d.to_multiset().count(s[i]) > 0);
        assert(d.to_multiset() =~= s.to_multiset().remove(l));
        assert(t.to_multiset() =~= d.to_multiset().remove(s[i]).insert(l));
        assert(s.to_multiset().count(l) > 0);
    } else {
        assert(t =~= d);
    }
}

/// One operation on a buffer: a message appended, or a message claimed.
pub enum Step<T> {
    Push(T),
    Claim(T),
}

/// What a buffer that started empty holds after the steps of `trace`, taken in
/// order; `None` where some step claims a message that is not there.
pub open spec fn replay<T>(trace: Seq<Step<T>>) -> Option<Multiset<T>>
    decreases trace.len(),
{
    if trace.len() == 0 {
        Some(Multiset::empty())
    } else {
        match replay(trace.drop_last()) {
            None => None,
            Some(b) => match trace.last() {
                Step::Push(m) => Some(b.insert(m)),
                Step::Claim(m) => if b.contains(m) {
                    Some(b.remove(m))
                } else {
                    None
                },
            },
        }
    }
}

/// Number of steps of `trace` that push `m`.
pub open spec fn pushes_of<T>(trace: Seq<Step<T>>, m: T) -> nat {
    trace.filter(|s: Step<T>| s == Step::Push(m)).len()
}

/// Number of steps of `trace` that claim `m`.
pub open spec fn claims_of<T>(trace: Seq<Step<T>>, m: T) -> nat {
    trace.filter(|s: Step<T>| s == Step::Claim(m)).len()
}

/// Number of push steps of `trace`.
pub open spec fn push_count<T>(trace: Seq<Step<T>>) -> nat {
    trace.filter(|s: Step<T>| s is Push).len()
}

/// Number of claim steps of `trace`.
pub open spec fn claim_count<T>(trace: Seq<Step<T>>) -> nat {
    trace.filter(|s: Step<T>| s is Claim).len()
}

proof fn lemma_replay_counts<T>(trace: Seq<Step<T>>, m: T)
    requires
        replay(trace) is Some,
    ensures
        replay(trace)->Some_0.count(m) == pushes_of(trace, m) - claims_of(trace, m),
        replay(trace)->Some_0.len() == push_count(trace) - claim_count(trace),
    decreases trace.len(),
{
    if trace.len() > 0 {
        let init = trace.drop_last();
        lemma_replay_counts(init, m);
        assert(trace =~= init.push(trace.last()));
        reveal(Seq::filter);
        assert(init.push(trace.last()).drop_last() =~= init);
    } else {
        reveal(Seq::filter);
    }
}

/// A message is claimed at most as many times as it was pushed: in any run of
/// pushes and claims on a buffer, no pushed message goes to two consumers.
pub proof fn lemma_claimed_at_most_once<T>(trace: Seq<Step<T>>, m: T)
    requires
        replay(trace) is Some,
    ensures
        claims_of(trace, m) <= pushes_of(trace, m),
{
    lemma_replay_counts(trace, m);
}

/// After any run of pushes and claims from an empty buffer, the buffer holds
/// as many messages as were pushed less those claimed.
pub proof fn lemma_len_is_pushes_minus_claims<T>(trace: Seq<Step<T>>)
    requires
        replay(trace) is Some,
    ensures
        replay(trace)->Some_0.len() == push_count(trace) - claim_count(trace),
{
    if trace.len() > 0 {
        lemma_replay_counts(trace, trace[0]->Push_0);
    } else {
        reveal(Seq::filter);
    }
}

/// A buffer that holds what `trace` leaves still does after `push(m)`, with
/// the push added to the trace.
pub proof fn lemma_push_follows_replay<T>(trace: Seq<Step<T>>, before: Seq<T>, m: T)
    requires
        replay(trace) == Some(before.to_multiset()),
    ensures
        replay(trace.push(Step::Push(m))) == Some(before.push(m).to_multiset()),
{
    assert(trace.push(Step::Push(m)).drop_last() =~= trace);
}

/// A buffer that holds what `trace` leaves still does after a `claim` that
/// returned `m`, with the claim added to the trace.
pub proof fn lemma_claim_follows_replay<T>(trace: Seq<Step<T>>, before: Seq<T>, after: Seq<T>, m: T)
    requires
        replay(trace) == Some(before.to_multiset()),
        before.contains(m),
        after.to_multiset() == before.to_multiset().remove(m),
    ensures
        replay(trace.push(Step::Claim(m))) == Some(after.to_multiset()),
{
    assert(trace.push(Step::Claim(m)).drop_last() =~= trace);
}

/// A message that `filter` cannot reject is never passed over: with it in
/// the buffer, `claim` and `keep_waiting` cannot take their empty-handed branch,
/// so a consumer waiting for it is served unless another claims it first.
pub proof fn lemma_present_match_is_served<T, F: Fn(&T) -> bool>(s: Seq<T>, filter: &F, i: int)
    requires
        0 <= i < s.len(),
        !rejects(filter, s[i]),
    ensures
        !none_accepted(s, filter),
{
}

impl<T> Pending<T> {
    /// An empty buffer.
    pub fn new() -> (r: Self)
        ensures
            r@ == Seq::<T>::empty(),
    {
        Pending { items: Vec::new() }
    }

    /// Number of unclaimed messages.
    pub fn len(&self) -> (r: usize)
        ensures
            r == self@.len(),
    {
        self.items.len()
    }

    /// Whether no message is unclaimed.
    pub fn is_empty(&self) -> (r: bool)
        ensures
            r == (self@.len() == 0),
    {
        self.items.len() == 0
    }

    /// Appends `message` at the back.
    pub fn push(&mut self, message: T)
        ensures
            final(self)@ == old(self)@.push(message),
    {
        self.items.push(message);
    }

    /// Index of a message that `filter` accepts, if any does.
    pub fn position<F: Fn(&T) -> bool>(&self, filter: &F) -> (r: Option<usize>)
        requires
            total_filter(filter),
        ensures
            match r {
                Some(i) => i < self@.len() && accepts(filter, self@[i as int]),
                None => none_accepted(self@, filter),
            },
    {
        let mut i: usize = 0;
        while i < self.items.len()
            invariant
                total_filter(filter),
                i <= self.items@.len(),
                none_accepted(self.items@.take(i as int), filter),
            decreases self.items@.len() - i,
        {
            let hit = filter(&self.items[i]);
            if hit {
                return Some(i);
            }
            assert(self.items@.take(i + 1) =~= self.items@.take(i as int).push(self.items@[i as int]));
            i = i + 1;
        }
        assert(self.items@.take(i as int) =~= self.items@);
        None
    }

    /// Whether some message is accepted by `filter`.
    pub fn any_accepted<F: Fn(&T) -> bool>(&self, filter: &F) -> (r: bool)
        requires
            total_filter(filter),
        ensures
            !r ==> none_accepted(self@, filter),
            r ==> exists|i: int| 0 <= i < self@.len() && accepts(filter, #[trigger] self@[i]),
    {
        match self.position(filter) {
            Some(i) => {
                assert(accepts(filter, self@[i as int]));
                true
            },
            None => false,
        }
    }

    /// Removes and returns a message that `filter` accepts; with none, leaves
    /// the buffer as it is. The last message takes the place of the claimed one.
    pub fn claim<F: Fn(&T) -> bool>(&mut self, filter: &F) -> (r: Option<T>)
        requires
            total_filter(filter),
        ensures
            match r {
                Some(m) => {
                    &&& accepts(filter, m)
                    &&& old(self)@.contains(m)
                    &&& final(self)@.len() == old(self)@.len() - 1
                    &&& final(self)@.to_multiset() == old(self)@.to_multiset().remove(m)
                    &&& exists|i: int|
                        0 <= i < old(self)@.len() && old(self)@[i] == m && final(self)@ == old(
                            self,
                        )@.update(i, old(self)@.last()).drop_last()
                },
                None => {
                    &&& none_accepted(old(self)@, filter)
                    &&& final(self)@ == old(self)@
                },
            },
    {
        match self.position(filter) {
            Some(i) => {
                proof {
                    lemma_swap_remove_multiset(self.items@, i as int);
                }
                let m = self.items.swap_remove(i);
                Some(m)
            },
            None => None,
        }
    }

    /// Condition of a consumer that waits for a message accepted by `filter`:
    /// claims one into `slot` and answers `false` when there is one, and
    /// answers `true` (keep waiting) with nothing changed when there is none.
    pub fn keep_waiting<F: Fn(&T) -> bool>(&mut self, filter: &F, slot: &mut Option<T>) -> (r: bool)
        requires
            total_filter(filter),
        ensures
            r ==> final(self)@ == old(self)@ && *final(slot) == *old(slot) && none_accepted(
                old(self)@,
                filter,
            ),
            !r ==> match *final(slot) {
                Some(m) => {
                    &&& accepts(filter, m)
                    &&& old(self)@.contains(m)
                    &&& final(self)@.to_multiset() == old(self)@.to_multiset().remove(m)
                },
                None => false,
            },
    {
        match self.claim(filter) {
            Some(m) => {
                *slot = Some(m);
                false
            },
            None => true,
        }
    }
}

} // verus!
