//! The dispatch gate: a fixed number of permits for calls to the provider.
//!
//! Every outbound call holds one permit for as long as it runs. A caller that
//! finds no permit free is suspended; the permits that come back are handed
//! to the suspended callers in the order in which they arrived. The dispatch gate
//! decides who runs and who waits. Waiting itself is done outside: a
//! suspended caller is told its ticket, and [`DispatchGate::release`] names
//! the ticket that may go on.

use vstd::prelude::*;

verus! {

/// The number of calls to the provider that may run at once.
pub const PROVIDER_CAPACITY: usize = 15;

/// The right to run one call. It is handed out by [`DispatchGate::acquire`]
/// or [`DispatchGate::release`] and given back to `release`.
#[derive(Debug, PartialEq, Eq)]
pub struct Permit {
    ticket: u64,
}

impl Permit {
    /// The ticket of the caller that holds this permit.
    pub closed spec fn spec_ticket(&self) -> nat {
        self.ticket as nat
    }

    /// The ticket of the caller that holds this permit.
    pub fn ticket(&self) -> (r: u64)
        ensures
            r == self.spec_ticket(),
    {
        self.ticket
    }
}

/// What a caller at the dispatch gate is told.
#[derive(Debug, PartialEq, Eq)]
pub enum Admission {
    /// A permit was free: the call may run.
    Granted(Permit),
    /// No permit is free: the caller waits under this ticket.
    Suspended(u64),
}

/// The model of an [`Admission`].
pub enum AdmissionView {
    Granted(nat),
    Suspended(nat),
}

impl DeepView for Admission {
    type V = AdmissionView;

    open spec fn deep_view(&self) -> AdmissionView {
        match self {
            Admission::Granted(permit) => AdmissionView::Granted(permit.spec_ticket()),
            Admission::Suspended(ticket) => AdmissionView::Suspended(*ticket as nat),
        }
    }
}

/// The model of a [`DispatchGate`].
pub struct DispatchGateView {
    /// How many calls may run at once.
    pub capacity: nat,
    /// The tickets of the calls that run.
    pub holders: Seq<nat>,
    /// The tickets of the suspended callers, first come first.
    pub waiting: Seq<nat>,
    /// How many tickets have been issued: the next caller gets this number.
    pub issued: nat,
}

/// `s` without `ticket`, the order of the others kept.
pub open spec fn spec_without(s: Seq<nat>, ticket: nat) -> Seq<nat>
    decreases s.len(),
{
    if s.len() == 0 {
        s
    } else if s.last() == ticket {
        spec_without(s.drop_last(), ticket)
    } else {
        spec_without(s.drop_last(), ticket).push(s.last())
    }
}

impl DispatchGateView {
    /// What every gate keeps: no more calls run than there are permits,
    /// nobody waits while a permit is free, and no ticket is in use twice.
    pub open spec fn wf(self) -> bool {
        &&& self.holders.len() <= self.capacity
        &&& self.waiting.len() > 0 ==> self.holders.len() == self.capacity
        &&& (self.holders + self.waiting).no_duplicates()
        &&& forall|i: int| 0 <= i < self.holders.len() ==> self.holders[i] < self.issued
        &&& forall|i: int| 0 <= i < self.waiting.len() ==> self.waiting[i] < self.issued
    }

    /// How many calls run.
    pub open spec fn running(self) -> nat {
        self.holders.len()
    }
}

/// A gate with `capacity` permits, all free.
pub open spec fn spec_new(capacity: nat) -> DispatchGateView {
    DispatchGateView { capacity, holders: Seq::empty(), waiting: Seq::empty(), issued: 0 }
}

/// The dispatch gate after one more caller has arrived: with a permit free the caller
/// runs, otherwise it joins the end of the queue.
pub open spec fn spec_acquire(s: DispatchGateView) -> DispatchGateView {
    if s.holders.len() < s.capacity {
        DispatchGateView { holders: s.holders.push(s.issued), issued: s.issued + 1, ..s }
    } else {
        DispatchGateView { waiting: s.waiting.push(s.issued), issued: s.issued + 1, ..s }
    }
}

/// What the caller that arrives at `s` is told.
pub open spec fn spec_admission(s: DispatchGateView) -> AdmissionView {
    if s.holders.len() < s.capacity {
        AdmissionView::Granted(s.issued)
    } else {
        AdmissionView::Suspended(s.issued)
    }
}

/// The dispatch gate after the call under `ticket` has given its permit back: the
/// permit goes to the caller that has waited longest, if anyone waits. A
/// ticket that holds no permit changes nothing.
pub open spec fn spec_release(s: DispatchGateView, ticket: nat) -> DispatchGateView {
    if !s.holders.contains(ticket) {
        s
    } else if s.waiting.len() > 0 {
        DispatchGateView {
            holders: spec_without(s.holders, ticket).push(s.waiting[0]),
            waiting: s.waiting.skip(1),
            ..s
        }
    } else {
        DispatchGateView { holders: spec_without(s.holders, ticket), ..s }
    }
}

/// The ticket that goes on when the call under `ticket` gives its permit
/// back at `s`.
pub open spec fn spec_resumed(s: DispatchGateView, ticket: nat) -> Option<nat> {
    if s.holders.contains(ticket) && s.waiting.len() > 0 {
        Some(s.waiting[0])
    } else {
        None
    }
}

/// `spec_without` drops exactly `ticket`: what is left holds the other
/// elements and no new ones, and where `s` repeats nothing it is one shorter
/// for a ticket that was in it.
pub proof fn lemma_without(s: Seq<nat>, ticket: nat)
    ensures
        !spec_without(s, ticket).contains(ticket),
        forall|t: nat| t != ticket ==> (spec_without(s, ticket).contains(t) <==> s.contains(t)),
        spec_without(s, ticket).len() <= s.len(),
        !s.contains(ticket) ==> spec_without(s, ticket) == s,
        s.no_duplicates() ==> spec_without(s, ticket).no_duplicates(),
        s.no_duplicates() && s.contains(ticket) ==> spec_without(s, ticket).len() + 1 == s.len(),
    decreases s.len(),
{
    let out = spec_without(s, ticket);
    if s.len() == 0 {
    } else {
        let front = s.drop_last();
        let last = s.last();
        lemma_without(front, ticket);
        let inner = spec_without(front, ticket);
        assert(s =~= front.push(last));
        assert forall|t: nat| s.contains(t) <==> (front.contains(t) || t == last) by {
            if s.contains(t) {
                let i = choose|i: int| 0 <= i < s.len() && s[i] == t;
                if i < front.len() {
                    assert(front[i] == t);
                }
            }
            if front.contains(t) {
                let i = choose|i: int| 0 <= i < front.len() && front[i] == t;
                assert(s[i] == t);
            }
            if t == last {
                assert(s[s.len() - 1] == t);
            }
        }
        if last == ticket {
            assert(out == inner);
            if s.no_duplicates() {
                assert(front.no_duplicates());
                if front.contains(ticket) {
                    let i = choose|i: int| 0 <= i < front.len() && front[i] == ticket;
                    assert(s[i] == s[s.len() - 1]);
                }
                assert(inner == front);
            }
        } else {
            assert(out == inner.push(last));
            assert forall|t: nat| out.contains(t) <==> (inner.contains(t) || t == last) by {
                if out.contains(t) {
                    let i = choose|i: int| 0 <= i < out.len() && out[i] == t;
                    if i < inner.len() {
                        assert(inner[i] == t);
                    }
                }
                if inner.contains(t) {
                    let i = choose|i: int| 0 <= i < inner.len() && inner[i] == t;
                    assert(out[i] == t);
                }
                if t == last {
                    assert(out[out.len() - 1] == t);
                }
            }
            if !s.contains(ticket) {
                assert(inner == front);
                assert(out =~= s);
            }
            if s.no_duplicates() {
                assert(front.no_duplicates());
                if front.contains(last) {
                    let i = choose|i: int| 0 <= i < front.len() && front[i] == last;
                    assert(s[i] == s[s.len() - 1]);
                }
                assert(!inner.contains(last));
                assert forall|i: int, j: int|
                    0 <= i < out.len() && 0 <= j < out.len() && i != j implies out[i] != out[j] by {
                    if i < inner.len() && j < inner.len() {
                        assert(inner[i] != inner[j]);
                    } else if i < inner.len() {
                        assert(inner.contains(inner[i]));
                    } else {
                        assert(inner.contains(inner[j]));
                    }
                }
            }
        }
    }
}

/// A new gate keeps what every gate keeps.
pub proof fn lemma_new_is_wf(capacity: nat)
    ensures
        spec_new(capacity).wf(),
{
    assert((spec_new(capacity).holders + spec_new(capacity).waiting) =~= Seq::<nat>::empty());
}

/// Admitting a caller keeps what every gate keeps.
pub proof fn lemma_acquire_keeps_wf(s: DispatchGateView)
    requires
        s.wf(),
    ensures
        spec_acquire(s).wf(),
{
    let next = spec_acquire(s);
    let ticket = s.issued;
    let all = s.holders + s.waiting;
    let all_next = next.holders + next.waiting;
    assert forall|i: int| 0 <= i < all.len() implies all[i] < s.issued by {
        if i < s.holders.len() {
            assert(all[i] == s.holders[i]);
        } else {
            assert(all[i] == s.waiting[i - s.holders.len()]);
        }
    }
    if s.holders.len() < s.capacity {
        assert(s.waiting.len() == 0);
        assert(all_next =~= all.push(ticket));
    } else {
        assert(all_next =~= all.push(ticket));
    }
    assert forall|i: int, j: int|
        0 <= i < all_next.len() && 0 <= j < all_next.len() && i != j implies all_next[i]
        != all_next[j] by {
        if i < all.len() && j < all.len() {
            assert(all[i] != all[j]);
        }
    }
}

/// Taking a permit back keeps what every gate keeps.
pub proof fn lemma_release_keeps_wf(s: DispatchGateView, ticket: nat)
    requires
        s.wf(),
    ensures
        spec_release(s, ticket).wf(),
        s.holders.contains(ticket) && s.waiting.len() > 0 ==> spec_release(s, ticket).running()
            == s.running(),
        s.holders.contains(ticket) && s.waiting.len() == 0 ==> spec_release(s, ticket).running()
            + 1 == s.running(),
{
    if s.holders.contains(ticket) {
        let next = spec_release(s, ticket);
        let all = s.holders + s.waiting;
        let rest = spec_without(s.holders, ticket);
        lemma_without(s.holders, ticket);
        assert(s.holders.no_duplicates()) by {
            assert forall|i: int, j: int|
                0 <= i < s.holders.len() && 0 <= j < s.holders.len() && i != j implies s.holders[i]
                != s.holders[j] by {
                assert(all[i] == s.holders[i]);
                assert(all[j] == s.holders[j]);
            }
        }
        assert forall|i: int| 0 <= i < rest.len() implies s.holders.contains(#[trigger] rest[i])
            && rest[i] != ticket by {
            assert(rest.contains(rest[i]));
        }
        assert forall|i: int| 0 <= i < rest.len() implies #[trigger] rest[i] < s.issued by {
            let k = choose|k: int| 0 <= k < s.holders.len() && s.holders[k] == rest[i];
            assert(s.holders[k] < s.issued);
        }
        let all_next = next.holders + next.waiting;
        assert forall|i: int, j: int|
            0 <= i < all_next.len() && 0 <= j < all_next.len() && i != j implies all_next[i]
            != all_next[j] by {
            lemma_position(s, rest, all_next, i);
            lemma_position(s, rest, all_next, j);
            let n = rest.len() as int;
            let h = s.holders.len() as int;
            if i < n && j < n {
                assert(rest[i] != rest[j]);
            } else if i < n {
                let a = choose|a: int| 0 <= a < h && s.holders[a] == rest[i];
                assert(all[a] == s.holders[a]);
                assert(all[h + (j - n)] == s.waiting[j - n]);
            } else if j < n {
                let a = choose|a: int| 0 <= a < h && s.holders[a] == rest[j];
                assert(all[a] == s.holders[a]);
                assert(all[h + (i - n)] == s.waiting[i - n]);
            } else {
                assert(all[h + (i - n)] == s.waiting[i - n]);
                assert(all[h + (j - n)] == s.waiting[j - n]);
            }
        }
    }
}

/// Where an element of the dispatch gate's tickets after a release stood before it.
proof fn lemma_position(s: DispatchGateView, rest: Seq<nat>, all_next: Seq<nat>, i: int)
    requires
        s.wf(),
        rest.no_duplicates(),
        forall|k: int| 0 <= k < rest.len() ==> s.holders.contains(#[trigger] rest[k]),
        all_next == if s.waiting.len() > 0 {
            rest.push(s.waiting[0]) + s.waiting.skip(1)
        } else {
            rest + s.waiting
        },
        0 <= i < all_next.len(),
    ensures
        i < rest.len() ==> all_next[i] == rest[i] && s.holders.contains(all_next[i]),
        i >= rest.len() ==> 0 <= i - rest.len() < s.waiting.len() && all_next[i] == s.waiting[i
            - rest.len()],
{
}

/// The dispatch gate after `n` more callers have arrived, one after the other.
pub open spec fn spec_acquire_n(s: DispatchGateView, n: nat) -> DispatchGateView
    decreases n,
{
    if n == 0 {
        s
    } else {
        spec_acquire(spec_acquire_n(s, (n - 1) as nat))
    }
}

/// The tickets of the first `n` callers at a new gate.
pub open spec fn spec_first_tickets(n: nat) -> Seq<nat> {
    Seq::new(n, |i: int| i as nat)
}

/// As long as permits are left, every caller at a new gate is granted one:
/// after `k` callers, `k` calls run and nobody waits.
pub proof fn lemma_fill(capacity: nat, k: nat)
    requires
        k <= capacity,
    ensures
        spec_acquire_n(spec_new(capacity), k) == (DispatchGateView {
            capacity,
            holders: spec_first_tickets(k),
            waiting: Seq::empty(),
            issued: k,
        }),
        k < capacity ==> spec_admission(spec_acquire_n(spec_new(capacity), k))
            == AdmissionView::Granted(k),
    decreases k,
{
    if k == 0 {
        assert(spec_first_tickets(0) =~= Seq::<nat>::empty());
    } else {
        lemma_fill(capacity, (k - 1) as nat);
        assert(spec_first_tickets((k - 1) as nat).push((k - 1) as nat) =~= spec_first_tickets(k));
    }
}

/// One caller more than there are permits: of `capacity + 1` callers at a
/// new gate exactly `capacity` run, and the last one is suspended.
pub proof fn lemma_one_caller_too_many(capacity: nat)
    ensures
        forall|k: nat|
            k < capacity ==> #[trigger] spec_admission(spec_acquire_n(spec_new(capacity), k))
                == AdmissionView::Granted(k),
        spec_admission(spec_acquire_n(spec_new(capacity), capacity)) == AdmissionView::Suspended(
            capacity,
        ),
        spec_acquire_n(spec_new(capacity), capacity + 1).running() == capacity,
        spec_acquire_n(spec_new(capacity), capacity + 1).holders == spec_first_tickets(capacity),
        spec_acquire_n(spec_new(capacity), capacity + 1).waiting == seq![capacity],
        spec_acquire_n(spec_new(capacity), capacity + 1).wf(),
{
    assert forall|k: nat| k < capacity implies #[trigger] spec_admission(
        spec_acquire_n(spec_new(capacity), k),
    ) == AdmissionView::Granted(k) by {
        lemma_fill(capacity, k);
    }
    lemma_fill(capacity, capacity);
    let full = spec_acquire_n(spec_new(capacity), capacity);
    assert(spec_acquire_n(spec_new(capacity), capacity + 1) == spec_acquire(full));
    assert(spec_acquire(full).waiting =~= seq![capacity]);
    lemma_wf_after(capacity, capacity + 1);
}

/// Whatever the number of callers, the dispatch gate they leave keeps what every gate
/// keeps.
pub proof fn lemma_wf_after(capacity: nat, n: nat)
    ensures
        spec_acquire_n(spec_new(capacity), n).wf(),
        spec_acquire_n(spec_new(capacity), n).issued == n,
    decreases n,
{
    if n == 0 {
        lemma_new_is_wf(capacity);
    } else {
        lemma_wf_after(capacity, (n - 1) as nat);
        lemma_acquire_keeps_wf(spec_acquire_n(spec_new(capacity), (n - 1) as nat));
    }
}

/// The suspended caller goes on with the first release: when, at a gate that
/// `capacity + 1` callers have come to, any running call gives its permit
/// back, the permit goes to the caller that was suspended; again `capacity`
/// calls run, and nobody waits.
pub proof fn lemma_release_resumes(capacity: nat, released: nat)
    requires
        released < capacity,
    ensures
        spec_resumed(spec_acquire_n(spec_new(capacity), capacity + 1), released) == Some(
            capacity,
        ),
        spec_release(spec_acquire_n(spec_new(capacity), capacity + 1), released).running()
            == capacity,
        spec_release(spec_acquire_n(spec_new(capacity), capacity + 1), released).holders.contains(
            capacity,
        ),
        !spec_release(spec_acquire_n(spec_new(capacity), capacity + 1), released).holders.contains(
            released,
        ),
        spec_release(spec_acquire_n(spec_new(capacity), capacity + 1), released).waiting.len()
            == 0,
{
    lemma_one_caller_too_many(capacity);
    let over = spec_acquire_n(spec_new(capacity), capacity + 1);
    assert(over.holders[released as int] == released);
    assert(over.holders.contains(released));
    lemma_release_keeps_wf(over, released);
    lemma_without(over.holders, released);
    let after = spec_release(over, released);
    let rest = spec_without(over.holders, released);
    assert(after.holders == rest.push(capacity));
    assert(after.holders[rest.len() as int] == capacity);
    assert forall|i: int| 0 <= i < after.holders.len() implies after.holders[i] != released by {
        if i < rest.len() {
            assert(rest.contains(rest[i]));
        }
    }
}

/// What happens at a gate: a caller arrives, or the call under a ticket
/// gives its permit back.
pub enum GateEvent {
    Arrival,
    Release(nat),
}

/// The dispatch gate after `events` have happened at `s`, in order.
pub open spec fn spec_after(s: DispatchGateView, events: Seq<GateEvent>) -> DispatchGateView
    decreases events.len(),
{
    if events.len() == 0 {
        s
    } else {
        match events.last() {
            GateEvent::Arrival => spec_acquire(spec_after(s, events.drop_last())),
            GateEvent::Release(ticket) => spec_release(spec_after(s, events.drop_last()), ticket),
        }
    }
}

/// At no time do more calls run than there are permits: whatever arrivals
/// and releases happen at a new gate, and in whatever order, the number of
/// running calls stays within the capacity, and nobody waits while a permit
/// is free.
pub proof fn lemma_never_more_than_capacity(capacity: nat, events: Seq<GateEvent>)
    ensures
        spec_after(spec_new(capacity), events).wf(),
        spec_after(spec_new(capacity), events).running() <= capacity,
        spec_after(spec_new(capacity), events).capacity == capacity,
    decreases events.len(),
{
    if events.len() == 0 {
        lemma_new_is_wf(capacity);
    } else {
        lemma_never_more_than_capacity(capacity, events.drop_last());
        let before = spec_after(spec_new(capacity), events.drop_last());
        match events.last() {
            GateEvent::Arrival => lemma_acquire_keeps_wf(before),
            GateEvent::Release(ticket) => lemma_release_keeps_wf(before, ticket),
        }
    }
}

/// First come, first served. A caller that finds every permit taken waits
/// behind those who wait already; further arrivals do not move it; and each
/// permit that a running call gives back goes to the caller at the head of
/// the queue, the others moving up in their order.
pub proof fn lemma_first_come_first_served(s: DispatchGateView, ticket: nat)
    requires
        s.wf(),
    ensures
        s.running() == s.capacity ==> spec_acquire(s).holders == s.holders && spec_acquire(
            s,
        ).waiting == s.waiting.push(s.issued),
        s.holders.contains(ticket) && s.waiting.len() > 0 ==> spec_resumed(s, ticket) == Some(
            s.waiting[0],
        ) && spec_release(s, ticket).waiting == s.waiting.skip(1) && spec_release(
            s,
            ticket,
        ).holders.last() == s.waiting[0],
        !s.holders.contains(ticket) ==> spec_release(s, ticket) == s && spec_resumed(s, ticket)
            is None,
{
}

/// The tickets that a list of numbers stands for.
pub open spec fn spec_tickets(numbers: Seq<u64>) -> Seq<nat> {
    Seq::new(numbers.len(), |i: int| numbers[i] as nat)
}

/// The dispatch gate before the provider.
#[derive(Debug)]
pub struct DispatchGate {
    capacity: usize,
    holders: Vec<u64>,
    waiting: Vec<u64>,
    issued: u64,
}

impl View for DispatchGate {
    type V = DispatchGateView;

    closed spec fn view(&self) -> DispatchGateView {
        DispatchGateView {
            capacity: self.capacity as nat,
            holders: spec_tickets(self.holders@),
            waiting: spec_tickets(self.waiting@),
            issued: self.issued as nat,
        }
    }
}

impl DispatchGate {
    #[verifier::type_invariant]
    spec fn inv(self) -> bool {
        self@.wf()
    }

    /// A gate with `capacity` permits, all free.
    pub fn new(capacity: usize) -> (r: DispatchGate)
        ensures
            r@ == spec_new(capacity as nat),
    {
        proof {
            lemma_new_is_wf(capacity as nat);
        }
        let holders: Vec<u64> = Vec::new();
        let waiting: Vec<u64> = Vec::new();
        assert(spec_tickets(holders@) =~= Seq::<nat>::empty());
        assert(spec_tickets(waiting@) =~= Seq::<nat>::empty());
        DispatchGate { capacity, holders, waiting, issued: 0 }
    }

    /// How many calls run: never more than there are permits.
    pub fn running(&self) -> (r: usize)
        ensures
            r == self@.running(),
            r <= self@.capacity,
            self@.wf(),
    {
        proof {
            use_type_invariant(self);
        }
        self.holders.len()
    }

    /// How many callers wait.
    pub fn suspended(&self) -> (r: usize)
        ensures
            r == self@.waiting.len(),
    {
        self.waiting.len()
    }

    /// How many calls may run at once.
    pub fn capacity(&self) -> (r: usize)
        ensures
            r == self@.capacity,
    {
        self.capacity
    }

    /// How many tickets have been issued.
    pub fn issued(&self) -> (r: u64)
        ensures
            r == self@.issued,
    {
        self.issued
    }

    /// Admits one more caller: it gets a permit if one is free, and a ticket
    /// to wait under if none is. Tickets are numbers of 64 bits: the caller
    /// has to see that one is left.
    pub fn acquire(&mut self) -> (r: Admission)
        requires
            old(self)@.issued < u64::MAX,
        ensures
            final(self)@ == spec_acquire(old(self)@),
            r.deep_view() == spec_admission(old(self)@),
    {
        proof {
            use_type_invariant(&*self);
            lemma_acquire_keeps_wf(self@);
        }
        let mut taken = DispatchGate::new(0);
        std::mem::swap(self, &mut taken);
        let DispatchGate { capacity, holders, waiting, issued } = taken;
        let mut holders = holders;
        let mut waiting = waiting;
        let ghost held = spec_tickets(holders@);
        let ghost queued = spec_tickets(waiting@);
        let ticket = issued;
        if holders.len() < capacity {
            holders.push(ticket);
            assert(spec_tickets(holders@) =~= held.push(ticket as nat));
            *self = DispatchGate { capacity, holders, waiting, issued: ticket + 1 };
            Admission::Granted(Permit { ticket })
        } else {
            waiting.push(ticket);
            assert(spec_tickets(waiting@) =~= queued.push(ticket as nat));
            *self = DispatchGate { capacity, holders, waiting, issued: ticket + 1 };
            Admission::Suspended(ticket)
        }
    }

    /// Admits one more caller if a ticket is left for it, and says so if
    /// none is: `None` leaves the dispatch gate as it was.
    pub fn try_acquire(&mut self) -> (r: Option<Admission>)
        ensures
            old(self)@.issued < u64::MAX ==> final(self)@ == spec_acquire(old(self)@)
                && r.deep_view() == Some(spec_admission(old(self)@)),
            old(self)@.issued >= u64::MAX ==> final(self)@ == old(self)@ && r is None,
    {
        if self.issued < u64::MAX {
            Some(self.acquire())
        } else {
            None
        }
    }

    /// Takes a permit back. If anyone waits, the permit goes to the caller
    /// that has waited longest, and the result is that caller's permit.
    pub fn release(&mut self, permit: Permit) -> (r: Option<Permit>)
        ensures
            final(self)@ == spec_release(old(self)@, permit.spec_ticket()),
            match r {
                Some(next) => spec_resumed(old(self)@, permit.spec_ticket()) == Some(
                    next.spec_ticket(),
                ),
                None => spec_resumed(old(self)@, permit.spec_ticket()) is None,
            },
    {
        proof {
            use_type_invariant(&*self);
            lemma_release_keeps_wf(self@, permit.spec_ticket());
        }
        let mut taken = DispatchGate::new(0);
        std::mem::swap(self, &mut taken);
        let DispatchGate { capacity, holders, waiting, issued } = taken;
        let mut waiting = waiting;
        let ghost held = spec_tickets(holders@);
        let ghost queued = spec_tickets(waiting@);
        let ticket = permit.ticket;
        let mut kept: Vec<u64> = Vec::new();
        let mut found = false;
        let mut i: usize = 0;
        assert(spec_tickets(kept@) =~= spec_without(held.take(0), ticket as nat));
        while i < holders.len()
            invariant
                i <= holders.len(),
                held == spec_tickets(holders@),
                spec_tickets(kept@) == spec_without(held.take(i as int), ticket as nat),
                found == held.take(i as int).contains(ticket as nat),
            decreases holders.len() - i,
        {
            let ghost before = held.take(i as int);
            let ghost after = held.take(i + 1);
            let ghost so_far = spec_tickets(kept@);
            assert(after.drop_last() =~= before);
            assert(after.last() == holders@[i as int] as nat);
            assert(after =~= before.push(holders@[i as int] as nat));
            let t = holders[i];
            proof {
                if before.contains(ticket as nat) {
                    let k = choose|k: int| 0 <= k < before.len() && before[k] == ticket as nat;
                    assert(after[k] == ticket as nat);
                }
                if after.contains(ticket as nat) && t != ticket {
                    let k = choose|k: int| 0 <= k < after.len() && after[k] == ticket as nat;
                    assert(before[k] == ticket as nat);
                }
                if t == ticket {
                    assert(after[after.len() - 1] == ticket as nat);
                }
            }
            if t == ticket {
                found = true;
            } else {
                kept.push(t);
                assert(spec_tickets(kept@) =~= so_far.push(t as nat));
            }
            i += 1;
        }
        assert(held.take(holders@.len() as int) =~= held);
        if !found {
            *self = DispatchGate { capacity, holders, waiting, issued };
            return None;
        }
        if waiting.len() > 0 {
            let ghost rest = spec_tickets(kept@);
            let next = waiting.remove(0);
            assert(spec_tickets(waiting@) =~= queued.skip(1));
            kept.push(next);
            assert(spec_tickets(kept@) =~= rest.push(next as nat));
            *self = DispatchGate { capacity, holders: kept, waiting, issued };
            Some(Permit { ticket: next })
        } else {
            *self = DispatchGate { capacity, holders: kept, waiting, issued };
            None
        }
    }
}

} // verus!
