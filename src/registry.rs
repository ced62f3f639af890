//! The registry that shares evaluator processes: at most one live process per
//! signature, counted holders, and at most one call in flight per process.
use crate::error::Error;
use crate::text::views;
use vstd::prelude::*;

verus! {

/// One entry of the registry, as a value.
pub struct SlotView {
    /// The canonical invocation arguments.
    pub signature: Seq<Seq<char>>,
    /// The number of the process bound to the signature.
    pub process: u64,
    /// How many holders keep the process alive; with none it has expired.
    pub holders: u64,
    /// A call is in flight on the process.
    pub busy: bool,
}

/// The registry, as a value.
pub struct RegistryView {
    pub slots: Seq<SlotView>,
    /// The number that the next spawned process gets.
    pub next_process: u64,
}

/// What an acquisition hands out.
#[derive(Debug, Clone, Copy, PartialEq, Eq, Structural)]
pub struct Acquired {
    /// The number of the process that the holder now shares.
    pub process: u64,
    /// The process is new: the caller spawns it.
    pub spawned: bool,
}

/// A signature's slot exists at position `i`.
pub open spec fn slot_of(r: RegistryView, sig: Seq<Seq<char>>, i: int) -> bool {
    0 <= i < r.slots.len() && r.slots[i].signature == sig
}

/// The registry has a slot for the signature.
pub open spec fn has_slot(r: RegistryView, sig: Seq<Seq<char>>) -> bool {
    exists|i: int| slot_of(r, sig, i)
}

/// The position of the signature's slot.
pub open spec fn slot_index(r: RegistryView, sig: Seq<Seq<char>>) -> int {
    choose|i: int| slot_of(r, sig, i)
}

/// The process that the signature has alive, if any.
pub open spec fn live_process(r: RegistryView, sig: Seq<Seq<char>>) -> Option<u64> {
    if has_slot(r, sig) && r.slots[slot_index(r, sig)].holders > 0 {
        Some(r.slots[slot_index(r, sig)].process)
    } else {
        None
    }
}

/// The slot of a process that has holders, if any.
pub open spec fn process_slot(r: RegistryView, p: u64, i: int) -> bool {
    0 <= i < r.slots.len() && r.slots[i].process == p && r.slots[i].holders > 0
}

/// Signatures and process numbers are unique, and every process number was
/// handed out before `next_process`.
pub open spec fn registry_wf(r: RegistryView) -> bool {
    &&& forall|i: int, j: int|
        0 <= i < j < r.slots.len() ==> r.slots[i].signature != r.slots[j].signature
    &&& forall|i: int, j: int|
        0 <= i < j < r.slots.len() ==> r.slots[i].process != r.slots[j].process
    &&& forall|i: int| 0 <= i < r.slots.len() ==> r.slots[i].process < r.next_process
}

/// The registry and handle after acquiring a process for `sig`: a live
/// process is shared, else a new one is bound to the signature. There is none
/// where a counter would overflow.
pub open spec fn acquire_spec(r: RegistryView, sig: Seq<Seq<char>>) -> Option<(RegistryView, Acquired)> {
    if has_slot(r, sig) {
        let i = slot_index(r, sig);
        let s = r.slots[i];
        if s.holders > 0 {
            if s.holders < u64::MAX {
                Some(
                    (
                        RegistryView { slots: r.slots.update(i, SlotView { holders: (s.holders + 1) as u64, ..s }), ..r },
                        Acquired { process: s.process, spawned: false },
                    ),
                )
            } else {
                None
            }
        } else if r.next_process < u64::MAX {
            Some(
                (
                    RegistryView {
                        slots: r.slots.update(
                            i,
                            SlotView { signature: sig, process: r.next_process, holders: 1, busy: false },
                        ),
                        next_process: (r.next_process + 1) as u64,
                    },
                    Acquired { process: r.next_process, spawned: true },
                ),
            )
        } else {
            None
        }
    } else if r.next_process < u64::MAX {
        Some(
            (
                RegistryView {
                    slots: r.slots.push(
                        SlotView { signature: sig, process: r.next_process, holders: 1, busy: false },
                    ),
                    next_process: (r.next_process + 1) as u64,
                },
                Acquired { process: r.next_process, spawned: true },
            ),
        )
    } else {
        None
    }
}

/// The registry after a holder of process `p` lets it go.
pub open spec fn release_spec(r: RegistryView, p: u64) -> RegistryView {
    if exists|i: int| process_slot(r, p, i) {
        let i = choose|i: int| process_slot(r, p, i);
        RegistryView {
            slots: r.slots.update(i, SlotView { holders: (r.slots[i].holders - 1) as u64, ..r.slots[i] }),
            ..r
        }
    } else {
        r
    }
}

/// Whether a call may start on process `p`, and the registry after it.
pub open spec fn begin_spec(r: RegistryView, p: u64) -> (RegistryView, bool) {
    if exists|i: int| process_slot(r, p, i) {
        let i = choose|i: int| process_slot(r, p, i);
        if r.slots[i].busy {
            (r, false)
        } else {
            (RegistryView { slots: r.slots.update(i, SlotView { busy: true, ..r.slots[i] }), ..r }, true)
        }
    } else {
        (r, false)
    }
}

/// The registry after the call in flight on process `p` has ended.
pub open spec fn end_spec(r: RegistryView, p: u64) -> RegistryView {
    if exists|i: int| process_slot(r, p, i) {
        let i = choose|i: int| process_slot(r, p, i);
        RegistryView { slots: r.slots.update(i, SlotView { busy: false, ..r.slots[i] }), ..r }
    } else {
        r
    }
}

/// Changing one slot, without changing its signature and while giving it
/// either its own process or a fresh number, keeps the registry well formed.
proof fn lemma_wf_update(r: RegistryView, i: int, s: SlotView, next: u64)
    requires
        registry_wf(r),
        0 <= i < r.slots.len(),
        s.signature == r.slots[i].signature,
        s.process < next,
        r.next_process <= next,
        s.process == r.slots[i].process || s.process >= r.next_process,
    ensures
        registry_wf(RegistryView { slots: r.slots.update(i, s), next_process: next }),
{
    let q = RegistryView { slots: r.slots.update(i, s), next_process: next };
    assert forall|a: int, b: int| 0 <= a < b < q.slots.len() implies q.slots[a].signature
        != q.slots[b].signature && q.slots[a].process != q.slots[b].process by {
        assert(r.slots[a].process < r.next_process);
        assert(r.slots[b].process < r.next_process);
    }
    assert forall|a: int| 0 <= a < q.slots.len() implies q.slots[a].process < q.next_process by {
        assert(r.slots[a].process < r.next_process);
    }
}

/// Adding a slot for a new signature with a fresh number keeps the registry
/// well formed.
proof fn lemma_wf_push(r: RegistryView, s: SlotView)
    requires
        registry_wf(r),
        !has_slot(r, s.signature),
        s.process == r.next_process,
        r.next_process < u64::MAX,
    ensures
        registry_wf(RegistryView { slots: r.slots.push(s), next_process: (r.next_process + 1) as u64 }),
{
    let q = RegistryView { slots: r.slots.push(s), next_process: (r.next_process + 1) as u64 };
    assert forall|a: int, b: int| 0 <= a < b < q.slots.len() implies q.slots[a].signature
        != q.slots[b].signature && q.slots[a].process != q.slots[b].process by {
        assert(r.slots[a].process < r.next_process);
        if b == r.slots.len() {
            assert(!slot_of(r, s.signature, a));
        } else {
            assert(r.slots[b].process < r.next_process);
        }
    }
    assert forall|a: int| 0 <= a < q.slots.len() implies q.slots[a].process < q.next_process by {
        if a < r.slots.len() {
            assert(r.slots[a].process < r.next_process);
        }
    }
}

/// Acquiring keeps the registry well formed.
pub proof fn lemma_acquire_wf(r: RegistryView, sig: Seq<Seq<char>>)
    requires
        registry_wf(r),
        acquire_spec(r, sig) is Some,
    ensures
        registry_wf(acquire_spec(r, sig).unwrap().0),
{
    if has_slot(r, sig) {
        let i = slot_index(r, sig);
        let s = r.slots[i];
        if s.holders > 0 {
            lemma_wf_update(r, i, SlotView { holders: (s.holders + 1) as u64, ..s }, r.next_process);
        } else {
            lemma_wf_update(
                r,
                i,
                SlotView { signature: sig, process: r.next_process, holders: 1, busy: false },
                (r.next_process + 1) as u64,
            );
        }
    } else {
        lemma_wf_push(r, SlotView { signature: sig, process: r.next_process, holders: 1, busy: false });
    }
}

/// Acquiring leaves the signature with a live process, the one handed out.
pub proof fn lemma_acquire_live(r: RegistryView, sig: Seq<Seq<char>>)
    requires
        registry_wf(r),
        acquire_spec(r, sig) is Some,
    ensures
        live_process(acquire_spec(r, sig).unwrap().0, sig) == Some(acquire_spec(r, sig).unwrap().1.process),
        acquire_spec(r, sig).unwrap().1.spawned <==> live_process(r, sig) is None,
{
    lemma_acquire_wf(r, sig);
    let (r1, a) = acquire_spec(r, sig).unwrap();
    if has_slot(r, sig) {
        let i = slot_index(r, sig);
        assert(slot_of(r1, sig, i));
        lemma_slot_index_unique(r1, sig, i);
    } else {
        let i = r.slots.len() as int;
        assert(slot_of(r1, sig, i));
        lemma_slot_index_unique(r1, sig, i);
    }
}

/// In a well-formed registry a signature has one slot.
proof fn lemma_slot_index_unique(r: RegistryView, sig: Seq<Seq<char>>, i: int)
    requires
        registry_wf(r),
        slot_of(r, sig, i),
    ensures
        has_slot(r, sig),
        slot_index(r, sig) == i,
{
    let k = slot_index(r, sig);
    assert(slot_of(r, sig, k));
    if k < i {
        assert(r.slots[k].signature != r.slots[i].signature);
    } else if i < k {
        assert(r.slots[i].signature != r.slots[k].signature);
    }
}

/// In a well-formed registry a process with holders has one slot.
proof fn lemma_process_slot_unique(r: RegistryView, p: u64, i: int)
    requires
        registry_wf(r),
        process_slot(r, p, i),
    ensures
        (choose|k: int| process_slot(r, p, k)) == i,
{
    let k = choose|k: int| process_slot(r, p, k);
    assert(process_slot(r, p, k));
    if k < i {
        assert(r.slots[k].process != r.slots[i].process);
    } else if i < k {
        assert(r.slots[i].process != r.slots[k].process);
    }
}

/// Two acquisitions of one signature, the first still held, share one
/// process: the second spawns none.
pub proof fn lemma_acquire_shares_live_process(r: RegistryView, sig: Seq<Seq<char>>)
    requires
        registry_wf(r),
        acquire_spec(r, sig) is Some,
        acquire_spec(acquire_spec(r, sig).unwrap().0, sig) is Some,
    ensures
        ({
            let (r1, a1) = acquire_spec(r, sig).unwrap();
            let (r2, a2) = acquire_spec(r1, sig).unwrap();
            &&& a2.process == a1.process
            &&& !a2.spawned
            &&& live_process(r2, sig) == Some(a1.process)
        }),
{
    lemma_acquire_wf(r, sig);
    lemma_acquire_live(r, sig);
    let (r1, a1) = acquire_spec(r, sig).unwrap();
    lemma_acquire_live(r1, sig);
}

/// Once the only holder of a signature's process lets it go, the next
/// acquisition of the signature spawns a new process with another number.
pub proof fn lemma_respawn_after_release(r: RegistryView, sig: Seq<Seq<char>>)
    requires
        registry_wf(r),
        live_process(r, sig) is None,
        acquire_spec(r, sig) is Some,
        acquire_spec(
            release_spec(acquire_spec(r, sig).unwrap().0, acquire_spec(r, sig).unwrap().1.process),
            sig,
        ) is Some,
    ensures
        ({
            let (r1, a1) = acquire_spec(r, sig).unwrap();
            let r2 = release_spec(r1, a1.process);
            let (r3, a3) = acquire_spec(r2, sig).unwrap();
            &&& a1.spawned
            &&& live_process(r2, sig) is None
            &&& a3.spawned
            &&& a3.process != a1.process
        }),
{
    lemma_acquire_wf(r, sig);
    lemma_acquire_live(r, sig);
    let (r1, a1) = acquire_spec(r, sig).unwrap();
    let i = slot_index(r1, sig);
    assert(slot_of(r1, sig, i));
    assert(r1.slots[i].holders == 1);
    assert(process_slot(r1, a1.process, i));
    lemma_process_slot_unique(r1, a1.process, i);
    let r2 = release_spec(r1, a1.process);
    assert(registry_wf(r2)) by {
        lemma_wf_update(r1, i, SlotView { holders: 0, ..r1.slots[i] }, r1.next_process);
    }
    assert(slot_of(r2, sig, i));
    lemma_slot_index_unique(r2, sig, i);
    lemma_acquire_live(r2, sig);
    assert(a1.process < r1.next_process);
}

/// One call at a time per process: once a call has started on `p`, no other
/// starts on it until that one ends, while calls on another process start or
/// wait just as before.
pub proof fn lemma_one_call_in_flight(r: RegistryView, p: u64, q: u64)
    requires
        registry_wf(r),
        begin_spec(r, p).1,
    ensures
        registry_wf(begin_spec(r, p).0),
        !begin_spec(begin_spec(r, p).0, p).1,
        q != p ==> begin_spec(begin_spec(r, p).0, q).1 == begin_spec(r, q).1,
        begin_spec(end_spec(begin_spec(r, p).0, p), p).1,
{
    let i = choose|i: int| process_slot(r, p, i);
    let r1 = begin_spec(r, p).0;
    lemma_wf_update(r, i, SlotView { busy: true, ..r.slots[i] }, r.next_process);
    assert(process_slot(r1, p, i));
    lemma_process_slot_unique(r1, p, i);
    if q != p {
        if exists|k: int| process_slot(r, q, k) {
            let k = choose|k: int| process_slot(r, q, k);
            assert(process_slot(r1, q, k));
            lemma_process_slot_unique(r1, q, k);
        } else {
            assert(!exists|k: int| process_slot(r1, q, k)) by {
                if exists|k: int| process_slot(r1, q, k) {
                    let k = choose|k: int| process_slot(r1, q, k);
                    assert(process_slot(r, q, k));
                }
            }
        }
    }
    let r2 = end_spec(r1, p);
    lemma_wf_update(r1, i, SlotView { busy: false, ..r1.slots[i] }, r1.next_process);
    assert(process_slot(r2, p, i));
    lemma_process_slot_unique(r2, p, i);
}

/// An entry of the registry.
pub struct Slot {
    signature: Vec<String>,
    process: u64,
    holders: u64,
    busy: bool,
}

/// The registry of shared evaluator processes, keyed by signature. Expired
/// entries stay in place and count as absent.
pub struct ProblemCache {
    slots: Vec<Slot>,
    next_process: u64,
}

impl Slot {
    pub closed spec fn view(&self) -> SlotView {
        SlotView {
            signature: views(self.signature@),
            process: self.process,
            holders: self.holders,
            busy: self.busy,
        }
    }
}

impl View for ProblemCache {
    type V = RegistryView;

    closed spec fn view(&self) -> RegistryView {
        RegistryView {
            slots: self.slots@.map_values(|s: Slot| s.view()),
            next_process: self.next_process,
        }
    }
}

/// The canonical signature of an invocation: the subcommand, then the
/// declared flags in their order.
pub fn signature(subcommand: &String, flags: &Vec<String>) -> (r: Vec<String>)
    ensures
        views(r@) == seq![subcommand@] + views(flags@),
{
    let mut r: Vec<String> = Vec::new();
    r.push(subcommand.clone());
    let mut i: usize = 0;
    while i < flags.len()
        invariant
            i <= flags.len(),
            r@.len() == i + 1,
            r@[0] == *subcommand,
            forall|k: int| 0 <= k < i ==> r@[k + 1] == flags@[k],
        decreases flags.len() - i,
    {
        r.push(flags[i].clone());
        i += 1;
    }
    assert(views(r@) =~= seq![subcommand@] + views(flags@));
    r
}

fn same_signature(a: &Vec<String>, b: &Vec<String>) -> (r: bool)
    ensures
        r == (views(a@) == views(b@)),
{
    if a.len() != b.len() {
        return false;
    }
    let mut i: usize = 0;
    while i < a.len()
        invariant
            a.len() == b.len(),
            i <= a.len(),
            forall|k: int| 0 <= k < i ==> a@[k]@ == b@[k]@,
        decreases a.len() - i,
    {
        if a[i] != b[i] {
            assert(views(a@)[i as int] != views(b@)[i as int]);
            return false;
        }
        i += 1;
    }
    assert(views(a@) =~= views(b@));
    true
}

impl ProblemCache {
    /// An empty registry.
    pub fn new() -> (r: ProblemCache)
        ensures
            r@.slots.len() == 0,
            r@.next_process == 0,
            registry_wf(r@),
    {
        ProblemCache { slots: Vec::new(), next_process: 0 }
    }

    fn find_signature(&self, sig: &Vec<String>) -> (r: Option<usize>)
        requires
            registry_wf(self@),
        ensures
            r is None <==> !has_slot(self@, views(sig@)),
            r matches Some(i) ==> i == slot_index(self@, views(sig@)) && slot_of(
                self@,
                views(sig@),
                i as int,
            ),
    {
        let ghost s = views(sig@);
        let mut i: usize = 0;
        while i < self.slots.len()
            invariant
                i <= self.slots.len(),
                self@.slots.len() == self.slots.len(),
                forall|k: int| 0 <= k < i ==> !slot_of(self@, s, k),
                registry_wf(self@),
                s == views(sig@),
            decreases self.slots.len() - i,
        {
            assert(self@.slots[i as int] == self.slots@[i as int].view());
            if same_signature(&self.slots[i].signature, sig) {
                assert(slot_of(self@, s, i as int));
                let ghost k = slot_index(self@, s);
                assert(k == i) by {
                    if k != i {
                        if k < i {
                            assert(self@.slots[k].signature != self@.slots[i as int].signature);
                        } else {
                            assert(self@.slots[i as int].signature != self@.slots[k].signature);
                        }
                    }
                }
                return Some(i);
            }
            i += 1;
        }
        None
    }

    fn find_process(&self, p: u64) -> (r: Option<usize>)
        requires
            registry_wf(self@),
        ensures
            r is None <==> !(exists|i: int| process_slot(self@, p, i)),
            r matches Some(i) ==> i == (choose|i: int| process_slot(self@, p, i)) && process_slot(
                self@,
                p,
                i as int,
            ),
    {
        let mut i: usize = 0;
        while i < self.slots.len()
            invariant
                i <= self.slots.len(),
                self@.slots.len() == self.slots.len(),
                forall|k: int| 0 <= k < i ==> !process_slot(self@, p, k),
                registry_wf(self@),
            decreases self.slots.len() - i,
        {
            assert(self@.slots[i as int] == self.slots@[i as int].view());
            if self.slots[i].process == p && self.slots[i].holders > 0 {
                assert(process_slot(self@, p, i as int));
                let ghost k = choose|k: int| process_slot(self@, p, k);
                assert(k == i) by {
                    if k != i {
                        if k < i {
                            assert(self@.slots[k].process != self@.slots[i as int].process);
                        } else {
                            assert(self@.slots[i as int].process != self@.slots[k].process);
                        }
                    }
                }
                return Some(i);
            }
            i += 1;
        }
        None
    }

    /// Acquires the process for a signature: shares the live one where there
    /// is one, else binds a new process number to the signature, which the
    /// caller then spawns. Fails only where a counter would overflow.
    pub fn acquire(&mut self, sig: &Vec<String>) -> (r: Result<Acquired, Error>)
        requires
            registry_wf(old(self)@),
        ensures
            registry_wf(final(self)@),
            r is Ok <==> acquire_spec(old(self)@, views(sig@)) is Some,
            r matches Ok(a) ==> acquire_spec(old(self)@, views(sig@)) == Some(
                (final(self)@, a),
            ),
            r is Err ==> r == Err::<Acquired, Error>(Error::RegistryExhausted) && final(self)@
                == old(self)@,
    {
        let ghost s = views(sig@);
        let ghost r0 = self@;
        match self.find_signature(sig) {
            Some(i) => {
                if self.slots[i].holders > 0 {
                    if self.slots[i].holders == u64::MAX {
                        return Err(Error::RegistryExhausted);
                    }
                    let h = self.slots[i].holders + 1;
                    let p = self.slots[i].process;
                    self.slots[i].holders = h;
                    assert(self@.slots =~= r0.slots.update(i as int, SlotView { holders: h, ..r0.slots[i as int] }));
                    proof {
                        lemma_wf_update(r0, i as int, SlotView { holders: h, ..r0.slots[i as int] }, r0.next_process);
                    }
                    Ok(Acquired { process: p, spawned: false })
                } else {
                    if self.next_process == u64::MAX {
                        return Err(Error::RegistryExhausted);
                    }
                    let p = self.next_process;
                    self.slots[i].process = p;
                    self.slots[i].holders = 1;
                    self.slots[i].busy = false;
                    self.next_process = p + 1;
                    assert(self@.slots =~= r0.slots.update(
                        i as int,
                        SlotView { signature: s, process: p, holders: 1, busy: false },
                    ));
                    proof {
                        lemma_wf_update(
                            r0,
                            i as int,
                            SlotView { signature: s, process: p, holders: 1, busy: false },
                            (p + 1) as u64,
                        );
                    }
                    Ok(Acquired { process: p, spawned: true })
                }
            },
            None => {
                if self.next_process == u64::MAX {
                    return Err(Error::RegistryExhausted);
                }
                let p = self.next_process;
                let mut owned: Vec<String> = Vec::new();
                let mut k: usize = 0;
                while k < sig.len()
                    invariant
                        k <= sig.len(),
                        owned@ == sig@.take(k as int),
                    decreases sig.len() - k,
                {
                    owned.push(sig[k].clone());
                    k += 1;
                    assert(owned@ =~= sig@.take(k as int));
                }
                assert(owned@ =~= sig@);
                self.slots.push(Slot { signature: owned, process: p, holders: 1, busy: false });
                self.next_process = p + 1;
                assert(self@.slots =~= r0.slots.push(
                    SlotView { signature: s, process: p, holders: 1, busy: false },
                ));
                proof {
                    lemma_wf_push(r0, SlotView { signature: s, process: p, holders: 1, busy: false });
                }
                Ok(Acquired { process: p, spawned: true })
            },
        }
    }

    /// A holder lets process `p` go; with its last holder gone the process
    /// has expired, and the next acquisition of its signature spawns anew.
    pub fn release(&mut self, p: u64)
        requires
            registry_wf(old(self)@),
        ensures
            registry_wf(final(self)@),
            final(self)@ == release_spec(old(self)@, p),
    {
        let ghost r0 = self@;
        match self.find_process(p) {
            Some(i) => {
                let h = self.slots[i].holders - 1;
                self.slots[i].holders = h;
                assert(self@.slots =~= r0.slots.update(i as int, SlotView { holders: h, ..r0.slots[i as int] }));
                proof {
                    lemma_wf_update(r0, i as int, SlotView { holders: h, ..r0.slots[i as int] }, r0.next_process);
                }
            },
            None => {},
        }
    }

    /// Starts a call on process `p` where none is in flight on it; returns
    /// whether it started. A caller that gets `false` waits and asks again.
    pub fn begin_call(&mut self, p: u64) -> (r: bool)
        requires
            registry_wf(old(self)@),
        ensures
            registry_wf(final(self)@),
            (final(self)@, r) == begin_spec(old(self)@, p),
    {
        let ghost r0 = self@;
        match self.find_process(p) {
            Some(i) => {
                if self.slots[i].busy {
                    false
                } else {
                    self.slots[i].busy = true;
                    assert(self@.slots =~= r0.slots.update(i as int, SlotView { busy: true, ..r0.slots[i as int] }));
                    proof {
                        lemma_wf_update(r0, i as int, SlotView { busy: true, ..r0.slots[i as int] }, r0.next_process);
                    }
                    true
                }
            },
            None => false,
        }
    }

    /// Ends the call in flight on process `p`.
    pub fn end_call(&mut self, p: u64)
        requires
            registry_wf(old(self)@),
        ensures
            registry_wf(final(self)@),
            final(self)@ == end_spec(old(self)@, p),
    {
        let ghost r0 = self@;
        match self.find_process(p) {
            Some(i) => {
                self.slots[i].busy = false;
                assert(self@.slots =~= r0.slots.update(i as int, SlotView { busy: false, ..r0.slots[i as int] }));
                proof {
                    lemma_wf_update(r0, i as int, SlotView { busy: false, ..r0.slots[i as int] }, r0.next_process);
                }
            },
            None => {},
        }
    }
}

} // verus!
