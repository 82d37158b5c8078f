use vstd::prelude::*;

verus! {

/// Number of live objects in a reference-count table: those whose count is above zero.
pub open spec fn live_count(refs: Seq<u64>) -> nat
    decreases refs.len(),
{
    if refs.len() == 0 {
        0
    } else {
        live_count(refs.drop_last()) + if refs.last() > 0 { 1nat } else { 0nat }
    }
}

/// Ids of the live objects of a table, in increasing order.
pub open spec fn live_ids(refs: Seq<u64>) -> Seq<usize>
    decreases refs.len(),
{
    if refs.len() == 0 {
        seq![]
    } else if refs.last() > 0 {
        live_ids(refs.drop_last()).push((refs.len() - 1) as usize)
    } else {
        live_ids(refs.drop_last())
    }
}

/// The table after one more owner of object `id` has been recorded.
pub open spec fn retained(refs: Seq<u64>, id: int) -> Seq<u64> {
    refs.update(id, (refs[id] + 1) as u64)
}

/// The table after one owner of object `id` has given up its reference.
pub open spec fn released(refs: Seq<u64>, id: int) -> Seq<u64> {
    refs.update(id, (refs[id] - 1) as u64)
}

pub proof fn lemma_live_count_bound(refs: Seq<u64>)
    ensures
        live_count(refs) <= refs.len(),
    decreases refs.len(),
{
    if refs.len() > 0 {
        lemma_live_count_bound(refs.drop_last());
    }
}

pub proof fn lemma_live_count_push(refs: Seq<u64>, v: u64)
    ensures
        live_count(refs.push(v)) == live_count(refs) + if v > 0 { 1nat } else { 0nat },
{
    assert(refs.push(v).drop_last() =~= refs);
}

pub proof fn lemma_live_count_update(refs: Seq<u64>, i: int, v: u64)
    requires
        0 <= i < refs.len(),
    ensures
        live_count(refs.update(i, v)) + (if refs[i] > 0 { 1nat } else { 0nat })
            == live_count(refs) + (if v > 0 { 1nat } else { 0nat }),
    decreases refs.len(),
{
    let u = refs.update(i, v);
    if i == refs.len() - 1 {
        assert(u.drop_last() =~= refs.drop_last());
    } else {
        assert(u.drop_last() =~= refs.drop_last().update(i, v));
        lemma_live_count_update(refs.drop_last(), i, v);
    }
}

/// A registered callback of the native layer: the event source it listens to, whether
/// it is still registered, and how many times it has been invoked (saturating).
#[derive(Clone, Copy)]
pub struct Listener {
    pub source: u64,
    pub active: bool,
    pub calls: u64,
}

/// One more invocation, saturating at the largest count.
pub open spec fn bump(calls: u64) -> u64 {
    if calls < u64::MAX { (calls + 1) as u64 } else { calls }
}

/// Whether listener `l` is invoked when `source` fires.
pub open spec fn hears(l: Listener, source: u64) -> bool {
    l.active && l.source == source
}

/// The listeners after `source` has fired: each registered listener of it is invoked once.
pub open spec fn notified(ls: Seq<Listener>, source: u64) -> Seq<Listener> {
    Seq::new(
        ls.len(),
        |i: int|
            if hears(ls[i], source) {
                Listener { calls: bump(ls[i].calls), ..ls[i] }
            } else {
                ls[i]
            },
    )
}

/// The listeners after listener `id` has been deregistered.
pub open spec fn removed(ls: Seq<Listener>, id: int) -> Seq<Listener> {
    ls.update(id, Listener { active: false, ..ls[id] })
}

/// What the native layer holds: the reference count of every object ever created, the
/// listeners ever registered, and how many times each owned buffer has been released.
pub struct NativeState {
    pub objects: Seq<u64>,
    pub listeners: Seq<Listener>,
    pub buffers: Seq<u64>,
}

/// The native layer: an object table with one reference count per object ever created,
/// a listener table and an owned-buffer table. An object is alive while its count is
/// above zero; when the count drops to zero the native side destroys it, and its slot
/// is never reused.
pub struct Runtime {
    refs: Vec<u64>,
    live: usize,
    listeners: Vec<Listener>,
    buffers: Vec<u64>,
}

impl View for Runtime {
    type V = NativeState;

    closed spec fn view(&self) -> NativeState {
        NativeState { objects: self.refs@, listeners: self.listeners@, buffers: self.buffers@ }
    }
}

impl Runtime {
    /// The cached number of live objects agrees with the table.
    pub closed spec fn wf(&self) -> bool {
        self.live == live_count(self.refs@)
    }

    pub fn new() -> (r: Runtime)
        ensures
            r.wf(),
            r@.objects == Seq::<u64>::empty(),
            r@.listeners == Seq::<Listener>::empty(),
            r@.buffers == Seq::<u64>::empty(),
    {
        Runtime { refs: Vec::new(), live: 0, listeners: Vec::new(), buffers: Vec::new() }
    }

    /// Creates an object owned by the caller: its count starts at one.
    pub fn create(&mut self) -> (id: usize)
        requires
            old(self).wf(),
            old(self)@.objects.len() < usize::MAX,
        ensures
            final(self).wf(),
            id == old(self)@.objects.len(),
            final(self)@ == (NativeState { objects: old(self)@.objects.push(1), ..old(self)@ }),
    {
        proof {
            lemma_live_count_push(self.refs@, 1);
            lemma_live_count_bound(self.refs@);
        }
        let id = self.refs.len();
        self.refs.push(1);
        self.live = self.live + 1;
        id
    }

    /// The count of object `id`.
    pub fn ref_count(&self, id: usize) -> (r: u64)
        requires
            id < self@.objects.len(),
        ensures
            r == self@.objects[id as int],
    {
        self.refs[id]
    }

    /// Records one more owner of a live object.
    pub fn retain(&mut self, id: usize)
        requires
            old(self).wf(),
            id < old(self)@.objects.len(),
            0 < old(self)@.objects[id as int] < u64::MAX,
        ensures
            final(self).wf(),
            final(self)@ == (NativeState { objects: retained(old(self)@.objects, id as int), ..old(self)@ }),
    {
        proof {
            lemma_live_count_update(self.refs@, id as int, (self.refs@[id as int] + 1) as u64);
        }
        let c = self.refs[id];
        self.refs.set(id, c + 1);
    }

    /// Gives up one reference to a live object, destroying it when it was the last.
    pub fn release(&mut self, id: usize)
        requires
            old(self).wf(),
            id < old(self)@.objects.len(),
            old(self)@.objects[id as int] > 0,
        ensures
            final(self).wf(),
            final(self)@ == (NativeState { objects: released(old(self)@.objects, id as int), ..old(self)@ }),
    {
        proof {
            lemma_live_count_update(self.refs@, id as int, (self.refs@[id as int] - 1) as u64);
        }
        let c = self.refs[id];
        self.refs.set(id, c - 1);
        if c == 1 {
            self.live = self.live - 1;
        }
    }

    /// Number of live objects.
    pub fn live(&self) -> (r: usize)
        requires
            self.wf(),
        ensures
            r == live_count(self@.objects),
    {
        self.live
    }

    /// Ids of the live objects, in increasing order.
    pub fn live_list(&self) -> (r: Vec<usize>)
        ensures
            r@ == live_ids(self@.objects),
    {
        let mut r: Vec<usize> = Vec::new();
        let mut i: usize = 0;
        while i < self.refs.len()
            invariant
                i <= self.refs@.len(),
                r@ == live_ids(self.refs@.subrange(0, i as int)),
            decreases self.refs@.len() - i,
        {
            let ghost s = self.refs@.subrange(0, i + 1);
            assert(s.drop_last() =~= self.refs@.subrange(0, i as int));
            if self.refs[i] > 0 {
                r.push(i);
            }
            i = i + 1;
        }
        assert(self.refs@.subrange(0, i as int) =~= self.refs@);
        r
    }

    /// Registers a listener on `source`; the result is its id.
    pub fn add_listener(&mut self, source: u64) -> (id: usize)
        requires
            old(self).wf(),
        ensures
            final(self).wf(),
            id == old(self)@.listeners.len(),
            final(self)@ == (NativeState {
                listeners: old(self)@.listeners.push(Listener { source, active: true, calls: 0 }),
                ..old(self)@
            }),
    {
        let id = self.listeners.len();
        self.listeners.push(Listener { source, active: true, calls: 0 });
        id
    }

    /// Deregisters listener `id`: it is invoked no more.
    pub fn remove_listener(&mut self, id: usize)
        requires
            old(self).wf(),
            id < old(self)@.listeners.len(),
        ensures
            final(self).wf(),
            final(self)@ == (NativeState { listeners: removed(old(self)@.listeners, id as int), ..old(self)@ }),
    {
        let l = self.listeners[id];
        self.listeners.set(id, Listener { active: false, ..l });
    }

    /// Fires `source`: every listener registered on it is invoked once.
    pub fn notify(&mut self, source: u64)
        requires
            old(self).wf(),
        ensures
            final(self).wf(),
            final(self)@ == (NativeState { listeners: notified(old(self)@.listeners, source), ..old(self)@ }),
    {
        let ghost start = self.listeners@;
        let mut i: usize = 0;
        while i < self.listeners.len()
            invariant
                self.wf(),
                self.refs@ == old(self).refs@,
                self.buffers@ == old(self).buffers@,
                start == old(self).listeners@,
                i <= self.listeners@.len(),
                self.listeners@.len() == start.len(),
                forall|j: int| 0 <= j < i ==> self.listeners@[j] == notified(start, source)[j],
                forall|j: int| i <= j < start.len() ==> self.listeners@[j] == start[j],
            decreases self.listeners@.len() - i,
        {
            let l = self.listeners[i];
            if l.active && l.source == source {
                let calls = if l.calls < u64::MAX { l.calls + 1 } else { l.calls };
                self.listeners.set(i, Listener { calls, ..l });
            }
            i = i + 1;
        }
        assert(self.listeners@ =~= notified(start, source));
    }

    /// How many times listener `id` has been invoked.
    pub fn listener_calls(&self, id: usize) -> (r: u64)
        requires
            id < self@.listeners.len(),
        ensures
            r == self@.listeners[id as int].calls,
    {
        self.listeners[id].calls
    }

    /// Hands out a new owned buffer, not yet released; the result is its id.
    pub fn open_buffer(&mut self) -> (id: usize)
        requires
            old(self).wf(),
        ensures
            final(self).wf(),
            id == old(self)@.buffers.len(),
            final(self)@ == (NativeState { buffers: old(self)@.buffers.push(0), ..old(self)@ }),
    {
        let id = self.buffers.len();
        self.buffers.push(0);
        id
    }

    /// Releases owned buffer `id`. A buffer is released once, never twice.
    pub fn release_buffer(&mut self, id: usize)
        requires
            old(self).wf(),
            id < old(self)@.buffers.len(),
            old(self)@.buffers[id as int] == 0,
        ensures
            final(self).wf(),
            final(self)@ == (NativeState { buffers: old(self)@.buffers.update(id as int, 1), ..old(self)@ }),
    {
        self.buffers.set(id, 1);
    }

    /// How many times owned buffer `id` has been released.
    pub fn buffer_releases(&self, id: usize) -> (r: u64)
        requires
            id < self@.buffers.len(),
        ensures
            r == self@.buffers[id as int],
    {
        self.buffers[id]
    }

    /// Number of objects ever created.
    pub fn object_slots(&self) -> (r: usize)
        ensures
            r == self@.objects.len(),
    {
        self.refs.len()
    }

    /// Number of listeners ever registered.
    pub fn listener_slots(&self) -> (r: usize)
        ensures
            r == self@.listeners.len(),
    {
        self.listeners.len()
    }

    /// Number of owned buffers ever handed out.
    pub fn buffer_slots(&self) -> (r: usize)
        ensures
            r == self@.buffers.len(),
    {
        self.buffers.len()
    }
}

} // verus!
