use vstd::prelude::*;

pub mod native;
pub mod slice;

use native::{live_count, live_ids, notified, released, removed, retained, Listener, Runtime};

verus! {

/// A time value for document expiration, in milliseconds since the Unix epoch.
pub struct Timestamp(i64);

impl View for Timestamp {
    type V = i64;

    closed spec fn view(&self) -> i64 {
        self.0
    }
}

impl Timestamp {
    pub fn new(millis: i64) -> (r: Timestamp)
        ensures
            r@ == millis,
    {
        Timestamp(millis)
    }

    /// Milliseconds since the Unix epoch.
    pub fn millis(&self) -> (r: i64)
        ensures
            r == self@,
    {
        self.0
    }
}

/// One owning reference to a native object. Each handle stands for one count of the
/// object: duplicating it goes through `retain`, and giving it up through `release`.
pub struct Handle {
    id: usize,
}

impl View for Handle {
    type V = nat;

    closed spec fn view(&self) -> nat {
        self.id as nat
    }
}

impl Handle {
    /// Creates a native object and takes the one reference that creation hands over.
    pub fn create(rt: &mut Runtime) -> (h: Handle)
        requires
            old(rt).wf(),
            old(rt)@.objects.len() < usize::MAX,
        ensures
            final(rt).wf(),
            h@ == old(rt)@.objects.len(),
            final(rt)@.objects == old(rt)@.objects.push(1),
            final(rt)@.listeners == old(rt)@.listeners,
            final(rt)@.buffers == old(rt)@.buffers,
    {
        let id = rt.create();
        Handle { id }
    }

    /// The id of the object in the native table.
    pub fn id(&self) -> (r: usize)
        ensures
            r == self@,
    {
        self.id
    }
}

/// A second owner of the object behind `h`: its count goes up by one first.
pub fn retain(rt: &mut Runtime, h: &Handle) -> (r: Handle)
    requires
        old(rt).wf(),
        h@ < old(rt)@.objects.len(),
        0 < old(rt)@.objects[h@ as int] < u64::MAX,
    ensures
        final(rt).wf(),
        r@ == h@,
        final(rt)@.objects == retained(old(rt)@.objects, h@ as int),
        final(rt)@.listeners == old(rt)@.listeners,
        final(rt)@.buffers == old(rt)@.buffers,
{
    rt.retain(h.id);
    Handle { id: h.id }
}

/// Gives up the reference that `h` holds; the object is destroyed with its last owner.
pub fn release(rt: &mut Runtime, h: Handle)
    requires
        old(rt).wf(),
        h@ < old(rt)@.objects.len(),
        old(rt)@.objects[h@ as int] > 0,
    ensures
        final(rt).wf(),
        final(rt)@.objects == released(old(rt)@.objects, h@ as int),
        final(rt)@.listeners == old(rt)@.listeners,
        final(rt)@.buffers == old(rt)@.buffers,
{
    rt.release(h.id);
}

/// A registered listener. Dropping it, which consumes it, is the one way to deregister
/// the callback, so it happens at most once.
pub struct ListenerToken {
    id: usize,
}

impl View for ListenerToken {
    type V = nat;

    closed spec fn view(&self) -> nat {
        self.id as nat
    }
}

impl ListenerToken {
    /// Registers a callback on `source`.
    pub fn register(rt: &mut Runtime, source: u64) -> (t: ListenerToken)
        requires
            old(rt).wf(),
        ensures
            final(rt).wf(),
            t@ == old(rt)@.listeners.len(),
            final(rt)@.listeners == old(rt)@.listeners.push(
                Listener { source, active: true, calls: 0 },
            ),
            final(rt)@.objects == old(rt)@.objects,
            final(rt)@.buffers == old(rt)@.buffers,
    {
        let id = rt.add_listener(source);
        ListenerToken { id }
    }

    /// The id of the listener in the native table.
    pub fn id(&self) -> (r: usize)
        ensures
            r == self@,
    {
        self.id
    }

    /// Deregisters the callback: it is not invoked again.
    pub fn drop(self, rt: &mut Runtime)
        requires
            old(rt).wf(),
            self@ < old(rt)@.listeners.len(),
        ensures
            final(rt).wf(),
            final(rt)@.listeners == removed(old(rt)@.listeners, self@ as int),
            final(rt)@.objects == old(rt)@.objects,
            final(rt)@.buffers == old(rt)@.buffers,
    {
        rt.remove_listener(self.id);
    }
}

/// The number of live native objects; useful for leak checking.
pub fn instance_count(rt: &Runtime) -> (r: usize)
    requires
        rt.wf(),
    ensures
        r == live_count(rt@.objects),
{
    rt.live()
}

/// The ids of the live native objects, in increasing order, for a leak report.
pub fn dump_instances(rt: &Runtime) -> (r: Vec<usize>)
    ensures
        r@ == live_ids(rt@.objects),
{
    rt.live_list()
}

/// A retain followed at once by a release on the same handle leaves the table, and so
/// the instance count, as it was.
pub proof fn lemma_retain_release_no_change(objects: Seq<u64>, id: int)
    requires
        0 <= id < objects.len(),
        0 < objects[id] < u64::MAX,
    ensures
        released(retained(objects, id), id) == objects,
        live_count(released(retained(objects, id), id)) == live_count(objects),
{
    assert(released(retained(objects, id), id) =~= objects);
}

/// A release by the last owner of an object lowers the instance count by one.
pub proof fn lemma_last_release_destroys(objects: Seq<u64>, id: int)
    requires
        0 <= id < objects.len(),
        objects[id] == 1,
    ensures
        live_count(released(objects, id)) + 1 == live_count(objects),
{
    native::lemma_live_count_update(objects, id, 0);
}

/// Creating an object raises the instance count by one, and the release by its one
/// owner brings it back.
pub proof fn lemma_create_then_release(objects: Seq<u64>)
    ensures
        live_count(objects.push(1)) == live_count(objects) + 1,
        live_count(released(objects.push(1), objects.len() as int)) == live_count(objects),
{
    let c = objects.push(1);
    native::lemma_live_count_push(objects, 1);
    native::lemma_live_count_update(c, objects.len() as int, 0);
}

/// Of a created object and one clone, the first drop leaves the instance count above
/// the count before creation, and only the second brings it back.
pub proof fn lemma_clones_release_once_each(objects: Seq<u64>)
    ensures
        live_count(released(retained(objects.push(1), objects.len() as int), objects.len() as int))
            == live_count(objects) + 1,
        live_count(
            released(
                released(retained(objects.push(1), objects.len() as int), objects.len() as int),
                objects.len() as int,
            ),
        ) == live_count(objects),
{
    let id = objects.len() as int;
    let c = objects.push(1);
    lemma_retain_release_no_change(c, id);
    lemma_create_then_release(objects);
}

/// A dropped listener is not invoked when its source fires again: its call count stays.
pub proof fn lemma_dropped_listener_is_inert(listeners: Seq<Listener>, id: int, source: u64)
    requires
        0 <= id < listeners.len(),
    ensures
        notified(removed(listeners, id), source)[id] == removed(listeners, id)[id],
        notified(removed(listeners, id), source)[id].calls == listeners[id].calls,
{
}

} // verus!
